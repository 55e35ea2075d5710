//! Text helpers shared by the URL builders and the cookie scan.

use vstd::prelude::*;

verus! {

/// `pat` stands in `s` at position `i`.
pub open spec fn occurs_at(pat: Seq<char>, s: Seq<char>, i: int) -> bool {
    0 <= i && i + pat.len() <= s.len() && s.subrange(i, i + pat.len()) == pat
}

/// `pat` stands somewhere in `s` as a contiguous run of characters.
pub open spec fn occurs_in(pat: Seq<char>, s: Seq<char>) -> bool {
    exists|i: int| occurs_at(pat, s, i)
}

/// The part of `s` in front of the first `sep`, or all of `s` where it holds none.
pub open spec fn before_first(s: Seq<char>, sep: char) -> Seq<char>
    decreases s.len(),
{
    if s.len() == 0 || s[0] == sep {
        Seq::empty()
    } else {
        seq![s[0]] + before_first(s.drop_first(), sep)
    }
}

/// The character that writes the digit `d`.
pub open spec fn digit_char(d: nat) -> char {
    if d == 0 {
        '0'
    } else if d == 1 {
        '1'
    } else if d == 2 {
        '2'
    } else if d == 3 {
        '3'
    } else if d == 4 {
        '4'
    } else if d == 5 {
        '5'
    } else if d == 6 {
        '6'
    } else if d == 7 {
        '7'
    } else if d == 8 {
        '8'
    } else {
        '9'
    }
}

/// `n` in decimal, without sign or leading zeros.
pub open spec fn decimal(n: nat) -> Seq<char>
    decreases n,
{
    if n < 10 {
        seq![digit_char(n)]
    } else {
        decimal(n / 10).push(digit_char(n % 10))
    }
}

/// `true` or `false`, as a query parameter writes it.
pub open spec fn bool_text(b: bool) -> Seq<char> {
    if b {
        "true"@
    } else {
        "false"@
    }
}

/// `str::contains` with a string pattern: whether `pat` matches a sub-slice
/// of `s`. Stated over characters, which is the same thing for two valid
/// UTF-8 strings.
#[verifier::external_body]
pub(crate) fn contains_text(s: &str, pat: &str) -> (found: bool)
    ensures
        found == occurs_in(pat@, s@),
{
    s.contains(pat)
}

/// `str::starts_with` with a string pattern: whether `pat` matches a prefix
/// of `s`.
#[verifier::external_body]
pub(crate) fn starts_with_text(s: &str, pat: &str) -> (found: bool)
    ensures
        found == pat@.is_prefix_of(s@),
{
    s.starts_with(pat)
}

/// `str::split_once` with a character delimiter: `None` where `s` holds no
/// `sep`; else the text in front of the first `sep` and the text behind it.
#[verifier::external_body]
pub(crate) fn split_once_at(s: &str, sep: char) -> (parts: Option<(&str, &str)>)
    ensures
        match parts {
            None => !s@.contains(sep),
            Some((head, tail)) => s@ == head@ + seq![sep] + tail@ && !head@.contains(sep),
        },
{
    s.split_once(sep)
}

/// `str::eq`: whether two string slices hold the same characters.
#[verifier::external_body]
pub(crate) fn same_text(a: &str, b: &str) -> (same: bool)
    ensures
        same == (a@ == b@),
{
    a == b
}

/// A pattern of one character occurs exactly where the character does.
pub proof fn lemma_occurs_single(c: char, s: Seq<char>)
    ensures
        occurs_in(seq![c], s) == s.contains(c),
{
    if occurs_in(seq![c], s) {
        let i = choose|i: int| occurs_at(seq![c], s, i);
        assert(s.subrange(i, i + 1)[0] == c);
        assert(s[i] == c);
    }
    if s.contains(c) {
        let i = choose|i: int| 0 <= i < s.len() && s[i] == c;
        assert(s.subrange(i, i + 1) =~= seq![c]);
        assert(occurs_at(seq![c], s, i));
    }
}

/// What occurs in a text still occurs when more is written in front of it.
pub proof fn lemma_occurs_shift(pat: Seq<char>, head: Seq<char>, s: Seq<char>)
    requires
        occurs_in(pat, s),
    ensures
        occurs_in(pat, head + s),
{
    let i = choose|i: int| occurs_at(pat, s, i);
    let j = i + head.len();
    assert((head + s).subrange(j, j + pat.len()) =~= s.subrange(i, i + pat.len()));
    assert(occurs_at(pat, head + s, j));
}

/// A text that ends in `pat` holds it.
pub proof fn lemma_occurs_suffix(pat: Seq<char>, s: Seq<char>)
    ensures
        occurs_in(pat, s + pat),
{
    let i = s.len() as int;
    assert((s + pat).subrange(i, i + pat.len()) =~= pat);
    assert(occurs_at(pat, s + pat, i));
}

/// A text without `sep` is its own part in front of the first `sep`.
pub proof fn lemma_before_first_absent(s: Seq<char>, sep: char)
    requires
        !s.contains(sep),
    ensures
        before_first(s, sep) == s,
    decreases s.len(),
{
    if s.len() > 0 {
        assert(s[0] != sep);
        assert forall|i: int| 0 <= i < s.drop_first().len() implies s.drop_first()[i] != sep by {
            assert(s.drop_first()[i] == s[i + 1]);
        }
        lemma_before_first_absent(s.drop_first(), sep);
        assert(seq![s[0]] + s.drop_first() =~= s);
    } else {
        assert(s =~= Seq::empty());
    }
}

/// Where `head` holds no `sep`, it is the part of `head + sep + tail` in
/// front of the first `sep`.
pub proof fn lemma_before_first_split(head: Seq<char>, sep: char, tail: Seq<char>)
    requires
        !head.contains(sep),
    ensures
        before_first(head + seq![sep] + tail, sep) == head,
    decreases head.len(),
{
    let s = head + seq![sep] + tail;
    if head.len() == 0 {
        assert(s[0] == sep);
        assert(head =~= Seq::empty());
    } else {
        assert(s[0] == head[0]);
        assert(head[0] != sep);
        let rest = head.drop_first();
        assert forall|i: int| 0 <= i < rest.len() implies rest[i] != sep by {
            assert(rest[i] == head[i + 1]);
        }
        assert(s.drop_first() =~= rest + seq![sep] + tail);
        lemma_before_first_split(rest, sep, tail);
        assert(seq![head[0]] + rest =~= head);
    }
}

/// The one-character text that writes the digit `d`.
fn digit_text(d: u64) -> (s: &'static str)
    requires
        d < 10,
    ensures
        s@ == seq![digit_char(d as nat)],
{
    proof {
        reveal_strlit("0");
        reveal_strlit("1");
        reveal_strlit("2");
        reveal_strlit("3");
        reveal_strlit("4");
        reveal_strlit("5");
        reveal_strlit("6");
        reveal_strlit("7");
        reveal_strlit("8");
        reveal_strlit("9");
    }
    let s = if d == 0 {
        "0"
    } else if d == 1 {
        "1"
    } else if d == 2 {
        "2"
    } else if d == 3 {
        "3"
    } else if d == 4 {
        "4"
    } else if d == 5 {
        "5"
    } else if d == 6 {
        "6"
    } else if d == 7 {
        "7"
    } else if d == 8 {
        "8"
    } else {
        "9"
    };
    assert(s@ =~= seq![digit_char(d as nat)]);
    s
}

/// Writes `n` in decimal behind what `out` holds.
pub fn push_decimal(out: &mut String, n: u64)
    ensures
        final(out)@ == old(out)@ + decimal(n as nat),
    decreases n,
{
    if n >= 10 {
        push_decimal(out, n / 10);
    }
    out.append(digit_text(n % 10));
    proof {
        if n >= 10 {
            assert(old(out)@ + decimal((n / 10) as nat) + seq![digit_char((n % 10) as nat)]
                =~= old(out)@ + decimal((n / 10) as nat).push(digit_char((n % 10) as nat)));
        }
    }
}

/// Writes `true` or `false` behind what `out` holds.
pub fn push_bool(out: &mut String, b: bool)
    ensures
        final(out)@ == old(out)@ + bool_text(b),
{
    if b {
        out.append("true");
    } else {
        out.append("false");
    }
}

} // verus!
