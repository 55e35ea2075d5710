//! From a resource path to the URL that is requested.

use vstd::prelude::*;
use crate::text::{
    contains_text, lemma_occurs_shift, lemma_occurs_single, lemma_occurs_suffix, occurs_in,
    starts_with_text,
};

verus! {

/// The origin that every request goes to.
pub const ENDPOINT: &'static str = "https://intra.epitech.eu";

/// The path asks for the JSON representation, as far as a search for the
/// two spellings `&format=json` and `?format=json` can tell.
pub open spec fn has_json_flag(path: Seq<char>) -> bool {
    occurs_in("&format=json"@, path) || occurs_in("?format=json"@, path)
}

/// The path with the JSON flag behind it where the search found none: joined
/// by `&` where the path holds a `?`, else by `?`.
pub open spec fn flagged(path: Seq<char>) -> Seq<char> {
    if has_json_flag(path) {
        path
    } else if path.contains('?') {
        path + "&format=json"@
    } else {
        path + "?format=json"@
    }
}

/// The path with the origin in front of it, unless it starts with the origin.
pub open spec fn qualified(path: Seq<char>) -> Seq<char> {
    if ENDPOINT@.is_prefix_of(path) {
        path
    } else {
        ENDPOINT@ + path
    }
}

/// The URL that is requested for `path`.
pub open spec fn resolved(path: Seq<char>) -> Seq<char> {
    qualified(flagged(path))
}

/// Turns a resource path, relative or absolute, with or without a query,
/// into the URL to request: on the service's origin and in JSON mode.
pub fn resolve(path: &str) -> (url: String)
    ensures
        url@ == resolved(path@),
{
    let mut url = String::from_str(path);
    if !contains_text(path, "&format=json") && !contains_text(path, "?format=json") {
        proof {
            reveal_strlit("?");
            assert("?"@ =~= seq!['?']);
            lemma_occurs_single('?', path@);
        }
        if contains_text(path, "?") {
            url.append("&format=json");
        } else {
            url.append("?format=json");
        }
    }
    if !starts_with_text(url.as_str(), ENDPOINT) {
        url = String::from_str(ENDPOINT).concat(url.as_str());
    }
    url
}

/// Every resolved URL starts with the origin and carries the JSON flag.
pub proof fn lemma_resolved_shape(path: Seq<char>)
    ensures
        ENDPOINT@.is_prefix_of(resolved(path)),
        has_json_flag(resolved(path)),
{
    lemma_flagged_has_flag(path);
    let f = flagged(path);
    if !ENDPOINT@.is_prefix_of(f) {
        if occurs_in("&format=json"@, f) {
            lemma_occurs_shift("&format=json"@, ENDPOINT@, f);
        } else {
            lemma_occurs_shift("?format=json"@, ENDPOINT@, f);
        }
        assert(ENDPOINT@.is_prefix_of(ENDPOINT@ + f));
    }
}

/// Flagging a path leaves a path that the search recognises.
pub proof fn lemma_flagged_has_flag(path: Seq<char>)
    ensures
        has_json_flag(flagged(path)),
{
    if !has_json_flag(path) {
        if path.contains('?') {
            lemma_occurs_suffix("&format=json"@, path);
        } else {
            lemma_occurs_suffix("?format=json"@, path);
        }
    }
}

/// A path that already starts with the origin and already carries the flag
/// in one of the two spellings is its own URL.
pub proof fn lemma_resolve_fixed(path: Seq<char>)
    requires
        ENDPOINT@.is_prefix_of(path),
        has_json_flag(path),
    ensures
        resolved(path) == path,
{
}

/// Resolving a resolved URL changes nothing.
pub proof fn lemma_resolve_idempotent(path: Seq<char>)
    ensures
        resolved(resolved(path)) == resolved(path),
{
    lemma_resolved_shape(path);
    lemma_resolve_fixed(resolved(path));
}

/// A flag that the search does not recognise is not counted: the URL then
/// ends in a flag of its own.
pub proof fn lemma_unrecognised_flag_is_doubled(path: Seq<char>)
    requires
        !has_json_flag(path),
    ensures
        resolved(path) == qualified(
            path + (if path.contains('?') {
                "&format=json"@
            } else {
                "?format=json"@
            }),
        ),
{
}

} // verus!
