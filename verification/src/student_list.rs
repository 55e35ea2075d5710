//! The listing of students, fetched page by page.
//!
//! `StudentListFetchBuilder::send` opens a `Listing`. For each
//! `ListingStep::Fetch` the caller performs `Listing::request`, decodes the
//! body into a page and hands the page, or the failure of either, to
//! `Listing::receive`, one page after the other: the offset of a request is
//! known only when the page before it is.
//!
//! A page without students below the declared total is answered by asking
//! for the same offset again: the listing itself sets no end to that.

use vstd::prelude::*;
use crate::campus::{Location, Promo};
use crate::client::Client;
use crate::endpoint::resolved;
use crate::error::Error;
use crate::request::Request;
use crate::response::{UserEntries, UserEntry};
use crate::text::{bool_text, decimal, push_bool, push_decimal};

verus! {

/// Which students to list: the filters, the offset to start at, and the
/// client to ask through.
#[derive(Debug, Clone, Default)]
pub struct StudentListFetchBuilder {
    pub client: Client,
    pub location: Option<Location>,
    pub promo: Option<Promo>,
    pub year: u32,
    pub course: Option<String>,
    pub active: bool,
    pub offset: u32,
}

/// A listing under way: what is asked, the offset of the next page, and the
/// students received so far, in the order received.
#[derive(Debug)]
pub struct Listing {
    pub filter: StudentListFetchBuilder,
    pub offset: usize,
    pub items: Vec<UserEntry>,
}

/// What the caller does next for a listing.
#[derive(Debug)]
pub enum ListingStep {
    /// Request the page at the listing's offset and hand it to `receive`.
    Fetch(Listing),
    /// The listing is over, with this result.
    Done(Result<Vec<UserEntry>, Error>),
}

/// A listing under way as contracts see it.
pub struct ListingState {
    pub offset: nat,
    pub items: Seq<UserEntry>,
}

/// A step of a listing as contracts see it.
pub enum ListingOutcome {
    Fetch(ListingState),
    Done(Result<Seq<UserEntry>, Error>),
}

impl View for Listing {
    type V = ListingState;

    open spec fn view(&self) -> ListingState {
        ListingState { offset: self.offset as nat, items: self.items@ }
    }
}

impl View for ListingStep {
    type V = ListingOutcome;

    open spec fn view(&self) -> ListingOutcome {
        match *self {
            ListingStep::Fetch(listing) => ListingOutcome::Fetch(listing@),
            ListingStep::Done(Ok(items)) => ListingOutcome::Done(Ok(items@)),
            ListingStep::Done(Err(error)) => ListingOutcome::Done(Err(error)),
        }
    }
}

/// The part of the path that names the campus, if one is set.
pub open spec fn location_part(location: Option<Location>) -> Seq<char> {
    match location {
        Some(location) => "&location="@ + location.spec_code(),
        None => Seq::empty(),
    }
}

/// The part of the path that names the cohort, if one is set.
pub open spec fn promo_part(promo: Option<Promo>) -> Seq<char> {
    match promo {
        Some(promo) => "&promo="@ + promo.spec_code(),
        None => Seq::empty(),
    }
}

/// The part of the path that names the course, if one is set.
pub open spec fn course_part(course: Option<String>) -> Seq<char> {
    match course {
        Some(course) => "&course="@ + course@,
        None => Seq::empty(),
    }
}

/// The path of the page of a listing that starts at `offset`.
pub open spec fn list_path(filter: StudentListFetchBuilder, offset: nat) -> Seq<char> {
    "/user/filter/user?offset="@ + decimal(offset) + "&year="@ + decimal(filter.year as nat)
        + "&active="@ + bool_text(filter.active) + location_part(filter.location) + promo_part(
        filter.promo,
    ) + course_part(filter.course)
}

/// What a page makes of a listing. With `reached` the offset plus the size
/// of the page: the listing is complete where `reached` is the declared
/// total; it fails with `InternalError` where `reached` is beyond the total;
/// else the next page is asked for at `reached`. The students of the page
/// go behind those received before.
pub open spec fn absorbed(state: ListingState, total: nat, page: Seq<UserEntry>) -> ListingOutcome {
    let reached = state.offset + page.len();
    if reached == total {
        ListingOutcome::Done(Ok(state.items + page))
    } else if reached > total {
        ListingOutcome::Done(Err(Error::InternalError))
    } else {
        ListingOutcome::Fetch(ListingState { offset: reached, items: state.items + page })
    }
}

/// The page that a server holding `all` gives at `offset` when it serves at
/// most `size` students at a time.
pub open spec fn page_of(all: Seq<UserEntry>, size: nat, offset: nat) -> Seq<UserEntry>
    recommends
        offset <= all.len(),
{
    if offset + size <= all.len() {
        all.subrange(offset as int, (offset + size) as int)
    } else {
        all.subrange(offset as int, all.len() as int)
    }
}

/// Where a listing stands after at most `rounds` requests to a server that
/// holds `all`, declares its length as the total and serves at most `size`
/// students at a time.
pub open spec fn collected(
    all: Seq<UserEntry>,
    size: nat,
    state: ListingState,
    rounds: nat,
) -> ListingOutcome
    decreases rounds,
{
    if rounds == 0 {
        ListingOutcome::Fetch(state)
    } else {
        match absorbed(state, all.len(), page_of(all, size, state.offset)) {
            ListingOutcome::Fetch(next) => collected(all, size, next, (rounds - 1) as nat),
            done => done,
        }
    }
}

/// The offsets that the same listing asks for, in turn, within `rounds`
/// requests.
pub open spec fn asked(
    all: Seq<UserEntry>,
    size: nat,
    state: ListingState,
    rounds: nat,
) -> Seq<nat>
    decreases rounds,
{
    if rounds == 0 {
        Seq::empty()
    } else {
        match absorbed(state, all.len(), page_of(all, size, state.offset)) {
            ListingOutcome::Fetch(next) => seq![state.offset] + asked(
                all,
                size,
                next,
                (rounds - 1) as nat,
            ),
            _ => seq![state.offset],
        }
    }
}

/// The number of pages that `left` students fill when at most `size` go on
/// a page; an empty listing still takes one page to be known as empty.
pub open spec fn pages_needed(left: nat, size: nat) -> nat
    decreases left,
{
    if size == 0 || left <= size {
        1
    } else {
        1 + pages_needed((left - size) as nat, size)
    }
}

/// The current calendar year by the local clock: `chrono::Local::now` and
/// `chrono::Datelike::year`. Nothing is claimed of the value.
#[verifier::external_body]
fn current_year() -> (year: u32) {
    chrono::Datelike::year(&chrono::Local::now()) as u32
}

impl StudentListFetchBuilder {
    /// A listing of the active students of the current year, of every
    /// campus, cohort and course, from the first on.
    pub fn new() -> (builder: StudentListFetchBuilder)
        ensures
            builder.client@ == Client::default_view(),
            builder.location is None,
            builder.promo is None,
            builder.course is None,
            builder.active,
            builder.offset == 0,
    {
        StudentListFetchBuilder::for_year(current_year())
    }

    /// A listing of the active students of `year`, of every campus, cohort
    /// and course, from the first on.
    pub fn for_year(year: u32) -> (builder: StudentListFetchBuilder)
        ensures
            builder.client@ == Client::default_view(),
            builder.location is None,
            builder.promo is None,
            builder.course is None,
            builder.year == year,
            builder.active,
            builder.offset == 0,
    {
        StudentListFetchBuilder {
            client: Client::default(),
            location: None,
            promo: None,
            year,
            course: None,
            active: true,
            offset: 0,
        }
    }

    /// Opens the listing at the builder's offset, with nothing received yet.
    pub fn send(self) -> (listing: Listing)
        ensures
            listing.filter == self,
            listing.offset == self.offset,
            listing.items@ == Seq::<UserEntry>::empty(),
    {
        let offset = self.offset as usize;
        Listing { filter: self, offset, items: Vec::new() }
    }

    /// Sets the client that the requests are made through.
    pub fn client(self, client: Client) -> (builder: StudentListFetchBuilder)
        ensures
            builder == (StudentListFetchBuilder { client, ..self }),
    {
        StudentListFetchBuilder { client, ..self }
    }

    /// Narrows the listing to one campus.
    pub fn location(self, location: Location) -> (builder: StudentListFetchBuilder)
        ensures
            builder == (StudentListFetchBuilder { location: Some(location), ..self }),
    {
        StudentListFetchBuilder { location: Some(location), ..self }
    }

    /// Chooses between the active students and the others.
    pub fn active(self, active: bool) -> (builder: StudentListFetchBuilder)
        ensures
            builder == (StudentListFetchBuilder { active, ..self }),
    {
        StudentListFetchBuilder { active, ..self }
    }

    /// Sets the number of students to pass over at the start.
    pub fn offset(self, offset: u32) -> (builder: StudentListFetchBuilder)
        ensures
            builder == (StudentListFetchBuilder { offset, ..self }),
    {
        StudentListFetchBuilder { offset, ..self }
    }

    /// Sets the year.
    pub fn year(self, year: u32) -> (builder: StudentListFetchBuilder)
        ensures
            builder == (StudentListFetchBuilder { year, ..self }),
    {
        StudentListFetchBuilder { year, ..self }
    }

    /// Narrows the listing to one cohort.
    pub fn promo(self, promo: Promo) -> (builder: StudentListFetchBuilder)
        ensures
            builder == (StudentListFetchBuilder { promo: Some(promo), ..self }),
    {
        StudentListFetchBuilder { promo: Some(promo), ..self }
    }

    /// Narrows the listing to one course.
    pub fn course(self, course: &str) -> (builder: StudentListFetchBuilder)
        ensures
            builder.course is Some,
            builder.course->0@ == course@,
            builder == (StudentListFetchBuilder { course: builder.course, ..self }),
    {
        StudentListFetchBuilder { course: Some(String::from_str(course)), ..self }
    }
}

impl Listing {
    /// The path of the page that is asked for next.
    pub fn path(&self) -> (path: String)
        ensures
            path@ == list_path(self.filter, self.offset as nat),
    {
        let mut path = String::from_str("/user/filter/user?offset=");
        push_decimal(&mut path, self.offset as u64);
        path.append("&year=");
        push_decimal(&mut path, self.filter.year as u64);
        path.append("&active=");
        push_bool(&mut path, self.filter.active);
        let ghost base = path@;
        match &self.filter.location {
            Some(location) => {
                path.append("&location=");
                path.append(location.code());
            },
            None => {},
        }
        assert(path@ =~= base + location_part(self.filter.location));
        let ghost located = path@;
        match &self.filter.promo {
            Some(promo) => {
                path.append("&promo=");
                path.append(promo.code());
            },
            None => {},
        }
        assert(path@ =~= located + promo_part(self.filter.promo));
        let ghost narrowed = path@;
        match &self.filter.course {
            Some(course) => {
                path.append("&course=");
                path.append(course.as_str());
            },
            None => {},
        }
        assert(path@ =~= narrowed + course_part(self.filter.course));
        path
    }

    /// The request for the page that is asked for next.
    pub fn request(&self) -> (request: Request)
        ensures
            request.url@ == resolved(list_path(self.filter, self.offset as nat)),
            request.remaining == self.filter.client.retry_count,
    {
        let path = self.path();
        self.filter.client.make_request(path.as_str())
    }

    /// Takes what the request for the next page came to. A failure of the
    /// request or of the decoding ends the listing with that failure, and
    /// what was received before is given up; a page is absorbed.
    pub fn receive(self, reply: Result<UserEntries, Error>) -> (step: ListingStep)
        ensures
            match reply {
                Ok(page) => step@ == absorbed(self@, page.total as nat, page.items@) && (step
                    is Fetch ==> step->Fetch_0.filter == self.filter),
                Err(error) => step == ListingStep::Done(Err(error)),
            },
    {
        match reply {
            Ok(page) => self.absorb(page),
            Err(error) => ListingStep::Done(Err(error)),
        }
    }

    /// Takes the page that was asked for and says what follows.
    pub fn absorb(self, page: UserEntries) -> (step: ListingStep)
        ensures
            step@ == absorbed(self@, page.total as nat, page.items@),
            step is Fetch ==> step->Fetch_0.filter == self.filter,
    {
        let total = page.total;
        let mut fresh = page.items;
        let count = fresh.len();
        let offset = self.offset;
        let mut items = self.items;
        items.append(&mut fresh);
        if count > total || offset > total - count {
            ListingStep::Done(Err(Error::InternalError))
        } else if offset == total - count {
            ListingStep::Done(Ok(items))
        } else {
            ListingStep::Fetch(Listing { filter: self.filter, offset: offset + count, items })
        }
    }
}

/// A page that does not end the listing moves the offset on by its size, to
/// a place below the total that the page declared; a page that holds a
/// student moves it forward.
pub proof fn lemma_offset_advances(state: ListingState, total: nat, page: Seq<UserEntry>)
    requires
        absorbed(state, total, page) is Fetch,
    ensures
        absorbed(state, total, page)->Fetch_0.offset == state.offset + page.len(),
        absorbed(state, total, page)->Fetch_0.offset < total,
        page.len() > 0 ==> absorbed(state, total, page)->Fetch_0.offset > state.offset,
{
}

/// A listing that starts within what the server holds, against a server that
/// declares the true total and serves at least one student at a time, ends
/// with every student from the start offset on, in the server's order,
/// behind those it held before.
pub proof fn lemma_listing_complete(
    all: Seq<UserEntry>,
    size: nat,
    state: ListingState,
    rounds: nat,
)
    requires
        size > 0,
        state.offset <= all.len(),
        rounds > all.len() - state.offset,
    ensures
        collected(all, size, state, rounds) == ListingOutcome::Done(
            Ok(state.items + all.skip(state.offset as int)),
        ),
    decreases rounds,
{
    let page = page_of(all, size, state.offset);
    if state.offset + size < all.len() {
        let next = ListingState { offset: state.offset + size, items: state.items + page };
        assert(absorbed(state, all.len(), page) == ListingOutcome::Fetch(next));
        lemma_listing_complete(all, size, next, (rounds - 1) as nat);
        assert(next.items + all.skip(next.offset as int) =~= state.items + all.skip(
            state.offset as int,
        ));
    } else {
        assert(page =~= all.skip(state.offset as int));
    }
}

/// Against the same server the listing asks for as many pages as the
/// students from the start offset on fill, each at the offset where the one
/// before it ended, and for none after that.
pub proof fn lemma_listing_requests(
    all: Seq<UserEntry>,
    size: nat,
    state: ListingState,
    rounds: nat,
)
    requires
        size > 0,
        state.offset <= all.len(),
        rounds > all.len() - state.offset,
    ensures
        asked(all, size, state, rounds).len() == pages_needed(
            (all.len() - state.offset) as nat,
            size,
        ),
        forall|k: int|
            0 <= k < asked(all, size, state, rounds).len() ==> #[trigger] asked(
                all,
                size,
                state,
                rounds,
            )[k] == state.offset + k * size,
    decreases rounds,
{
    let page = page_of(all, size, state.offset);
    if state.offset + size < all.len() {
        let next = ListingState { offset: state.offset + size, items: state.items + page };
        assert(absorbed(state, all.len(), page) == ListingOutcome::Fetch(next));
        lemma_listing_requests(all, size, next, (rounds - 1) as nat);
        let rest = asked(all, size, next, (rounds - 1) as nat);
        let whole = asked(all, size, state, rounds);
        assert(whole == seq![state.offset] + rest);
        assert forall|k: int| 0 <= k < whole.len() implies #[trigger] whole[k] == state.offset + k
            * size by {
            if k > 0 {
                assert(whole[k] == rest[k - 1]);
                assert((k - 1) * size + size == k * size) by (nonlinear_arith);
            } else {
                assert(0 * size == 0) by (nonlinear_arith);
            }
        }
    } else {
        assert(0 * size == 0) by (nonlinear_arith);
    }
}

/// A listing that starts beyond what the server holds fails with
/// `InternalError` at the first page.
pub proof fn lemma_listing_beyond_total(
    all: Seq<UserEntry>,
    size: nat,
    state: ListingState,
    rounds: nat,
)
    requires
        state.offset > all.len(),
        rounds > 0,
    ensures
        collected(all, size, state, rounds) == ListingOutcome::Done(
            Err::<Seq<UserEntry>, Error>(Error::InternalError),
        ),
{
}

} // verus!
