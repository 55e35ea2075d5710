//! The login: from the login link to a client that knows its user.
//!
//! The caller performs four things in turn and reports each to the step
//! that follows it:
//! 1. one GET to the login link, without following redirects, as a
//!    `LoginReply` to `Handshake::receive`;
//! 2. the set-up of a transport that sends the session's cookie with every
//!    request, as a `bool` to `Session::open`;
//! 3. the request of `Client::fetch_student_data`, through that transport;
//! 4. the decoding of its body, as the profile's login or the failure of
//!    either of the two to `Client::identify`.

use vstd::prelude::*;
use crate::client::{Client, ClientView};
use crate::error::Error;
use crate::text::{
    before_first, lemma_before_first_absent, lemma_before_first_split, split_once_at,
    starts_with_text,
};

verus! {

/// What came back from the GET to the login link.
#[derive(Debug, Clone)]
pub enum LoginReply {
    /// No transport could be set up, so nothing was sent.
    NoTransport,
    /// The request failed; the status code, where the failure carries one.
    Failed(Option<u16>),
    /// A response came: its `Set-Cookie` headers in the order received, each
    /// as text where it is one, `None` where it holds other bytes.
    Headers(Vec<Option<String>>),
}

/// A login that waits for the reply to its first request.
#[derive(Debug, Clone)]
pub struct Handshake {
    pub autologin: String,
    pub retry_count: u32,
}

/// A login that has its cookie and waits for a transport to carry it.
#[derive(Debug, Clone)]
pub struct Session {
    pub autologin: String,
    pub retry_count: u32,
    pub cookie: String,
}

/// A session as contracts see it.
pub struct SessionView {
    pub autologin: Seq<char>,
    pub retry_count: u32,
    pub cookie: Seq<char>,
}

impl View for Session {
    type V = SessionView;

    open spec fn view(&self) -> SessionView {
        SessionView {
            autologin: self.autologin@,
            retry_count: self.retry_count,
            cookie: self.cookie@,
        }
    }
}

/// A character that may stand in the value of a header: a tab, or anything
/// from the space on but the delete character.
pub open spec fn header_char(c: char) -> bool {
    (c as u32 >= 32 && c as u32 != 127) || c == '\t'
}

/// A text that may be sent as the value of a header.
pub open spec fn header_text(text: Seq<char>) -> bool {
    forall|i: int| 0 <= i < text.len() ==> header_char(#[trigger] text[i])
}

/// `reqwest::header::HeaderValue::from_str`, which is `HeaderValue::from_str`
/// of the `http` crate: whether the text is taken as a header value. It goes
/// through the bytes of the text and refuses one that is below 32 and no
/// tab, or that is 127. In UTF-8 a character below 128 is one byte of its
/// own value, and every byte of another character is 128 or more, so the
/// same test on the characters decides.
#[verifier::external_body]
fn accepted_as_header(text: &str) -> (accepted: bool)
    ensures
        accepted == header_text(text@),
{
    reqwest::header::HeaderValue::from_str(text).is_ok()
}

/// The header is text and sets the cookie named `user`.
pub open spec fn names_session(header: Option<String>) -> bool {
    header is Some && "user="@.is_prefix_of(header->0@)
}

/// The value of the first header that sets the cookie named `user`.
pub open spec fn first_session_header(headers: Seq<Option<String>>) -> Option<Seq<char>>
    decreases headers.len(),
{
    if headers.len() == 0 {
        None
    } else if names_session(headers[0]) {
        Some(headers[0]->0@)
    } else {
        first_session_header(headers.drop_first())
    }
}

/// The session cookie that a reply with these `Set-Cookie` headers gives:
/// the first header that sets `user`, up to its first `;`, provided that it
/// can be sent back as a header value. Later headers are not looked at.
pub open spec fn spec_session_cookie(headers: Seq<Option<String>>) -> Option<Seq<char>> {
    match first_session_header(headers) {
        None => None,
        Some(value) => {
            let cookie = before_first(value, ';');
            if header_text(cookie) {
                Some(cookie)
            } else {
                None
            }
        },
    }
}

/// Picks the session cookie out of the `Set-Cookie` headers of the reply.
pub fn session_cookie(headers: &Vec<Option<String>>) -> (cookie: Option<String>)
    ensures
        match cookie {
            Some(text) => spec_session_cookie(headers@) == Some(text@),
            None => spec_session_cookie(headers@) is None,
        },
{
    let mut i: usize = 0;
    assert(headers@.skip(0) =~= headers@);
    while i < headers.len()
        invariant
            i <= headers.len(),
            first_session_header(headers@) == first_session_header(headers@.skip(i as int)),
        decreases headers.len() - i,
    {
        proof {
            assert(headers@.skip(i as int)[0] == headers@[i as int]);
            assert(headers@.skip(i as int).drop_first() =~= headers@.skip(i + 1));
        }
        match &headers[i] {
            Some(value) => {
                if starts_with_text(value.as_str(), "user=") {
                    let head = match split_once_at(value.as_str(), ';') {
                        Some((head, tail)) => {
                            proof {
                                lemma_before_first_split(head@, ';', tail@);
                            }
                            head
                        },
                        None => {
                            proof {
                                lemma_before_first_absent(value@, ';');
                            }
                            value.as_str()
                        },
                    };
                    if accepted_as_header(head) {
                        return Some(String::from_str(head));
                    } else {
                        return None;
                    }
                }
            },
            None => {},
        }
        i += 1;
    }
    None
}

impl Handshake {
    /// What the reply to the first request makes of the login.
    pub open spec fn spec_receive(self, reply: LoginReply) -> Result<SessionView, Error> {
        match reply {
            LoginReply::NoTransport => Err(Error::InternalError),
            LoginReply::Failed(Some(code)) => Err(Error::InvalidStatusCode(code)),
            LoginReply::Failed(None) => Err(Error::UnreachableRemote),
            LoginReply::Headers(headers) => match spec_session_cookie(headers@) {
                None => Err(Error::CookieNotFound),
                Some(cookie) => Ok(
                    SessionView {
                        autologin: self.autologin@,
                        retry_count: self.retry_count,
                        cookie,
                    },
                ),
            },
        }
    }

    /// Takes the reply to the GET to the login link. A failure that knows a
    /// status is `InvalidStatusCode`, one that knows none is
    /// `UnreachableRemote`; a response without session cookie is
    /// `CookieNotFound`; a response with one opens a session.
    pub fn receive(self, reply: LoginReply) -> (outcome: Result<Session, Error>)
        ensures
            match outcome {
                Ok(session) => self.spec_receive(reply) == Ok::<SessionView, Error>(session@),
                Err(error) => self.spec_receive(reply) == Err::<SessionView, Error>(error),
            },
    {
        match reply {
            LoginReply::NoTransport => Err(Error::InternalError),
            LoginReply::Failed(Some(code)) => Err(Error::InvalidStatusCode(code)),
            LoginReply::Failed(None) => Err(Error::UnreachableRemote),
            LoginReply::Headers(headers) => match session_cookie(&headers) {
                None => Err(Error::CookieNotFound),
                Some(cookie) => Ok(
                    Session { autologin: self.autologin, retry_count: self.retry_count, cookie },
                ),
            },
        }
    }
}

impl Session {
    /// What the set-up of the transport makes of the session.
    pub open spec fn spec_open(session: SessionView, transport_ready: bool) -> Result<
        ClientView,
        Error,
    > {
        if transport_ready {
            Ok(
                ClientView {
                    autologin: session.autologin,
                    retry_count: session.retry_count,
                    cookie: session.cookie,
                    login: Seq::empty(),
                },
            )
        } else {
            Err(Error::InternalError)
        }
    }

    /// Takes the news of the transport that is to carry the cookie: with it
    /// the session becomes a client that does not know its user yet, without
    /// it the login fails with `InternalError`.
    pub fn open(self, transport_ready: bool) -> (outcome: Result<Client, Error>)
        ensures
            match outcome {
                Ok(client) => Session::spec_open(self@, transport_ready) == Ok::<
                    ClientView,
                    Error,
                >(client@),
                Err(error) => Session::spec_open(self@, transport_ready) == Err::<
                    ClientView,
                    Error,
                >(error),
            },
    {
        if transport_ready {
            Ok(
                Client {
                    autologin: self.autologin,
                    retry_count: self.retry_count,
                    cookie: self.cookie,
                    login: String::new(),
                },
            )
        } else {
            Err(Error::InternalError)
        }
    }
}

impl Client {
    /// What the fetch of the client's own profile makes of the client.
    pub open spec fn spec_identify(client: ClientView, profile: Result<String, Error>) -> Result<
        ClientView,
        Error,
    > {
        match profile {
            Ok(login) => Ok(
                ClientView {
                    autologin: client.autologin,
                    retry_count: client.retry_count,
                    cookie: client.cookie,
                    login: login@,
                },
            ),
            Err(error) => Err(error),
        }
    }

    /// Ends the login. `profile` is what the fetch of the client's own
    /// profile gave: that user's login, or why the fetch failed. A failure
    /// is handed on as it is.
    pub fn identify(self, profile: Result<String, Error>) -> (outcome: Result<Client, Error>)
        ensures
            match outcome {
                Ok(client) => Client::spec_identify(self@, profile) == Ok::<ClientView, Error>(
                    client@,
                ),
                Err(error) => Client::spec_identify(self@, profile) == Err::<ClientView, Error>(
                    error,
                ),
            },
    {
        match profile {
            Ok(login) => Ok(
                Client {
                    autologin: self.autologin,
                    retry_count: self.retry_count,
                    cookie: self.cookie,
                    login,
                },
            ),
            Err(error) => Err(error),
        }
    }
}

/// What a whole login comes to, given the reply to the first request,
/// whether the second transport could be set up, and what the fetch of the
/// client's own profile gave. The first failure ends it.
pub open spec fn login_outcome(
    handshake: Handshake,
    reply: LoginReply,
    transport_ready: bool,
    profile: Result<String, Error>,
) -> Result<ClientView, Error> {
    match handshake.spec_receive(reply) {
        Err(error) => Err(error),
        Ok(session) => match Session::spec_open(session, transport_ready) {
            Err(error) => Err(error),
            Ok(client) => Client::spec_identify(client, profile),
        },
    }
}

/// Headers of which none sets the cookie named `user` give no session cookie.
pub proof fn lemma_no_session_header(headers: Seq<Option<String>>)
    requires
        forall|i: int| 0 <= i < headers.len() ==> !names_session(#[trigger] headers[i]),
    ensures
        spec_session_cookie(headers) is None,
    decreases headers.len(),
{
    if headers.len() > 0 {
        let rest = headers.drop_first();
        assert forall|i: int| 0 <= i < rest.len() implies !names_session(#[trigger] rest[i]) by {
            assert(rest[i] == headers[i + 1]);
        }
        lemma_no_session_header(rest);
    }
}

/// A login whose reply gives a session cookie, whose transport is set up and
/// whose own profile is fetched and decoded ends in a client that carries
/// that cookie and has the profile's login as its own.
pub proof fn lemma_login_learns_identity(
    handshake: Handshake,
    headers: Vec<Option<String>>,
    login: String,
)
    requires
        spec_session_cookie(headers@) is Some,
    ensures
        login_outcome(handshake, LoginReply::Headers(headers), true, Ok(login)) == Ok::<
            ClientView,
            Error,
        >(
            ClientView {
                autologin: handshake.autologin@,
                retry_count: handshake.retry_count,
                cookie: spec_session_cookie(headers@)->0,
                login: login@,
            },
        ),
{
}

/// A login whose first request fails without a status ends in
/// `UnreachableRemote`, whatever else is reported.
pub proof fn lemma_login_unreachable(
    handshake: Handshake,
    transport_ready: bool,
    profile: Result<String, Error>,
)
    ensures
        login_outcome(handshake, LoginReply::Failed(None), transport_ready, profile) == Err::<
            ClientView,
            Error,
        >(Error::UnreachableRemote),
{
}

/// A login whose reply has no header that sets the cookie named `user` ends
/// in `CookieNotFound`, whatever else is reported.
pub proof fn lemma_login_without_cookie(
    handshake: Handshake,
    headers: Vec<Option<String>>,
    transport_ready: bool,
    profile: Result<String, Error>,
)
    requires
        forall|i: int| 0 <= i < headers@.len() ==> !names_session(#[trigger] headers@[i]),
    ensures
        login_outcome(handshake, LoginReply::Headers(headers), transport_ready, profile) == Err::<
            ClientView,
            Error,
        >(Error::CookieNotFound),
{
    lemma_no_session_header(headers@);
}

/// Where the fetch of the client's own profile fails, the login fails with
/// that very error.
pub proof fn lemma_login_hands_profile_failure_on(
    handshake: Handshake,
    headers: Vec<Option<String>>,
    error: Error,
)
    requires
        spec_session_cookie(headers@) is Some,
    ensures
        login_outcome(handshake, LoginReply::Headers(headers), true, Err(error)) == Err::<
            ClientView,
            Error,
        >(error),
{
}

} // verus!
