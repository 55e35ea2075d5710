//! The ways a request, the login or a listing can fail.

use vstd::prelude::*;
use crate::text::{decimal, push_decimal};

verus! {

/// Why a call gave no result.
#[derive(Debug, Clone, PartialEq, Eq, PartialOrd, Ord)]
pub enum Error {
    /// Every allowed attempt of one request ended without a readable body.
    RetryLimit,
    /// The login request failed and the transport knew a status code.
    InvalidStatusCode(u16),
    /// The login reply carried no session cookie.
    CookieNotFound,
    /// The login request failed before any status was known.
    UnreachableRemote,
    /// A listing's total contradicts what was already received, or a
    /// transport could not be set up.
    InternalError,
    /// A response body could not be decoded.
    ParserError(String),
    /// Any other failure that the transport reported.
    RequestError(String),
}

impl Error {
    /// The text that `message` gives for this error.
    pub open spec fn spec_message(self) -> Seq<char> {
        match self {
            Error::RetryLimit => "no valid response received out of all the allowed retries"@,
            Error::InvalidStatusCode(code) => "invalid status code ("@ + decimal(code as nat)
                + ")"@,
            Error::CookieNotFound => "the session cookie couldn't be extracted"@,
            Error::UnreachableRemote => "the EPITECH intranet couldn't be reached"@,
            Error::InternalError => "internal error"@,
            Error::ParserError(detail) => "parser error: '"@ + detail@ + "'"@,
            Error::RequestError(detail) => "request error: '"@ + detail@ + "'"@,
        }
    }

    /// A sentence for the user that says what went wrong.
    pub fn message(&self) -> (text: String)
        ensures
            text@ == self.spec_message(),
    {
        match self {
            Error::RetryLimit => String::from_str(
                "no valid response received out of all the allowed retries",
            ),
            Error::InvalidStatusCode(code) => {
                let mut text = String::from_str("invalid status code (");
                push_decimal(&mut text, *code as u64);
                text.append(")");
                text
            },
            Error::CookieNotFound => String::from_str("the session cookie couldn't be extracted"),
            Error::UnreachableRemote => String::from_str(
                "the EPITECH intranet couldn't be reached",
            ),
            Error::InternalError => String::from_str("internal error"),
            Error::ParserError(detail) => {
                let mut text = String::from_str("parser error: '");
                text.append(detail.as_str());
                text.append("'");
                text
            },
            Error::RequestError(detail) => {
                let mut text = String::from_str("request error: '");
                text.append(detail.as_str());
                text.append("'");
                text
            },
        }
    }
}

} // verus!
