//! The fetch of one user's profile.

use vstd::prelude::*;
use crate::client::Client;
use crate::endpoint::resolved;
use crate::request::Request;

verus! {

/// Whose profile to fetch, and through which client.
#[derive(Debug, Clone, Default)]
pub struct StudentDataFetchBuilder {
    pub client: Client,
    pub login: Option<String>,
}

/// The path of a user's profile; without a login, the path of the profile
/// of the user that the session belongs to.
pub open spec fn profile_path(login: Option<String>) -> Seq<char> {
    match login {
        Some(login) => "/user/"@ + login@,
        None => "/user"@,
    }
}

impl StudentDataFetchBuilder {
    /// A fetch of the session's own profile through a client without session.
    pub fn new() -> (builder: StudentDataFetchBuilder)
        ensures
            builder.client@ == Client::default_view(),
            builder.login is None,
    {
        StudentDataFetchBuilder { client: Client::default(), login: None }
    }

    /// The request for the profile.
    pub fn send(self) -> (request: Request)
        ensures
            request.url@ == resolved(profile_path(self.login)),
            request.remaining == self.client.retry_count,
    {
        match &self.login {
            Some(login) => {
                let mut path = String::from_str("/user/");
                path.append(login.as_str());
                self.client.make_request(path.as_str())
            },
            None => self.client.make_request("/user"),
        }
    }

    /// Sets the client that the request is made through.
    pub fn client(self, client: Client) -> (builder: StudentDataFetchBuilder)
        ensures
            builder.client == client,
            builder.login == self.login,
    {
        StudentDataFetchBuilder { client, login: self.login }
    }

    /// Sets the user whose profile is fetched.
    pub fn login(self, login: &str) -> (builder: StudentDataFetchBuilder)
        ensures
            builder.client == self.client,
            builder.login is Some,
            builder.login->0@ == login@,
    {
        StudentDataFetchBuilder { client: self.client, login: Some(String::from_str(login)) }
    }
}

} // verus!
