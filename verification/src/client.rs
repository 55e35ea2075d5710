//! The authenticated client and the requests it offers.

use vstd::prelude::*;
use crate::campus::Location;
use crate::endpoint::resolved;
use crate::error::Error;
use crate::handshake::Handshake;
use crate::request::Request;
use crate::student_data::StudentDataFetchBuilder;
use crate::student_list::StudentListFetchBuilder;
use crate::text::{bool_text, decimal, push_bool, push_decimal};

verus! {

/// What is asked of the caller before login: the login link and the number
/// of attempts that each later request may take.
#[derive(Debug, Clone, Default)]
pub struct ClientBuilder {
    pub autologin: String,
    pub retry_count: u32,
}

/// A session on the intranet: the link it was opened with, the retry budget
/// of its requests, the session cookie that every request carries, and the
/// login of the user it belongs to.
#[derive(Debug)]
pub struct Client {
    pub autologin: String,
    pub retry_count: u32,
    pub cookie: String,
    pub login: String,
}

/// A client as contracts see it.
pub struct ClientView {
    pub autologin: Seq<char>,
    pub retry_count: u32,
    pub cookie: Seq<char>,
    pub login: Seq<char>,
}

impl View for Client {
    type V = ClientView;

    open spec fn view(&self) -> ClientView {
        ClientView {
            autologin: self.autologin@,
            retry_count: self.retry_count,
            cookie: self.cookie@,
            login: self.login@,
        }
    }
}

/// The path of a user's connection-time statistics.
pub open spec fn netsoul_path(login: Seq<char>) -> Seq<char> {
    "/user/"@ + login + "/netsoul"@
}

/// The path of a user's grades.
pub open spec fn notes_path(login: Seq<char>) -> Seq<char> {
    "/user/"@ + login + "/notes"@
}

/// The path of a user's pairings.
pub open spec fn binome_path(login: Seq<char>) -> Seq<char> {
    "/user/"@ + login + "/binome"@
}

/// The path of a search for the users whose login holds `login`.
pub open spec fn search_path(login: Seq<char>) -> Seq<char> {
    "/complete/user?format=json&contains&search="@ + login
}

/// The path of the catalog of courses of a campus in a year.
pub open spec fn courses_path(location: Location, year: u32, active: bool) -> Seq<char> {
    "/user/filter/course?format=json&location="@ + location.spec_code() + "&year="@ + decimal(
        year as nat,
    ) + "&active="@ + bool_text(active)
}

/// The path of the catalog of cohorts of a course of a campus in a year.
pub open spec fn promos_path(
    location: Location,
    year: u32,
    course: Seq<char>,
    active: bool,
) -> Seq<char> {
    "/user/filter/promo?format=json&location="@ + location.spec_code() + "&year="@ + decimal(
        year as nat,
    ) + "&course="@ + course + "&active="@ + bool_text(active)
}

impl ClientBuilder {
    /// No login link yet, and five attempts for each request.
    pub fn new() -> (builder: ClientBuilder)
        ensures
            builder.autologin@ == Seq::<char>::empty(),
            builder.retry_count == 5,
    {
        ClientBuilder { autologin: String::new(), retry_count: 5 }
    }

    /// Sets the login link.
    pub fn autologin(self, autologin: &str) -> (builder: ClientBuilder)
        ensures
            builder.autologin@ == autologin@,
            builder.retry_count == self.retry_count,
    {
        ClientBuilder { autologin: String::from_str(autologin), retry_count: self.retry_count }
    }

    /// Sets the number of attempts that each request may take.
    pub fn retry_count(self, retry_count: u32) -> (builder: ClientBuilder)
        ensures
            builder.autologin == self.autologin,
            builder.retry_count == retry_count,
    {
        ClientBuilder { autologin: self.autologin, retry_count }
    }

    /// Starts the login: the caller sends one GET to the login link, without
    /// following redirects, and reports the reply to the handshake.
    pub fn authenticate(self) -> (handshake: Handshake)
        ensures
            handshake.autologin == self.autologin,
            handshake.retry_count == self.retry_count,
    {
        Handshake { autologin: self.autologin, retry_count: self.retry_count }
    }
}

impl Clone for Client {
    fn clone(&self) -> (copy: Client)
        ensures
            copy == *self,
    {
        Client {
            autologin: self.autologin.clone(),
            retry_count: self.retry_count,
            cookie: self.cookie.clone(),
            login: self.login.clone(),
        }
    }
}

impl Default for Client {
    fn default() -> (client: Client)
        ensures
            client@ == Client::default_view(),
    {
        Client {
            autologin: String::new(),
            retry_count: 5,
            cookie: String::new(),
            login: String::new(),
        }
    }
}

impl Client {
    /// A client without session: no link, no cookie, no login, five attempts.
    pub open spec fn default_view() -> ClientView {
        ClientView {
            autologin: Seq::empty(),
            retry_count: 5,
            cookie: Seq::empty(),
            login: Seq::empty(),
        }
    }

    /// Where every client starts.
    pub fn builder() -> (builder: ClientBuilder)
        ensures
            builder.autologin@ == Seq::<char>::empty(),
            builder.retry_count == 5,
    {
        ClientBuilder::new()
    }

    /// The request for `url`, a path or a full URL, with this client's retry
    /// budget.
    pub fn make_request(&self, url: &str) -> (request: Request)
        ensures
            request.url@ == resolved(url@),
            request.remaining == self.retry_count,
    {
        Request::new(url, self.retry_count)
    }

    /// A listing of students, to be narrowed before it is sent. Its year is
    /// the current one.
    pub fn fetch_student_list(&self) -> (builder: StudentListFetchBuilder)
        ensures
            builder.client == *self,
            builder.location is None,
            builder.promo is None,
            builder.course is None,
            builder.active,
            builder.offset == 0,
    {
        StudentListFetchBuilder::new().client(self.clone())
    }

    /// A fetch of one user's profile: the client's own, unless a login is set.
    pub fn fetch_student_data(&self) -> (builder: StudentDataFetchBuilder)
        ensures
            builder.client == *self,
            builder.login is None,
    {
        StudentDataFetchBuilder::new().client(self.clone())
    }

    /// The request for the connection-time statistics of `login`.
    pub fn fetch_student_netsoul(&self, login: &str) -> (request: Request)
        ensures
            request.url@ == resolved(netsoul_path(login@)),
            request.remaining == self.retry_count,
    {
        let mut path = String::from_str("/user/");
        path.append(login);
        path.append("/netsoul");
        self.make_request(path.as_str())
    }

    /// The request for the client's own connection-time statistics.
    pub fn fetch_own_student_netsoul(&self) -> (request: Request)
        ensures
            request.url@ == resolved(netsoul_path(self.login@)),
            request.remaining == self.retry_count,
    {
        self.fetch_student_netsoul(self.login.as_str())
    }

    /// The request for the grades of `login`.
    pub fn fetch_student_notes(&self, login: &str) -> (request: Request)
        ensures
            request.url@ == resolved(notes_path(login@)),
            request.remaining == self.retry_count,
    {
        let mut path = String::from_str("/user/");
        path.append(login);
        path.append("/notes");
        self.make_request(path.as_str())
    }

    /// The request for the client's own grades.
    pub fn fetch_own_student_notes(&self) -> (request: Request)
        ensures
            request.url@ == resolved(notes_path(self.login@)),
            request.remaining == self.retry_count,
    {
        self.fetch_student_notes(self.login.as_str())
    }

    /// The request for the pairings of `login`.
    pub fn fetch_student_binomes(&self, login: &str) -> (request: Request)
        ensures
            request.url@ == resolved(binome_path(login@)),
            request.remaining == self.retry_count,
    {
        let mut path = String::from_str("/user/");
        path.append(login);
        path.append("/binome");
        self.make_request(path.as_str())
    }

    /// The request for the client's own pairings.
    pub fn fetch_own_student_binomes(&self) -> (request: Request)
        ensures
            request.url@ == resolved(binome_path(self.login@)),
            request.remaining == self.retry_count,
    {
        self.fetch_student_binomes(self.login.as_str())
    }

    /// The request for the users whose login holds `login`.
    pub fn search_student(&self, login: &str) -> (request: Request)
        ensures
            request.url@ == resolved(search_path(login@)),
            request.remaining == self.retry_count,
    {
        let mut path = String::from_str("/complete/user?format=json&contains&search=");
        path.append(login);
        self.make_request(path.as_str())
    }

    /// The request for the courses that a campus offers in a year.
    pub fn fetch_available_courses(
        &self,
        location: Location,
        year: u32,
        active: bool,
    ) -> (request: Request)
        ensures
            request.url@ == resolved(courses_path(location, year, active)),
            request.remaining == self.retry_count,
    {
        let mut path = String::from_str("/user/filter/course?format=json&location=");
        path.append(location.code());
        path.append("&year=");
        push_decimal(&mut path, year as u64);
        path.append("&active=");
        push_bool(&mut path, active);
        self.make_request(path.as_str())
    }

    /// The request for the cohorts of a course that a campus offers in a year.
    pub fn fetch_available_promos(
        &self,
        location: Location,
        year: u32,
        course: &str,
        active: bool,
    ) -> (request: Request)
        ensures
            request.url@ == resolved(promos_path(location, year, course@, active)),
            request.remaining == self.retry_count,
    {
        let mut path = String::from_str("/user/filter/promo?format=json&location=");
        path.append(location.code());
        path.append("&year=");
        push_decimal(&mut path, year as u64);
        path.append("&course=");
        path.append(course);
        path.append("&active=");
        push_bool(&mut path, active);
        self.make_request(path.as_str())
    }
}

} // verus!
