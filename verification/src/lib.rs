//! Typed client logic for the EPITECH intranet's student-records API.
//!
//! The crate holds every decision the client takes: how a resource path
//! becomes a URL, when a request is retried or given up, how the session
//! cookie is picked out of the login reply, and how the pages of a listing
//! are joined. The network exchange itself is left to the caller, who
//! performs the action each step names and reports what came back.

pub mod text;
pub mod error;
pub mod campus;
pub mod endpoint;
pub mod request;
pub mod response;
pub mod client;
pub mod handshake;
pub mod student_data;
pub mod student_list;

pub use crate::campus::{Location, Promo};
pub use crate::client::{Client, ClientBuilder};
pub use crate::endpoint::ENDPOINT;
pub use crate::error::Error;
pub use crate::student_data::StudentDataFetchBuilder;
pub use crate::student_list::StudentListFetchBuilder;
