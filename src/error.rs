//! Connection failures: a short summary for the user beside the full
//! technical detail, and the rules that pick the summary.

use vstd::prelude::*;
use crate::text::{contains_text, occurs_in};

verus! {

/// A failure to connect: a short summary for the user and the full
/// technical text, kept apart.
#[derive(Clone, Debug)]
pub struct ConnectionError {
    pub user_message: String,
    pub detail: String,
}

impl ConnectionError {
    pub fn new(user_message: String, detail: String) -> (r: ConnectionError)
        ensures
            r.user_message == user_message,
            r.detail == detail,
    {
        ConnectionError { user_message, detail }
    }
}

/// An error that the database server reported while connecting.
pub struct ServerError {
    /// The five-character SQLSTATE code.
    pub code: String,
    /// The server's primary message.
    pub message: String,
}

/// What the driver reported when a connection attempt failed.
pub struct ConnectFailure {
    /// Present where the server itself answered with an error.
    pub server: Option<ServerError>,
    /// The driver's full description of the failure.
    pub detail: String,
}

/// SQLSTATE of a rejected password.
pub const INVALID_PASSWORD: &'static str = "28P01";

/// SQLSTATE of an unknown role or one not allowed to log in.
pub const INVALID_AUTHORIZATION_SPECIFICATION: &'static str = "28000";

/// SQLSTATE of an unknown database.
pub const INVALID_CATALOG_NAME: &'static str = "3D000";

/// Summary of a failure that the server reported, by its SQLSTATE code;
/// otherwise the server's own message.
pub open spec fn server_summary(code: Seq<char>, message: Seq<char>) -> Seq<char> {
    if code == INVALID_PASSWORD@ {
        "Password authentication failed"@
    } else if code == INVALID_AUTHORIZATION_SPECIFICATION@ {
        "User does not exist or lacks permission"@
    } else if code == INVALID_CATALOG_NAME@ {
        "Database does not exist"@
    } else {
        message
    }
}

/// Summary of a failure that happened before the server answered, from the
/// lowercased technical text.
pub open spec fn transport_summary(lowered: Seq<char>) -> Seq<char> {
    if occurs_in(lowered, "connection refused"@) {
        "Unable to reach the database host (connection refused)."@
    } else if occurs_in(lowered, "timeout"@) {
        "Connection timed out."@
    } else {
        "Failed to connect to the database."@
    }
}

/// The summary of a connection failure, where `lowered` is its technical text
/// in lowercase.
pub open spec fn failure_summary(f: ConnectFailure, lowered: Seq<char>) -> Seq<char> {
    match f.server {
        Some(e) => server_summary(e.code@, e.message@),
        None => transport_summary(lowered),
    }
}

/// The lowercase form of a text, as `str::to_lowercase` computes it.
pub uninterp spec fn lower_of(s: Seq<char>) -> Seq<char>;

/// Relies on `str::to_lowercase`: the lowercase form depends on the
/// characters alone.
#[verifier::external_body]
fn lowercase(s: &str) -> (r: String)
    ensures
        r@ == lower_of(s@),
{
    s.to_lowercase()
}

/// Classifies a failed connection attempt, given its technical text in
/// lowercase: the server's rejections of the password, of the user and of the
/// database name each get a fixed summary, any other server error shows the
/// server's message; otherwise the text is searched for a refused connection,
/// then a timeout, before a generic summary. The technical text stays
/// whole as the detail.
pub fn summarize_failure(failure: ConnectFailure, lowered: &str) -> (r: ConnectionError)
    ensures
        r.user_message@ == failure_summary(failure, lowered@),
        r.detail@ == failure.detail@,
{
    let ConnectFailure { server, detail } = failure;
    let summary = match server {
        Some(e) => {
            if e.code == String::from_str(INVALID_PASSWORD) {
                String::from_str("Password authentication failed")
            } else if e.code == String::from_str(INVALID_AUTHORIZATION_SPECIFICATION) {
                String::from_str("User does not exist or lacks permission")
            } else if e.code == String::from_str(INVALID_CATALOG_NAME) {
                String::from_str("Database does not exist")
            } else {
                e.message
            }
        },
        None => {
            if contains_text(lowered, "connection refused") {
                String::from_str("Unable to reach the database host (connection refused).")
            } else if contains_text(lowered, "timeout") {
                String::from_str("Connection timed out.")
            } else {
                String::from_str("Failed to connect to the database.")
            }
        },
    };
    ConnectionError::new(summary, detail)
}

/// Classifies a failed connection attempt (see `summarize_failure`), matching
/// the technical text without regard to case.
pub fn classify_connection_error(failure: ConnectFailure) -> (r: ConnectionError)
    ensures
        r.user_message@ == failure_summary(failure, lower_of(failure.detail@)),
        r.detail@ == failure.detail@,
{
    let lowered = lowercase(failure.detail.as_str());
    summarize_failure(failure, lowered.as_str())
}

/// The failure reported when the worker could not start its scheduler.
pub fn worker_start_failure(detail: String) -> (r: ConnectionError)
    ensures
        r.user_message@ == "Failed to connect to database worker."@,
        r.detail == detail,
{
    ConnectionError::new(String::from_str("Failed to connect to database worker."), detail)
}

} // verus!
