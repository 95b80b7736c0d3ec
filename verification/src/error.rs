//! Failures of the site and the HTTP answer each one gets.

pub mod api_err;
pub mod app_err;

use crate::sql::{sql_error_message, sql_error_text, SqlError, SqlFault};
use vstd::prelude::*;

verus! {

/// The kind of a file-system failure, named as `std::io::ErrorKind` names
/// it. The kinds that Rust has named since its first stable releases are told
/// apart; any later one is `Other`.
#[derive(PartialEq, Eq, Structural, Clone, Copy, Debug)]
pub enum IoErrorKind {
    NotFound,
    PermissionDenied,
    ConnectionRefused,
    ConnectionReset,
    ConnectionAborted,
    NotConnected,
    AddrInUse,
    AddrNotAvailable,
    BrokenPipe,
    AlreadyExists,
    WouldBlock,
    InvalidInput,
    InvalidData,
    TimedOut,
    WriteZero,
    Interrupted,
    Unsupported,
    UnexpectedEof,
    OutOfMemory,
    Other,
}

/// A file-system failure: its kind and its text.
pub struct IoFailure {
    pub kind: IoErrorKind,
    pub message: String,
}

/// A failure while serving a request. Failures that come from outside
/// libraries carry the message those libraries give.
pub enum AppError {
    Database(SqlError),
    Json(String),
    Tera(String),
    DateFormat(String),
    Multipart(String),
    FileSystem(IoFailure),
}

/// The database failure an error holds, if it is one.
pub open spec fn database_fault(e: AppError) -> Option<SqlFault> {
    match e {
        AppError::Database(s) => Some(s@),
        _ => None,
    }
}

/// An HTTP answer: its status code and body.
pub struct HttpReply {
    pub status: u16,
    pub body: String,
}

/// The text of an error, as its `Display` writes it.
pub open spec fn app_error_message(e: AppError) -> Seq<char> {
    match e {
        AppError::Database(s) => "Database problem: "@ + sql_error_message(s@),
        AppError::Json(m) => "Serialization problem: "@ + m@,
        AppError::Tera(m) => "Template rendering problem: "@ + m@,
        AppError::DateFormat(m) => "Date formatting problem: "@ + m@,
        AppError::Multipart(m) => "Multipart form processing problem: "@ + m@,
        AppError::FileSystem(f) => "FileSystem error: "@ + f.message@,
    }
}

/// The body of the answer when a project is not found.
pub open spec fn not_found_body() -> Seq<char> {
    "Couldn't find that project!"@
}

/// An owned copy of a text.
pub(crate) fn owned_text(t: &str) -> (s: String)
    ensures
        s@ == t@,
{
    let mut s = String::new();
    s.append(t);
    assert(s@ =~= t@);
    s
}

/// A text made of a prefix and a message.
pub(crate) fn prefixed(prefix: &str, message: &str) -> (s: String)
    ensures
        s@ == prefix@ + message@,
{
    let mut s = String::new();
    s.append(prefix);
    s.append(message);
    s
}

impl AppError {
    /// The text of the error.
    pub fn message(&self) -> (m: String)
        ensures
            m@ == app_error_message(*self),
    {
        match self {
            AppError::Database(s) => {
                let t = sql_error_text(s);
                prefixed("Database problem: ", t.as_str())
            },
            AppError::Json(m) => prefixed("Serialization problem: ", m.as_str()),
            AppError::Tera(m) => prefixed("Template rendering problem: ", m.as_str()),
            AppError::DateFormat(m) => prefixed("Date formatting problem: ", m.as_str()),
            AppError::Multipart(m) => prefixed("Multipart form processing problem: ", m.as_str()),
            AppError::FileSystem(f) => prefixed("FileSystem error: ", f.message.as_str()),
        }
    }

    /// The answer to a failed request: a query that found no row is "not
    /// found" (404); anything else is a server error (500) that shows the
    /// error's text.
    pub fn error_response(&self) -> (r: HttpReply)
        ensures
            self matches AppError::Database(SqlError::QueryReturnedNoRows) ==> r.status == 404
                && r.body@ == not_found_body(),
            !(self matches AppError::Database(SqlError::QueryReturnedNoRows)) ==> r.status == 500
                && r.body@ == app_error_message(*self),
    {
        match self {
            AppError::Database(SqlError::QueryReturnedNoRows) => {
                HttpReply { status: 404, body: owned_text("Couldn't find that project!") }
            },
            _ => HttpReply { status: 500, body: self.message() },
        }
    }
}

} // verus!
