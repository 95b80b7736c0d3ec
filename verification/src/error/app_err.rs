//! The error of the request handlers, with the answers they give.

use crate::error::{not_found_body, owned_text, prefixed, HttpReply};
use crate::sql::{sql_error_message, sql_error_text, SqlError};
use vstd::prelude::*;

verus! {

/// What went wrong while handling a request.
pub enum AppErrorKind {
    SqlError(SqlError),
    JsonError(String),
    TeraError(String),
}

/// A failure while handling a request.
pub struct AppError(pub AppErrorKind);

/// The text of an error, as its `Display` writes it.
pub open spec fn handler_error_message(e: AppError) -> Seq<char> {
    match e.0 {
        AppErrorKind::SqlError(s) => "Database problem: "@ + sql_error_message(s@),
        AppErrorKind::JsonError(m) => "Serialization problem: "@ + m@,
        AppErrorKind::TeraError(m) => "Template rendering problem: "@ + m@,
    }
}

impl AppError {
    /// The text of the error.
    pub fn message(&self) -> (m: String)
        ensures
            m@ == handler_error_message(*self),
    {
        match &self.0 {
            AppErrorKind::SqlError(s) => {
                let t = sql_error_text(s);
                prefixed("Database problem: ", t.as_str())
            },
            AppErrorKind::JsonError(m) => prefixed("Serialization problem: ", m.as_str()),
            AppErrorKind::TeraError(m) => prefixed("Template rendering problem: ", m.as_str()),
        }
    }

    /// The answer: a query that found no row is "not found" (404); another
    /// database failure is a server error that shows it; JSON and template
    /// failures are server errors with a fixed text.
    pub fn error_response(&self) -> (r: HttpReply)
        ensures
            match self.0 {
                AppErrorKind::SqlError(SqlError::QueryReturnedNoRows) => r.status == 404 && r.body@
                    == not_found_body(),
                AppErrorKind::SqlError(s) => r.status == 500 && r.body@ == "Oops! Database trouble \n"@
                    + sql_error_message(s@),
                AppErrorKind::JsonError(_) => r.status == 500 && r.body@ == "Internal Server Error"@,
                AppErrorKind::TeraError(_) => r.status == 500 && r.body@ == "Template rendering error"@,
            },
    {
        match &self.0 {
            AppErrorKind::SqlError(SqlError::QueryReturnedNoRows) => HttpReply {
                status: 404,
                body: owned_text("Couldn't find that project!"),
            },
            AppErrorKind::SqlError(s) => {
                let t = sql_error_text(s);
                HttpReply { status: 500, body: prefixed("Oops! Database trouble \n", t.as_str()) }
            },
            AppErrorKind::JsonError(_) => HttpReply {
                status: 500,
                body: owned_text("Internal Server Error"),
            },
            AppErrorKind::TeraError(_) => HttpReply {
                status: 500,
                body: owned_text("Template rendering error"),
            },
        }
    }
}

} // verus!
