//! The error of the JSON endpoints, with the answers they give.

use crate::error::{prefixed, HttpReply, IoFailure};
use crate::sql::{sql_error_message, sql_error_text, SqlError};
use vstd::prelude::*;

verus! {

/// What went wrong while answering a JSON request.
pub enum ApiErrorKind {
    JsonError(String),
    SqlError(SqlError),
    TemplatingError(String),
    DateFormattingError(String),
    MultipartError(String),
    FileSystemError(IoFailure),
}

/// A failure while answering a JSON request.
pub struct ApiError(pub ApiErrorKind);

/// The text of the failure that an error carries.
pub open spec fn cause_message(k: ApiErrorKind) -> Seq<char> {
    match k {
        ApiErrorKind::JsonError(m) => m@,
        ApiErrorKind::SqlError(s) => sql_error_message(s@),
        ApiErrorKind::TemplatingError(m) => m@,
        ApiErrorKind::DateFormattingError(m) => m@,
        ApiErrorKind::MultipartError(m) => m@,
        ApiErrorKind::FileSystemError(f) => f.message@,
    }
}

/// The text of an error, as its `Display` writes it.
pub open spec fn api_error_message(e: ApiError) -> Seq<char> {
    match e.0 {
        ApiErrorKind::JsonError(_) => "Json serialization error: "@ + cause_message(e.0),
        ApiErrorKind::SqlError(_) => "Database problem: "@ + cause_message(e.0),
        ApiErrorKind::DateFormattingError(_) => "Date formatting problem: "@ + cause_message(e.0),
        ApiErrorKind::TemplatingError(_) => "Template rendering problem: "@ + cause_message(e.0),
        ApiErrorKind::MultipartError(_) => "Multipart form processing problem: "@ + cause_message(
            e.0,
        ),
        ApiErrorKind::FileSystemError(_) => "Error while writing file: "@ + cause_message(e.0),
    }
}

/// The body of the answer to an error.
pub open spec fn api_error_body(e: ApiError) -> Seq<char> {
    match e.0 {
        ApiErrorKind::JsonError(_) => "Error serializing json! "@ + cause_message(e.0),
        ApiErrorKind::SqlError(_) => "Database Error! "@ + cause_message(e.0),
        ApiErrorKind::DateFormattingError(_) => "Date formatting Error! "@ + cause_message(e.0),
        ApiErrorKind::TemplatingError(_) => "Error rendering template! "@ + cause_message(e.0),
        ApiErrorKind::MultipartError(_) => "Error uploading files! "@ + cause_message(e.0),
        ApiErrorKind::FileSystemError(_) => "Error writing files! "@ + cause_message(e.0),
    }
}

fn cause_text(k: &ApiErrorKind) -> (m: String)
    ensures
        m@ == cause_message(*k),
{
    match k {
        ApiErrorKind::JsonError(m) => m.clone(),
        ApiErrorKind::SqlError(s) => sql_error_text(s),
        ApiErrorKind::TemplatingError(m) => m.clone(),
        ApiErrorKind::DateFormattingError(m) => m.clone(),
        ApiErrorKind::MultipartError(m) => m.clone(),
        ApiErrorKind::FileSystemError(f) => f.message.clone(),
    }
}

impl ApiError {
    /// The text of the error.
    pub fn message(&self) -> (m: String)
        ensures
            m@ == api_error_message(*self),
    {
        let cause = cause_text(&self.0);
        let prefix = match &self.0 {
            ApiErrorKind::JsonError(_) => "Json serialization error: ",
            ApiErrorKind::SqlError(_) => "Database problem: ",
            ApiErrorKind::DateFormattingError(_) => "Date formatting problem: ",
            ApiErrorKind::TemplatingError(_) => "Template rendering problem: ",
            ApiErrorKind::MultipartError(_) => "Multipart form processing problem: ",
            ApiErrorKind::FileSystemError(_) => "Error while writing file: ",
        };
        prefixed(prefix, cause.as_str())
    }

    /// The answer: always a server error (500), whose body names the kind of
    /// failure and shows its text.
    pub fn error_response(&self) -> (r: HttpReply)
        ensures
            r.status == 500,
            r.body@ == api_error_body(*self),
    {
        let cause = cause_text(&self.0);
        let prefix = match &self.0 {
            ApiErrorKind::JsonError(_) => "Error serializing json! ",
            ApiErrorKind::SqlError(_) => "Database Error! ",
            ApiErrorKind::DateFormattingError(_) => "Date formatting Error! ",
            ApiErrorKind::TemplatingError(_) => "Error rendering template! ",
            ApiErrorKind::MultipartError(_) => "Error uploading files! ",
            ApiErrorKind::FileSystemError(_) => "Error writing files! ",
        };
        HttpReply { status: 500, body: prefixed(prefix, cause.as_str()) }
    }
}

} // verus!
