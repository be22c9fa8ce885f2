//! Errors of the panel's handlers.

use vstd::prelude::*;
use crate::common::error::Error;
use crate::text;

verus! {

/// Handler error type. Anything that ends up here is logged and rendered as a small,
/// styled error page (or JSON for API routes).
#[derive(Debug)]
pub enum AppError {
    NotFound,
    BadRequest(String),
    Forbidden(String),
    Agent(Error),
    /// The database has no such row.
    NoRow(String),
    Database(String),
    Template(String),
    Other(String),
}

impl AppError {
    /// The HTTP status of the answer.
    pub open spec fn spec_status(self) -> u16 {
        match self {
            AppError::NotFound => 404,
            AppError::BadRequest(_) => 422,
            AppError::Forbidden(_) => 403,
            AppError::Agent(e) => e@.status(),
            AppError::NoRow(_) => 404,
            _ => 500,
        }
    }

    /// The HTTP status of the answer.
    pub fn status(&self) -> (code: u16)
        ensures
            code == self.spec_status(),
    {
        match self {
            AppError::NotFound => 404,
            AppError::BadRequest(_) => 422,
            AppError::Forbidden(_) => 403,
            AppError::Agent(e) => e.status_code(),
            AppError::NoRow(_) => 404,
            _ => 500,
        }
    }

    /// The error as it is shown.
    pub open spec fn spec_message(self) -> Seq<char> {
        match self {
            AppError::NotFound => "not found"@,
            AppError::BadRequest(s) => s@,
            AppError::Forbidden(s) => s@,
            AppError::Agent(e) => "agent error: "@ + e@.message(),
            AppError::NoRow(s) => "database error: "@ + s@,
            AppError::Database(s) => "database error: "@ + s@,
            AppError::Template(s) => "template error: "@ + s@,
            AppError::Other(s) => s@,
        }
    }

    /// The error as it is shown.
    pub fn message(&self) -> (s: String)
        ensures
            s@ == self.spec_message(),
    {
        match self {
            AppError::NotFound => "not found".to_owned(),
            AppError::BadRequest(s) => s.clone(),
            AppError::Forbidden(s) => s.clone(),
            AppError::Agent(e) => {
                let m = e.message();
                text::cat2("agent error: ", m.as_str())
            },
            AppError::NoRow(s) => text::cat2("database error: ", s.as_str()),
            AppError::Database(s) => text::cat2("database error: ", s.as_str()),
            AppError::Template(s) => text::cat2("template error: ", s.as_str()),
            AppError::Other(s) => s.clone(),
        }
    }

    /// Whether the panel is to blame, so that the error is logged as one.
    pub fn is_server_error(&self) -> (r: bool)
        ensures
            r == (500 <= self.spec_status() < 600),
    {
        let code = self.status();
        500 <= code && code < 600
    }
}

} // verus!
