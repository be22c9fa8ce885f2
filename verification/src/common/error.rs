//! Errors that can cross the boundary between panel and agent.

use vstd::prelude::*;
use crate::digits;
use crate::text;

verus! {

/// What went wrong, as panel and agent tell each other.
#[derive(Debug)]
pub enum Error {
    NotFound(String),
    Conflict(String),
    Invalid(String),
    Unauthorized,
    Unsupported(String),
    /// A privileged command failed on the node.
    Command { command: String, status: i32, stderr: String },
    Unreachable(String),
    Internal(String),
}

/// [`Error`] with its texts as sequences of characters.
pub enum ErrorView {
    NotFound(Seq<char>),
    Conflict(Seq<char>),
    Invalid(Seq<char>),
    Unauthorized,
    Unsupported(Seq<char>),
    Command { command: Seq<char>, status: i32, stderr: Seq<char> },
    Unreachable(Seq<char>),
    Internal(Seq<char>),
}

impl View for Error {
    type V = ErrorView;

    open spec fn view(&self) -> ErrorView {
        match self {
            Error::NotFound(s) => ErrorView::NotFound(s@),
            Error::Conflict(s) => ErrorView::Conflict(s@),
            Error::Invalid(s) => ErrorView::Invalid(s@),
            Error::Unauthorized => ErrorView::Unauthorized,
            Error::Unsupported(s) => ErrorView::Unsupported(s@),
            Error::Command { command, status, stderr } => ErrorView::Command {
                command: command@,
                status: *status,
                stderr: stderr@,
            },
            Error::Unreachable(s) => ErrorView::Unreachable(s@),
            Error::Internal(s) => ErrorView::Internal(s@),
        }
    }
}

impl ErrorView {
    /// The sentence shown for the error.
    pub open spec fn message(self) -> Seq<char> {
        match self {
            ErrorView::NotFound(s) => "not found: "@ + s,
            ErrorView::Conflict(s) => "already exists: "@ + s,
            ErrorView::Invalid(s) => "invalid request: "@ + s,
            ErrorView::Unauthorized => "unauthorized"@,
            ErrorView::Unsupported(s) => "operation is not supported by this agent: "@ + s,
            ErrorView::Command { command, status, stderr } => "command `"@ + command
                + "` failed with status "@ + digits::dec_int(status as int) + ": "@ + stderr,
            ErrorView::Unreachable(s) => "agent unreachable: "@ + s,
            ErrorView::Internal(s) => "internal error: "@ + s,
        }
    }

    /// The HTTP status that goes with the error.
    pub open spec fn status(self) -> u16 {
        match self {
            ErrorView::NotFound(_) => 404,
            ErrorView::Conflict(_) => 409,
            ErrorView::Invalid(_) => 422,
            ErrorView::Unauthorized => 401,
            ErrorView::Unsupported(_) => 501,
            ErrorView::Unreachable(_) => 502,
            ErrorView::Command { .. } => 500,
            ErrorView::Internal(_) => 500,
        }
    }
}

/// What a client did wrong is answered with a status from 400 on, what the agent could not
/// do with one from 500 on; each kind of mistake of a client has a status of its own.
pub proof fn law_statuses_tell_whose_fault_it_is(e: ErrorView, other: ErrorView)
    ensures
        400 <= e.status() < 600,
        e.status() < 500 <==> e is NotFound || e is Conflict || e is Invalid || e is Unauthorized,
        e.status() == 401 <==> e is Unauthorized,
        e.status() == 404 <==> e is NotFound,
        e.status() == 409 <==> e is Conflict,
        e.status() == 422 <==> e is Invalid,
        e.status() == 502 <==> e is Unreachable,
{
}

impl Error {
    pub fn internal(msg: &str) -> (e: Self)
        ensures
            e@ == ErrorView::Internal(msg@),
    {
        Error::Internal(msg.to_owned())
    }

    pub fn invalid(msg: &str) -> (e: Self)
        ensures
            e@ == ErrorView::Invalid(msg@),
    {
        Error::Invalid(msg.to_owned())
    }

    /// The sentence shown for the error.
    pub fn message(&self) -> (s: String)
        ensures
            s@ == self@.message(),
    {
        match self {
            Error::NotFound(s) => text::cat2("not found: ", s.as_str()),
            Error::Conflict(s) => text::cat2("already exists: ", s.as_str()),
            Error::Invalid(s) => text::cat2("invalid request: ", s.as_str()),
            Error::Unauthorized => "unauthorized".to_owned(),
            Error::Unsupported(s) => text::cat2(
                "operation is not supported by this agent: ",
                s.as_str(),
            ),
            Error::Command { command, status, stderr } => {
                let code = digits::dec_i64(*status as i64);
                let mut s = text::cat4(
                    "command `",
                    command.as_str(),
                    "` failed with status ",
                    code.as_str(),
                );
                s.append(": ");
                s.append(stderr.as_str());
                s
            },
            Error::Unreachable(s) => text::cat2("agent unreachable: ", s.as_str()),
            Error::Internal(s) => text::cat2("internal error: ", s.as_str()),
        }
    }

    /// HTTP status the panel/agent should answer with.
    pub fn status_code(&self) -> (code: u16)
        ensures
            code == self@.status(),
    {
        match self {
            Error::NotFound(_) => 404,
            Error::Conflict(_) => 409,
            Error::Invalid(_) => 422,
            Error::Unauthorized => 401,
            Error::Unsupported(_) => 501,
            Error::Unreachable(_) => 502,
            Error::Command { .. } => 500,
            Error::Internal(_) => 500,
        }
    }
}

impl Clone for Error {
    fn clone(&self) -> (e: Self)
        ensures
            e == *self,
    {
        match self {
            Error::NotFound(s) => Error::NotFound(s.clone()),
            Error::Conflict(s) => Error::Conflict(s.clone()),
            Error::Invalid(s) => Error::Invalid(s.clone()),
            Error::Unauthorized => Error::Unauthorized,
            Error::Unsupported(s) => Error::Unsupported(s.clone()),
            Error::Command { command, status, stderr } => Error::Command {
                command: command.clone(),
                status: *status,
                stderr: stderr.clone(),
            },
            Error::Unreachable(s) => Error::Unreachable(s.clone()),
            Error::Internal(s) => Error::Internal(s.clone()),
        }
    }
}

} // verus!
