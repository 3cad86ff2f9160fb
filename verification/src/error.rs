//! The failure taxonomy shared by every operation.

use vstd::prelude::*;
use vstd::string::StringExecFns;

verus! {

/// Why an operation failed.
#[derive(Debug, Clone, Copy, PartialEq, Eq, Structural)]
pub enum ErrorKind {
    /// The credential is missing, malformed, forged or expired.
    Unauthenticated,
    /// The identity is valid but the policy denies the action.
    Unauthorized,
    /// The identifier does not resolve to a resource.
    NotFound,
    /// The input is malformed or not acceptable.
    Validation,
    /// The request breaks a rule that depends on the current state.
    Conflict,
    /// The storage layer failed or holds inconsistent data.
    Internal,
}

/// A failure with its kind and a message for the caller. Where a
/// collaborator failed, what it reported is kept apart from the message: it
/// is for the log, not for the caller.
#[derive(Debug, PartialEq, Eq)]
pub struct AppError {
    pub kind: ErrorKind,
    pub message: String,
    pub cause: Option<String>,
}

/// The mathematical value of an [`AppError`].
pub struct AppErrorView {
    pub kind: ErrorKind,
    pub message: Seq<char>,
    pub cause: Option<Seq<char>>,
}

impl View for AppError {
    type V = AppErrorView;

    open spec fn view(&self) -> AppErrorView {
        AppErrorView {
            kind: self.kind,
            message: self.message@,
            cause: match self.cause {
                Some(c) => Some(c@),
                None => None,
            },
        }
    }
}

/// The failure of the given kind carrying the given message.
pub open spec fn failure(kind: ErrorKind, message: Seq<char>) -> AppErrorView {
    AppErrorView { kind, message, cause: None }
}

/// The failure of the given kind carrying the given message, with what the
/// failing collaborator reported.
pub open spec fn failure_caused_by(kind: ErrorKind, message: Seq<char>, cause: Seq<char>) -> AppErrorView {
    AppErrorView { kind, message, cause: Some(cause) }
}

impl AppError {
    /// Builds a failure of the given kind.
    pub fn new(kind: ErrorKind, message: &str) -> (e: AppError)
        ensures
            e@ == failure(kind, message@),
    {
        AppError { kind, message: String::from_str(message), cause: None }
    }

    /// Builds a failure of the given kind that keeps what the failing
    /// collaborator reported.
    pub fn caused_by(kind: ErrorKind, message: &str, cause: String) -> (e: AppError)
        ensures
            e@ == failure_caused_by(kind, message@, cause@),
    {
        AppError { kind, message: String::from_str(message), cause: Some(cause) }
    }

    /// The status code reported to the caller: every failure is a bad request.
    pub fn status_code(&self) -> (code: u16)
        ensures
            code == 400,
    {
        400
    }

    /// The message as an owned string.
    pub fn text(&self) -> (s: String)
        ensures
            s@ == self.message@,
    {
        self.message.clone()
    }
}

} // verus!
