//! The failure modes of the arithmetic endpoints, and their fixed mapping
//! to an HTTP status and message.
use vstd::prelude::*;

verus! {

/// Why an arithmetic request was rejected.
#[derive(Clone, Copy, Debug, PartialEq, Eq, Structural)]
pub enum AppError {
    /// `a` or `b` (or both) was absent from the query string.
    MissingParameters,
    /// Both were present, but at least one is not decimal-number text.
    InvalidNumber,
}

/// The fixed message sent with each error.
pub open spec fn error_message(e: AppError) -> Seq<char> {
    match e {
        AppError::MissingParameters => "Parameters 'a' and 'b' are required"@,
        AppError::InvalidNumber => "Parameters must be valid numbers"@,
    }
}

impl AppError {
    /// Both variants are client errors: HTTP status 400.
    pub fn status(&self) -> (s: u16)
        ensures
            s == 400,
    {
        400
    }

    /// The human-readable message for this error.
    pub fn message(&self) -> (m: &'static str)
        ensures
            m@ == error_message(*self),
    {
        match self {
            AppError::MissingParameters => "Parameters 'a' and 'b' are required",
            AppError::InvalidNumber => "Parameters must be valid numbers",
        }
    }
}

} // verus!
