//! The error surface: failures as the attribute store reports them, and the
//! errors that callers see.

use vstd::prelude::*;
use vstd::string::StringExecFns;

verus! {

/// A failure of the attribute store: the code of the operating system, where it
/// gave one, its message, and whether the store said that what was asked for
/// is not there.
#[derive(Debug, PartialEq, Eq)]
pub struct OsError {
    pub code: Option<i32>,
    pub message: String,
    /// The store found nothing at the path. To `get` this is a miss like any
    /// other; to the other operations it is a failure.
    pub not_found: bool,
}

/// The kind of an error.
#[derive(Debug, Clone, Copy, PartialEq, Eq)]
pub enum ErrorKind {
    /// A listed name is not valid text.
    InvalidArgument,
    /// A call of the attribute store failed, with the code it gave.
    OsFailure(Option<i32>),
}

/// An error as a caller sees it.
#[derive(Debug, PartialEq, Eq)]
pub struct Error {
    pub kind: ErrorKind,
    pub message: String,
}

/// The mathematical content of an [`Error`].
pub struct ErrorModel {
    pub kind: ErrorKind,
    pub message: Seq<char>,
}

impl View for Error {
    type V = ErrorModel;

    open spec fn view(&self) -> ErrorModel {
        ErrorModel { kind: self.kind, message: self.message@ }
    }
}

/// The mathematical content of a result: the deep view of a value, the view of
/// an error.
pub open spec fn model<T: DeepView>(result: Result<T, Error>) -> Result<T::V, ErrorModel> {
    match result {
        Ok(value) => Ok(value.deep_view()),
        Err(error) => Err(error@),
    }
}

/// The error that stands for a failure of the store: its code and its message,
/// both unchanged.
pub open spec fn os_failure(native: OsError) -> ErrorModel {
    ErrorModel { kind: ErrorKind::OsFailure(native.code), message: native.message@ }
}

/// The error for a listed name that is not valid text. `description` is how the
/// name prints.
pub open spec fn invalid_attribute(description: Seq<char>) -> ErrorModel {
    ErrorModel { kind: ErrorKind::InvalidArgument, message: "Invalid attribute: "@ + description }
}

/// Turns a failure of the store into the error that callers see. Nothing is
/// reinterpreted: the code and the message are carried over.
pub fn marshal_error(native: OsError) -> (error: Error)
    ensures
        error@ == os_failure(native),
{
    Error { kind: ErrorKind::OsFailure(native.code), message: native.message }
}

/// Builds the error for a listed name that is not valid text.
pub fn invalid_attribute_error(description: &str) -> (error: Error)
    ensures
        error@ == invalid_attribute(description@),
{
    let message = String::from_str("Invalid attribute: ").concat(description);
    Error { kind: ErrorKind::InvalidArgument, message }
}

} // verus!
