//! The errors of value conversion.

use vstd::prelude::*;
use vstd::string::StringExecFns;
use crate::value::{TursoValue, kind_name};

verus! {

/// What can go wrong when a stored value is read back as a Rust value.
#[derive(Debug, PartialEq, Eq)]
pub enum Error {
    /// The row has no column at the given index (the index, in decimal).
    ColumnNotFound(String),
    /// The column holds NULL but the requested type has no NULL (the type's name).
    UnexpectedNoneInColumn(String),
    /// The stored value cannot be converted (turso's `ConversionFailure`).
    ConversionFailure(String),
}

/// The model of an [`Error`].
pub enum ErrorView {
    ColumnNotFound(Seq<char>),
    UnexpectedNoneInColumn(Seq<char>),
    ConversionFailure(Seq<char>),
}

impl View for Error {
    type V = ErrorView;

    open spec fn view(&self) -> ErrorView {
        match self {
            Error::ColumnNotFound(s) => ErrorView::ColumnNotFound(s@),
            Error::UnexpectedNoneInColumn(s) => ErrorView::UnexpectedNoneInColumn(s@),
            Error::ConversionFailure(s) => ErrorView::ConversionFailure(s@),
        }
    }
}

impl Error {
    /// The text carried by the error.
    pub fn message(&self) -> (r: &String)
        ensures
            r@ == match self@ {
                ErrorView::ColumnNotFound(s) => s,
                ErrorView::UnexpectedNoneInColumn(s) => s,
                ErrorView::ConversionFailure(s) => s,
            },
    {
        match self {
            Error::ColumnNotFound(s) => s,
            Error::UnexpectedNoneInColumn(s) => s,
            Error::ConversionFailure(s) => s,
        }
    }
}

/// A result taken by the deep view of its value and the view of its error.
pub open spec fn result_deep_view<T: DeepView>(r: Result<T, Error>) -> Result<T::V, ErrorView> {
    match r {
        Ok(t) => Ok(t.deep_view()),
        Err(e) => Err(e@),
    }
}

/// The message for a value of the wrong storage class.
pub open spec fn mismatch_message(got: crate::value::SqlValue, expected: Seq<char>) -> Seq<char> {
    "cannot convert "@ + kind_name(got) + " to "@ + expected
}

/// The message for a worker runtime that could not be started.
pub open spec fn runtime_failure_message(reason: Seq<char>) -> Seq<char> {
    "could not start tokio runtime for turso-sync: "@ + reason
}

/// The error for a worker runtime that could not be started, with the reason given.
pub fn runtime_start_failure(reason: &str) -> (e: Error)
    ensures
        e@ == ErrorView::ConversionFailure(runtime_failure_message(reason@)),
{
    let mut msg = String::new();
    msg.append("could not start tokio runtime for turso-sync: ");
    msg.append(reason);
    Error::ConversionFailure(msg)
}

/// The error for a value whose storage class cannot become `expected`.
pub fn type_mismatch<T>(expected: &str, got: &TursoValue) -> (r: Result<T, Error>)
    ensures
        r matches Err(e) && e@ == ErrorView::ConversionFailure(mismatch_message(got@, expected@)),
{
    let mut msg = String::new();
    msg.append("cannot convert ");
    msg.append(got.kind());
    msg.append(" to ");
    msg.append(expected);
    Err(Error::ConversionFailure(msg))
}

} // verus!
