//! The ways in which a conversion fails.

use crate::instant::{Instant, Moment};
use vstd::prelude::*;
use vstd::string::*;

verus! {

/// Why a time value could not be read.
#[derive(Debug, PartialEq, Eq)]
pub enum ConvertError {
    /// The text does not have the shape that the form asks for, or names a
    /// date or time that the calendar does not have.
    MalformedInput,
    /// The number is a count of milliseconds, but of more than an instant
    /// can hold.
    OutOfRange,
    /// The text is of none of the three forms; it is carried along.
    UnrecognizedFormat(String),
}

/// The mathematical value of a [`ConvertError`].
pub ghost enum Failure {
    MalformedInput,
    OutOfRange,
    UnrecognizedFormat(Seq<char>),
}

impl View for ConvertError {
    type V = Failure;

    open spec fn view(&self) -> Failure {
        match self {
            ConvertError::MalformedInput => Failure::MalformedInput,
            ConvertError::OutOfRange => Failure::OutOfRange,
            ConvertError::UnrecognizedFormat(text) => Failure::UnrecognizedFormat(text@),
        }
    }
}

impl Failure {
    /// The sentence that reports the failure. For text of no known form it
    /// ends in that text.
    pub open spec fn message(self) -> Seq<char> {
        match self {
            Failure::MalformedInput => "parse error. malformed input."@,
            Failure::OutOfRange => "parse error. out of range."@,
            Failure::UnrecognizedFormat(text) => "parse error. illegal format. "@ + text,
        }
    }
}

/// Whether `got` is the instant or the failure that `expected` names.
pub open spec fn is_moment(got: Result<Instant, ConvertError>, expected: Result<Moment, Failure>) -> bool {
    match (got, expected) {
        (Ok(time), Ok(moment)) => time@ == moment,
        (Err(e), Err(failure)) => e@ == failure,
        _ => false,
    }
}

/// Whether `got` is the failure that `expected` names, or an instant for the
/// point in time that it names, at whatever offset.
pub open spec fn is_point(got: Result<Instant, ConvertError>, expected: Result<Moment, Failure>) -> bool {
    match (got, expected) {
        (Ok(time), Ok(moment)) => time@.same_point(moment),
        (Err(e), Err(failure)) => e@ == failure,
        _ => false,
    }
}

/// Whether `got` is the text or the failure that `expected` names.
pub open spec fn is_text(got: Result<String, ConvertError>, expected: Result<Seq<char>, Failure>) -> bool {
    match (got, expected) {
        (Ok(line), Ok(text)) => line@ == text,
        (Err(e), Err(failure)) => e@ == failure,
        _ => false,
    }
}

impl ConvertError {
    /// The sentence that reports the error.
    pub fn message(&self) -> (r: String)
        ensures
            r@ == self@.message(),
    {
        match self {
            ConvertError::MalformedInput => String::from_str("parse error. malformed input."),
            ConvertError::OutOfRange => String::from_str("parse error. out of range."),
            ConvertError::UnrecognizedFormat(text) => {
                String::from_str("parse error. illegal format. ").concat(text.as_str())
            },
        }
    }
}

} // verus!
