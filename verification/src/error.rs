//! The ways in which resolving a variant can fail.

use vstd::prelude::*;

verus! {

/// Why a decode stopped.
#[derive(Debug, PartialEq, Eq)]
pub enum Error {
    /// Entering one more enum would pass the decoder's nesting limit.
    DepthExceeded,
    /// The wire value does not have the shape that the target asks for.
    InvalidWireShape,
    /// A payload was asked of a variant that was written as a bare scalar.
    /// `expected` is the kind of payload asked for, `message` the sentence
    /// that reports it.
    InvalidType { expected: String, message: String },
}

/// What an [`Error`] says, with its strings as sequences of characters.
pub enum Failure {
    DepthExceeded,
    InvalidWireShape,
    InvalidType { expected: Seq<char>, message: Seq<char> },
}

impl View for Error {
    type V = Failure;

    open spec fn view(&self) -> Failure {
        match self {
            Error::DepthExceeded => Failure::DepthExceeded,
            Error::InvalidWireShape => Failure::InvalidWireShape,
            Error::InvalidType { expected, message } => Failure::InvalidType {
                expected: expected@,
                message: message@,
            },
        }
    }
}

/// The sentence that reports a unit variant where `expected` was asked for.
pub open spec fn invalid_type_text(expected: Seq<char>) -> Seq<char> {
    "invalid type: unit variant, expected "@ + expected
}

/// The failure of asking a bare unit variant for an `expected` payload.
pub open spec fn unit_variant_mismatch(expected: Seq<char>) -> Failure {
    Failure::InvalidType { expected, message: invalid_type_text(expected) }
}

/// Calls `serde::de::Error::invalid_type` with `Unexpected::UnitVariant` and
/// `expected`, on serde's own `de::value::Error`, and returns that error's
/// text. serde builds it as "invalid type: ", what was found ("unit
/// variant"), ", expected " and `expected` as it stands.
#[verifier::external_body]
fn invalid_type_message(expected: &str) -> (message: String)
    ensures
        message@ == invalid_type_text(expected@),
{
    let unexpected = serde::de::Unexpected::UnitVariant;
    let error: serde::de::value::Error = serde::de::Error::invalid_type(unexpected, &expected);
    error.to_string()
}

impl Error {
    /// The error for a bare unit variant that was asked for an `expected`
    /// payload.
    pub fn invalid_type(expected: &str) -> (error: Error)
        ensures
            error@ == unit_variant_mismatch(expected@),
    {
        let message = invalid_type_message(expected);
        Error::InvalidType { expected: expected.to_owned(), message }
    }

    /// A sentence for the reader of a log.
    pub fn message(&self) -> (text: String)
        ensures
            text@ == self@.text(),
    {
        match self {
            Error::DepthExceeded => "recursion limit exceeded".to_owned(),
            Error::InvalidWireShape => "invalid wire shape".to_owned(),
            Error::InvalidType { message, .. } => message.clone(),
        }
    }
}

impl Failure {
    /// The sentence of [`Error::message`].
    pub open spec fn text(self) -> Seq<char> {
        match self {
            Failure::DepthExceeded => "recursion limit exceeded"@,
            Failure::InvalidWireShape => "invalid wire shape"@,
            Failure::InvalidType { message, .. } => message,
        }
    }
}

} // verus!
