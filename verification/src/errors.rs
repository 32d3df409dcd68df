//! The classified failures that every component reports.

use vstd::prelude::*;
use vstd::string::*;

verus! {

/// Why an operation failed. Variants that stem from a remote party carry the
/// stage that failed followed by the remote party's own text; the text shown
/// to a user names the class of the failure before that.
#[derive(Debug)]
pub enum Error {
    /// The public key is not a valid compressed point encoding.
    InvalidKeyFormat,
    /// An address text could not be parsed.
    InvalidAddress,
    /// The interface description has no method of the requested name.
    UnknownMethod,
    /// The arguments do not match the method's declared parameters.
    ArgumentTypeMismatch,
    /// The arguments match, but their encoding would be longer than the
    /// encoder can produce.
    CallDataTooLong,
    /// Returned data does not decode to the expected typed value.
    MalformedReturnData,
    /// A chain request failed.
    TransportError(String),
    /// The signing oracle could not be reached for a public key.
    OracleUnavailable(String),
    /// The signing oracle did not produce a signature.
    SigningRejected(String),
    /// An event arrived that the session was not waiting for.
    OutOfSequence,
}

/// The mathematical form of an [`Error`].
pub enum ErrorView {
    InvalidKeyFormat,
    InvalidAddress,
    UnknownMethod,
    ArgumentTypeMismatch,
    CallDataTooLong,
    MalformedReturnData,
    TransportError(Seq<char>),
    OracleUnavailable(Seq<char>),
    SigningRejected(Seq<char>),
    OutOfSequence,
}

impl View for Error {
    type V = ErrorView;

    open spec fn view(&self) -> ErrorView {
        match self {
            Error::InvalidKeyFormat => ErrorView::InvalidKeyFormat,
            Error::InvalidAddress => ErrorView::InvalidAddress,
            Error::UnknownMethod => ErrorView::UnknownMethod,
            Error::ArgumentTypeMismatch => ErrorView::ArgumentTypeMismatch,
            Error::CallDataTooLong => ErrorView::CallDataTooLong,
            Error::MalformedReturnData => ErrorView::MalformedReturnData,
            Error::TransportError(text) => ErrorView::TransportError(text@),
            Error::OracleUnavailable(text) => ErrorView::OracleUnavailable(text@),
            Error::SigningRejected(text) => ErrorView::SigningRejected(text@),
            Error::OutOfSequence => ErrorView::OutOfSequence,
        }
    }
}

/// Class label of a failed chain request.
pub const TRANSPORT_ERROR: &'static str = "transport error: ";

/// Class label of a failed public key request.
pub const ORACLE_UNAVAILABLE: &'static str = "oracle unavailable: ";

/// Class label of a failed signing.
pub const SIGNING_REJECTED: &'static str = "signing rejected: ";

/// The text shown to a user for each failure: the class of the failure and,
/// where a remote party failed, the stage and the remote party's text.
pub open spec fn error_text(e: ErrorView) -> Seq<char> {
    match e {
        ErrorView::InvalidKeyFormat => "invalid public key format"@,
        ErrorView::InvalidAddress => "invalid address"@,
        ErrorView::UnknownMethod => "unknown contract method"@,
        ErrorView::ArgumentTypeMismatch => "argument type mismatch"@,
        ErrorView::CallDataTooLong => "call data too long"@,
        ErrorView::MalformedReturnData => "malformed return data"@,
        ErrorView::TransportError(text) => TRANSPORT_ERROR@ + text,
        ErrorView::OracleUnavailable(text) => ORACLE_UNAVAILABLE@ + text,
        ErrorView::SigningRejected(text) => SIGNING_REJECTED@ + text,
        ErrorView::OutOfSequence => "event out of sequence"@,
    }
}

impl Error {
    /// The human-readable text of the failure.
    pub fn message(&self) -> (r: String)
        ensures
            r@ == error_text(self@),
    {
        match self {
            Error::InvalidKeyFormat => String::from_str("invalid public key format"),
            Error::InvalidAddress => String::from_str("invalid address"),
            Error::UnknownMethod => String::from_str("unknown contract method"),
            Error::ArgumentTypeMismatch => String::from_str("argument type mismatch"),
            Error::CallDataTooLong => String::from_str("call data too long"),
            Error::MalformedReturnData => String::from_str("malformed return data"),
            Error::TransportError(text) => String::from_str(TRANSPORT_ERROR).concat(text.as_str()),
            Error::OracleUnavailable(text) => String::from_str(ORACLE_UNAVAILABLE).concat(text.as_str()),
            Error::SigningRejected(text) => String::from_str(SIGNING_REJECTED).concat(text.as_str()),
            Error::OutOfSequence => String::from_str("event out of sequence"),
        }
    }
}

/// The text of a failure at `stage` whose remote party said `upstream`.
pub open spec fn staged_text(stage: Seq<char>, upstream: Seq<char>) -> Seq<char> {
    stage + upstream
}

/// Joins a stage label and the remote party's text.
pub fn staged(stage: &str, upstream: &str) -> (r: String)
    ensures
        r@ == staged_text(stage@, upstream@),
{
    String::from_str(stage).concat(upstream)
}

} // verus!
