//! The error taxonomy of the program: local I/O failures and failures
//! surfaced by the remote API, each carrying a human-readable message.

use vstd::prelude::*;
use vstd::string::StringExecFns;

verus! {

/// Mathematical model of an error: its kind and the characters of its
/// message.
#[verifier::ext_equal]
pub enum ErrorModel {
    IoFailure { message: Seq<char> },
    ApiFailure { message: Seq<char> },
}

/// An error of the program: either a local I/O failure (console, flush)
/// or a failure reported by the remote API (auth rejection, rate limit,
/// transport trouble).  Nothing is ever recovered: an error propagates
/// to the top level and ends the run.
#[derive(Debug, PartialEq, Eq)]
pub enum TessError {
    IoFailure { message: String },
    ApiFailure { message: String },
}

impl View for TessError {
    type V = ErrorModel;

    open spec fn view(&self) -> ErrorModel {
        match self {
            TessError::IoFailure { message } => (ErrorModel::IoFailure { message: message@ }),
            TessError::ApiFailure { message } => (ErrorModel::ApiFailure { message: message@ }),
        }
    }
}

/// The one-line rendering of an error, as the program prints it on exit.
pub open spec fn described(e: ErrorModel) -> Seq<char> {
    match e {
        ErrorModel::IoFailure { message } => "IoError: "@ + message,
        ErrorModel::ApiFailure { message } => "TwitterAPIError: "@ + message,
    }
}

impl TessError {
    /// Wraps the message of a local I/O failure.
    pub fn from_io(message: String) -> (r: TessError)
        ensures
            r@ == (ErrorModel::IoFailure { message: message@ }),
    {
        TessError::IoFailure { message }
    }

    /// Wraps the message of a failure reported by the remote API.
    pub fn from_api(message: String) -> (r: TessError)
        ensures
            r@ == (ErrorModel::ApiFailure { message: message@ }),
    {
        TessError::ApiFailure { message }
    }

    /// A second copy, for when the error goes both into a final state
    /// and into the action that reports it.
    pub fn duplicate(&self) -> (r: TessError)
        ensures
            r@ == self@,
    {
        match self {
            TessError::IoFailure { message } => (TessError::IoFailure { message: message.clone() }),
            TessError::ApiFailure { message } => (TessError::ApiFailure {
                message: message.clone(),
            }),
        }
    }

    /// Renders the error as the single line that the program prints
    /// before exiting non-zero.
    pub fn describe(&self) -> (r: String)
        ensures
            r@ == described(self@),
    {
        match self {
            TessError::IoFailure { message } => {
                String::from_str("IoError: ").concat(message.as_str())
            },
            TessError::ApiFailure { message } => {
                String::from_str("TwitterAPIError: ").concat(message.as_str())
            },
        }
    }
}

} // verus!
