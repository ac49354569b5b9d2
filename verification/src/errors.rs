//! The errors that end a pipeline run.

use vstd::prelude::*;

verus! {

/// Result of an operation of this crate.
pub type OfflineTransactionResult<T> = Result<T, OfflineTransactionError>;

/// Why a pipeline run ended early. Every error is final for the run: nothing retries.
#[derive(Debug, PartialEq, Eq)]
pub enum OfflineTransactionError {
    /// No file at the given path.
    FileNotFound { path: String },
    /// The file exists but is not of the expected kind.
    InvalidFile { path: String, expected_type: String },
    /// Reading or writing a file failed.
    FileOperationError { operation: String, reason: String },
    /// A value could not be decoded from one form into another.
    ParseError { from: String, to: String, reason: String },
    /// The input names something this crate does not handle.
    UnsupportedError { component: String, input: String, expected: String },
    /// A signature digest could not be computed.
    HasherError(String),
    /// The inputs do not cover the outputs and the fee.
    InsufficientFunds,
}

/// Mathematical value of an [`OfflineTransactionError`]: the same variants over character
/// sequences.
pub ghost enum ErrorView {
    FileNotFound { path: Seq<char> },
    InvalidFile { path: Seq<char>, expected_type: Seq<char> },
    FileOperationError { operation: Seq<char>, reason: Seq<char> },
    ParseError { from: Seq<char>, to: Seq<char>, reason: Seq<char> },
    UnsupportedError { component: Seq<char>, input: Seq<char>, expected: Seq<char> },
    HasherError(Seq<char>),
    InsufficientFunds,
}

impl View for OfflineTransactionError {
    type V = ErrorView;

    open spec fn view(&self) -> ErrorView {
        match self {
            OfflineTransactionError::FileNotFound { path } => ErrorView::FileNotFound {
                path: path@,
            },
            OfflineTransactionError::InvalidFile { path, expected_type } => ErrorView::InvalidFile {
                path: path@,
                expected_type: expected_type@,
            },
            OfflineTransactionError::FileOperationError {
                operation,
                reason,
            } => ErrorView::FileOperationError { operation: operation@, reason: reason@ },
            OfflineTransactionError::ParseError { from, to, reason } => ErrorView::ParseError {
                from: from@,
                to: to@,
                reason: reason@,
            },
            OfflineTransactionError::UnsupportedError {
                component,
                input,
                expected,
            } => ErrorView::UnsupportedError {
                component: component@,
                input: input@,
                expected: expected@,
            },
            OfflineTransactionError::HasherError(reason) => ErrorView::HasherError(reason@),
            OfflineTransactionError::InsufficientFunds => ErrorView::InsufficientFunds,
        }
    }
}

/// The error of a value that cannot be decoded: `from` and `to` name the two forms.
pub open spec fn parse_error(from: Seq<char>, to: Seq<char>, reason: Seq<char>) -> ErrorView {
    ErrorView::ParseError { from, to, reason }
}

/// Builds the error of a value that cannot be decoded.
pub fn new_parse_error(from: &str, to: &str, reason: String) -> (e: OfflineTransactionError)
    ensures
        e@ == parse_error(from@, to@, reason@),
{
    OfflineTransactionError::ParseError { from: from.to_owned(), to: to.to_owned(), reason }
}

} // verus!
