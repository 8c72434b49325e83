//! The failures of the bridge. Each surfaces to the caller as a single
//! descriptive message.

use crate::text::join_text;
use vstd::prelude::*;

verus! {

/// Why a call through the bridge failed.
#[derive(Debug, Clone, PartialEq, Eq)]
pub enum BridgeError {
    /// No interpreter candidate verified.
    InterpreterNotFound,
    /// An interpreter verified, but the backend module or import check
    /// failed.
    BackendUnavailable,
    /// The operating system failed to spawn the process.
    ProcessLaunchFailure { reason: String },
    /// The process ended with a status other than success.
    ProcessExecutionFailure { exit_code: Option<i32>, stderr: String },
    /// No line of the output decoded to a structured value.
    OutputParseFailure { raw: String },
    /// An export was asked for in a format other than CSV.
    UnsupportedExportFormat,
    /// The user's data directory could not be determined.
    DataDirectoryUnavailable,
}

/// Mathematical content of a [`BridgeError`].
pub enum ErrorView {
    InterpreterNotFound,
    BackendUnavailable,
    ProcessLaunchFailure { reason: Seq<char> },
    ProcessExecutionFailure { exit_code: Option<i32>, stderr: Seq<char> },
    OutputParseFailure { raw: Seq<char> },
    UnsupportedExportFormat,
    DataDirectoryUnavailable,
}

impl View for BridgeError {
    type V = ErrorView;

    open spec fn view(&self) -> ErrorView {
        match self {
            BridgeError::InterpreterNotFound => ErrorView::InterpreterNotFound,
            BridgeError::BackendUnavailable => ErrorView::BackendUnavailable,
            BridgeError::ProcessLaunchFailure { reason } => ErrorView::ProcessLaunchFailure {
                reason: reason@,
            },
            BridgeError::ProcessExecutionFailure {
                exit_code,
                stderr,
            } => ErrorView::ProcessExecutionFailure { exit_code: *exit_code, stderr: stderr@ },
            BridgeError::OutputParseFailure { raw } => ErrorView::OutputParseFailure { raw: raw@ },
            BridgeError::UnsupportedExportFormat => ErrorView::UnsupportedExportFormat,
            BridgeError::DataDirectoryUnavailable => ErrorView::DataDirectoryUnavailable,
        }
    }
}

/// The message of a failure. Text that the failure carries is quoted
/// whole and unchanged.
pub open spec fn error_message(error: ErrorView) -> Seq<char> {
    match error {
        ErrorView::InterpreterNotFound => "Python not found: Python not found in PATH or virtual environment"@,
        ErrorView::BackendUnavailable => "Backend is not available to the Python interpreter"@,
        ErrorView::ProcessLaunchFailure { reason } => reason,
        ErrorView::ProcessExecutionFailure { exit_code, stderr } => "Python command failed: "@
            + stderr,
        ErrorView::OutputParseFailure { raw } => "No valid JSON found in Python output: "@ + raw,
        ErrorView::UnsupportedExportFormat => "Only CSV export is currently supported"@,
        ErrorView::DataDirectoryUnavailable => "Could not determine data directory"@,
    }
}

impl BridgeError {
    /// The message of the failure.
    pub fn message(&self) -> (text: String)
        ensures
            text@ == error_message(self@),
    {
        match self {
            BridgeError::InterpreterNotFound => {
                "Python not found: Python not found in PATH or virtual environment".to_owned()
            },
            BridgeError::BackendUnavailable => {
                "Backend is not available to the Python interpreter".to_owned()
            },
            BridgeError::ProcessLaunchFailure { reason } => reason.clone(),
            BridgeError::ProcessExecutionFailure { exit_code, stderr } => join_text(
                "Python command failed: ",
                stderr.as_str(),
            ),
            BridgeError::OutputParseFailure { raw } => join_text(
                "No valid JSON found in Python output: ",
                raw.as_str(),
            ),
            BridgeError::UnsupportedExportFormat => {
                "Only CSV export is currently supported".to_owned()
            },
            BridgeError::DataDirectoryUnavailable => {
                "Could not determine data directory".to_owned()
            },
        }
    }
}

} // verus!
