//! The failures that the client reports.

use vstd::prelude::*;

verus! {

/// What was wrong with the input of a construction.
#[derive(Debug, Clone, Copy, PartialEq, Eq, Structural)]
pub enum ConfigFault {
    /// The name of the executable was empty.
    EmptyExecPath,
    /// A working directory was given, and it was empty.
    EmptyWorkingDir,
}

/// Which required value was missing.
#[derive(Debug, Clone, Copy, PartialEq, Eq, Structural)]
pub enum ValidationFault {
    /// A text that must hold a character held none.
    EmptyText,
    /// The login token was empty.
    EmptyToken,
}

/// One of the two captured streams of a process.
#[derive(Debug, Clone, Copy, PartialEq, Eq, Structural)]
pub enum OutputStream {
    Stdout,
    Stderr,
}

/// Every failure of the client; none is retried or suppressed.
#[derive(Debug)]
pub enum Error {
    /// Bad construction input.
    Config(ConfigFault),
    /// The executable was not found, or its path is no text.
    ExecutableNotFound,
    /// The working directory does not exist.
    InvalidWorkingDir,
    /// A required field was empty.
    Validation(ValidationFault),
    /// The process could not be started.
    ProcessExecution { message: String },
    /// The process ended with a status other than zero.
    CommandFailed { exit_status: Option<i32>, stderr: String },
    /// A captured stream was no UTF-8.
    Encoding(OutputStream),
    /// The output had another shape than the operation's response.
    Deserialization { raw_output: String },
    /// A call for a single result got no entry, or several.
    AmbiguousResult { count: usize },
}

/// An `Error` with its texts as sequences of characters.
pub ghost enum ErrorView {
    Config(ConfigFault),
    ExecutableNotFound,
    InvalidWorkingDir,
    Validation(ValidationFault),
    ProcessExecution { message: Seq<char> },
    CommandFailed { exit_status: Option<i32>, stderr: Seq<char> },
    Encoding(OutputStream),
    Deserialization { raw_output: Seq<char> },
    AmbiguousResult { count: nat },
}

impl View for Error {
    type V = ErrorView;

    open spec fn view(&self) -> ErrorView {
        match self {
            Error::Config(fault) => ErrorView::Config(*fault),
            Error::ExecutableNotFound => ErrorView::ExecutableNotFound,
            Error::InvalidWorkingDir => ErrorView::InvalidWorkingDir,
            Error::Validation(fault) => ErrorView::Validation(*fault),
            Error::ProcessExecution { message } => ErrorView::ProcessExecution { message: message@ },
            Error::CommandFailed { exit_status, stderr } => ErrorView::CommandFailed {
                exit_status: *exit_status,
                stderr: stderr@,
            },
            Error::Encoding(stream) => ErrorView::Encoding(*stream),
            Error::Deserialization { raw_output } => ErrorView::Deserialization {
                raw_output: raw_output@,
            },
            Error::AmbiguousResult { count } => ErrorView::AmbiguousResult { count: *count as nat },
        }
    }
}

impl DeepView for Error {
    type V = ErrorView;

    open spec fn deep_view(&self) -> ErrorView {
        self@
    }
}

/// A result with the deep view of its value and the view of its error.
pub open spec fn outcome<T: DeepView>(r: Result<T, Error>) -> Result<T::V, ErrorView> {
    match r {
        Ok(value) => Ok(value.deep_view()),
        Err(error) => Err(error@),
    }
}

} // verus!
