//! What ends a run other than success.

use crate::arguments::ConfigError;
use vstd::prelude::*;
use vstd::string::StringExecFns;

verus! {

/// Why a run did not end well.
#[derive(Debug, Clone, PartialEq, Eq)]
pub enum Error {
    /// Writing to one of the two streams failed; holds the cause as shown
    /// for debugging.
    Write(String),
    /// The repository could not be worked with; holds what the failure
    /// says of itself.
    Git { message: String, code: String, class: String },
    /// The configuration cannot be run.
    Config(ConfigError),
    /// Every check ran, and at least one file failed.
    ChecksFailed(),
}

/// An error as plain values.
pub enum ErrorView {
    Write(Seq<char>),
    Git { message: Seq<char>, code: Seq<char>, class: Seq<char> },
    Config(ConfigError),
    ChecksFailed,
}

impl View for Error {
    type V = ErrorView;

    open spec fn view(&self) -> ErrorView {
        match self {
            Error::Write(cause) => ErrorView::Write(cause@),
            Error::Git { message, code, class } => ErrorView::Git {
                message: message@,
                code: code@,
                class: class@,
            },
            Error::Config(fault) => ErrorView::Config(*fault),
            Error::ChecksFailed() => ErrorView::ChecksFailed,
        }
    }
}

impl ErrorView {
    /// The error of a repository that has no working directory.
    pub open spec fn bare_repository() -> ErrorView {
        ErrorView::Git {
            message: "cannot get working directory of repository"@,
            code: "BareRepo"@,
            class: "None"@,
        }
    }

    /// The error of an object that the repository does not hold.
    pub open spec fn missing_object() -> ErrorView {
        ErrorView::Git { message: "object not found"@, code: "NotFound"@, class: "Odb"@ }
    }

    /// The line that tells the user what ended the run.
    pub open spec fn message(self) -> Seq<char> {
        match self {
            ErrorView::Write(cause) => "Unable to perform IO: "@ + cause,
            ErrorView::Git { message, code, class } =>
                "A git operation failed unexpectedly (class "@ + class + ", code "@ + code
                + "): "@ + message,
            ErrorView::Config(fault) => fault.message(),
            ErrorView::ChecksFailed => "One or more checks failed"@,
        }
    }

    /// The exit status that stands for the error: 1 for failed checks, 2
    /// for a configuration that cannot be run, 50 for the repository, 51
    /// for the streams.
    pub open spec fn code(self) -> i32 {
        match self {
            ErrorView::Write(_) => 51,
            ErrorView::Git { .. } => 50,
            ErrorView::Config(_) => 2,
            ErrorView::ChecksFailed => 1,
        }
    }
}

impl Error {
    /// Whether the error says that the repository has no working
    /// directory.
    pub open spec fn is_bare_repository(&self) -> bool {
        self@ == ErrorView::bare_repository()
    }

    /// The line that tells the user what ended the run.
    pub open spec fn message(&self) -> Seq<char> {
        self@.message()
    }

    /// The exit status that stands for the error.
    pub open spec fn code(&self) -> i32 {
        self@.code()
    }

    /// The error of a repository that has no working directory.
    pub fn bare_repository() -> (error: Error)
        ensures
            error@ == ErrorView::bare_repository(),
    {
        Error::Git {
            message: String::from_str("cannot get working directory of repository"),
            code: String::from_str("BareRepo"),
            class: String::from_str("None"),
        }
    }

    /// The error of an object that the repository does not hold.
    pub fn missing_object() -> (error: Error)
        ensures
            error@ == ErrorView::missing_object(),
    {
        Error::Git {
            message: String::from_str("object not found"),
            code: String::from_str("NotFound"),
            class: String::from_str("Odb"),
        }
    }

    /// A copy of the error.
    pub fn duplicate(&self) -> (copy: Error)
        ensures
            copy == *self,
    {
        match self {
            Error::Write(cause) => Error::Write(cause.clone()),
            Error::Git { message, code, class } => Error::Git {
                message: message.clone(),
                code: code.clone(),
                class: class.clone(),
            },
            Error::Config(fault) => Error::Config(*fault),
            Error::ChecksFailed() => Error::ChecksFailed(),
        }
    }

    /// Says what ended the run.
    pub fn describe(&self) -> (text: String)
        ensures
            text@ == self.message(),
    {
        match self {
            Error::Write(cause) => {
                let mut text = String::from_str("Unable to perform IO: ");
                text.append(cause.as_str());
                text
            },
            Error::Git { message, code, class } => {
                let mut text = String::from_str("A git operation failed unexpectedly (class ");
                text.append(class.as_str());
                text.append(", code ");
                text.append(code.as_str());
                text.append("): ");
                text.append(message.as_str());
                text
            },
            Error::Config(fault) => fault.describe(),
            Error::ChecksFailed() => String::from_str("One or more checks failed"),
        }
    }

    /// The exit status that stands for the error.
    pub fn exit_code(&self) -> (code: i32)
        ensures
            code == self.code(),
    {
        match self {
            Error::Write(_) => 51,
            Error::Git { .. } => 50,
            Error::Config(_) => 2,
            Error::ChecksFailed() => 1,
        }
    }
}

} // verus!
