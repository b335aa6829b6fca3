//! Errors of the dispatcher and the exit status they lead to.

use vstd::prelude::*;
use vstd::string::*;

verus! {

/// Why a candidate directory is not a flake root.
#[derive(Debug, Copy, Clone, PartialEq, Eq, Structural)]
pub enum FlakeRootError {
    PathDoesNotExist,
    MissingFlakeDotNix,
}

impl FlakeRootError {
    /// The text of the diagnostic for this error.
    pub open spec fn message_text(self) -> Seq<char> {
        match self {
            FlakeRootError::PathDoesNotExist => "path does not exist"@,
            FlakeRootError::MissingFlakeDotNix => "flake.nix not found"@,
        }
    }

    /// The diagnostic for this error.
    pub fn message(&self) -> (s: String)
        ensures
            s@ == self.message_text(),
    {
        match self {
            FlakeRootError::PathDoesNotExist => "path does not exist".to_owned(),
            FlakeRootError::MissingFlakeDotNix => "flake.nix not found".to_owned(),
        }
    }
}

/// Every way in which an invocation can fail.
#[derive(Debug, Clone, PartialEq, Eq)]
pub enum UniverseCliError {
    /// A required external tool is not on the executable search path.
    CommandNotFound,
    /// A candidate that had to be a flake root is none.
    InvalidFlakeRoot(FlakeRootError),
    /// The operation needs a flake root and none was found.
    FlakeRootMissing,
    /// The system failed to read the filesystem or to start a process; the
    /// field holds the reason.
    IoError(String),
    /// The external command ran and did not exit successfully.
    FailedToExecuteNix,
    /// A path that had to name a directory does not.
    InvalidDirectory,
}

/// The mathematical form of a [`UniverseCliError`].
pub enum UniverseCliErrorView {
    CommandNotFound,
    InvalidFlakeRoot(FlakeRootError),
    FlakeRootMissing,
    IoError(Seq<char>),
    FailedToExecuteNix,
    InvalidDirectory,
}

impl View for UniverseCliError {
    type V = UniverseCliErrorView;

    open spec fn view(&self) -> UniverseCliErrorView {
        match *self {
            UniverseCliError::CommandNotFound => UniverseCliErrorView::CommandNotFound,
            UniverseCliError::InvalidFlakeRoot(e) => UniverseCliErrorView::InvalidFlakeRoot(e),
            UniverseCliError::FlakeRootMissing => UniverseCliErrorView::FlakeRootMissing,
            UniverseCliError::IoError(reason) => UniverseCliErrorView::IoError(reason@),
            UniverseCliError::FailedToExecuteNix => UniverseCliErrorView::FailedToExecuteNix,
            UniverseCliError::InvalidDirectory => UniverseCliErrorView::InvalidDirectory,
        }
    }
}

impl UniverseCliErrorView {
    /// The text of the diagnostic for this error.
    pub open spec fn message_text(self) -> Seq<char> {
        match self {
            UniverseCliErrorView::CommandNotFound => "failed to execute nix: command not found"@,
            UniverseCliErrorView::InvalidFlakeRoot(e) => "invalid flake root: "@
                + e.message_text(),
            UniverseCliErrorView::FlakeRootMissing => "no flake root specified or detected"@,
            UniverseCliErrorView::IoError(reason) => "io error: "@ + reason,
            UniverseCliErrorView::FailedToExecuteNix => "failed to execute nix"@,
            UniverseCliErrorView::InvalidDirectory => "invalid directory"@,
        }
    }
}

impl UniverseCliError {
    /// The diagnostic for this error.
    pub fn message(&self) -> (s: String)
        ensures
            s@ == self@.message_text(),
    {
        match self {
            UniverseCliError::CommandNotFound => {
                "failed to execute nix: command not found".to_owned()
            },
            UniverseCliError::InvalidFlakeRoot(e) => {
                let inner = e.message();
                "invalid flake root: ".to_owned().concat(inner.as_str())
            },
            UniverseCliError::FlakeRootMissing => "no flake root specified or detected".to_owned(),
            UniverseCliError::IoError(reason) => "io error: ".to_owned().concat(reason.as_str()),
            UniverseCliError::FailedToExecuteNix => "failed to execute nix".to_owned(),
            UniverseCliError::InvalidDirectory => "invalid directory".to_owned(),
        }
    }
}

impl From<FlakeRootError> for UniverseCliError {
    fn from(value: FlakeRootError) -> (e: UniverseCliError) {
        UniverseCliError::InvalidFlakeRoot(value)
    }
}

impl vstd::std_specs::convert::FromSpecImpl<FlakeRootError> for UniverseCliError {
    open spec fn obeys_from_spec() -> bool {
        true
    }

    open spec fn from_spec(value: FlakeRootError) -> UniverseCliError {
        UniverseCliError::InvalidFlakeRoot(value)
    }
}

/// How an invocation ends.
#[derive(Debug, Clone, PartialEq, Eq)]
pub enum CliExit {
    Success,
    Failure(UniverseCliError),
}

/// The mathematical form of a [`CliExit`].
pub enum CliExitView {
    Success,
    Failure(UniverseCliErrorView),
}

impl View for CliExit {
    type V = CliExitView;

    open spec fn view(&self) -> CliExitView {
        match *self {
            CliExit::Success => CliExitView::Success,
            CliExit::Failure(e) => CliExitView::Failure(e@),
        }
    }
}

impl CliExitView {
    /// The line written to the error stream, if any.
    pub open spec fn diagnostic_text(self) -> Option<Seq<char>> {
        match self {
            CliExitView::Success => None,
            CliExitView::Failure(e) => Some("error: "@ + e.message_text()),
        }
    }
}

impl From<Result<(), UniverseCliError>> for CliExit {
    fn from(value: Result<(), UniverseCliError>) -> (exit: CliExit) {
        match value {
            Ok(_) => CliExit::Success,
            Err(e) => CliExit::Failure(e),
        }
    }
}

impl vstd::std_specs::convert::FromSpecImpl<Result<(), UniverseCliError>> for CliExit {
    open spec fn obeys_from_spec() -> bool {
        true
    }

    open spec fn from_spec(value: Result<(), UniverseCliError>) -> CliExit {
        match value {
            Ok(_) => CliExit::Success,
            Err(e) => CliExit::Failure(e),
        }
    }
}

impl CliExit {
    /// The exit code of the process: zero exactly on success.
    pub fn exit_code(&self) -> (code: u8)
        ensures
            code == (if *self == CliExit::Success { 0u8 } else { 1u8 }),
    {
        match self {
            CliExit::Success => 0,
            CliExit::Failure(_) => 1,
        }
    }

    /// The single line to write to the error stream: none on success, the
    /// error's diagnostic behind `error: ` otherwise.
    pub fn diagnostic(&self) -> (line: Option<String>)
        ensures
            crate::text::opt_text(line) == self@.diagnostic_text(),
    {
        match self {
            CliExit::Success => None,
            CliExit::Failure(e) => {
                let inner = e.message();
                Some("error: ".to_owned().concat(inner.as_str()))
            },
        }
    }
}

} // verus!
