//! The error taxonomy: every fallible operation of the crate reports one of
//! these errors. Each error renders to a fixed message, and carries a
//! display-only severity that never affects control flow.

use vstd::prelude::*;
use crate::text::dec_rep;

verus! {

/// Result type used by the whole crate.
pub type CliResult<T> = Result<T, CliError>;

/// The failure kinds, each optionally carrying a descriptive payload.
#[derive(Debug)]
pub enum CliError {
    /// Invalid command name provided
    InvalidCommand(String),
    /// Invalid input format or content
    InvalidInput(String),
    /// IO operation failed; carries the reported message
    IoError(String),
    /// Empty input provided when input was required
    EmptyInput,
    /// Too many arguments provided to command
    TooManyArguments { expected: usize, found: usize },
    /// Too few arguments provided to command
    TooFewArguments { expected: usize, found: usize },
    /// Command execution failed
    ExecutionError(String),
    /// Permission denied error
    PermissionDenied(String),
    /// File not found error
    FileNotFound(String),
    /// Invalid file format
    InvalidFileFormat(String),
    /// Operation interrupted by user
    Interrupted,
    /// Terminal operation failed
    TerminalError(String),
    /// Internal error (should not happen in normal operation)
    InternalError(String),
    /// Generic error with context
    Other(String),
}

/// Specification-level model of `CliError`: the same variants over character
/// sequences.
pub enum ErrorModel {
    InvalidCommand(Seq<char>),
    InvalidInput(Seq<char>),
    IoError(Seq<char>),
    EmptyInput,
    TooManyArguments { expected: usize, found: usize },
    TooFewArguments { expected: usize, found: usize },
    ExecutionError(Seq<char>),
    PermissionDenied(Seq<char>),
    FileNotFound(Seq<char>),
    InvalidFileFormat(Seq<char>),
    Interrupted,
    TerminalError(Seq<char>),
    InternalError(Seq<char>),
    Other(Seq<char>),
}

impl View for CliError {
    type V = ErrorModel;

    open spec fn view(&self) -> ErrorModel {
        match self {
            CliError::InvalidCommand(s) => ErrorModel::InvalidCommand(s@),
            CliError::InvalidInput(s) => ErrorModel::InvalidInput(s@),
            CliError::IoError(s) => ErrorModel::IoError(s@),
            CliError::EmptyInput => ErrorModel::EmptyInput,
            CliError::TooManyArguments { expected, found } => ErrorModel::TooManyArguments {
                expected: *expected,
                found: *found,
            },
            CliError::TooFewArguments { expected, found } => ErrorModel::TooFewArguments {
                expected: *expected,
                found: *found,
            },
            CliError::ExecutionError(s) => ErrorModel::ExecutionError(s@),
            CliError::PermissionDenied(s) => ErrorModel::PermissionDenied(s@),
            CliError::FileNotFound(s) => ErrorModel::FileNotFound(s@),
            CliError::InvalidFileFormat(s) => ErrorModel::InvalidFileFormat(s@),
            CliError::Interrupted => ErrorModel::Interrupted,
            CliError::TerminalError(s) => ErrorModel::TerminalError(s@),
            CliError::InternalError(s) => ErrorModel::InternalError(s@),
            CliError::Other(s) => ErrorModel::Other(s@),
        }
    }
}

/// Display-only classification of an error; it never affects control flow.
#[derive(Debug, Clone, Copy, PartialEq, Eq, Structural)]
pub enum ErrorSeverity {
    /// Operation can continue
    Warning,
    /// Operation failed but the application continues
    Error,
    /// Severe failure that should not occur in normal operation
    Critical,
}

/// The severity assigned to each error kind.
pub open spec fn spec_severity(e: ErrorModel) -> ErrorSeverity {
    match e {
        ErrorModel::InvalidCommand(_) => ErrorSeverity::Warning,
        ErrorModel::InvalidInput(_) => ErrorSeverity::Warning,
        ErrorModel::EmptyInput => ErrorSeverity::Warning,
        ErrorModel::TooManyArguments { .. } => ErrorSeverity::Warning,
        ErrorModel::TooFewArguments { .. } => ErrorSeverity::Warning,
        ErrorModel::InternalError(_) => ErrorSeverity::Critical,
        _ => ErrorSeverity::Error,
    }
}

/// The message each error renders to.
pub open spec fn spec_message(e: ErrorModel) -> Seq<char> {
    match e {
        ErrorModel::InvalidCommand(cmd) => "Invalid command: '"@ + cmd + "'"@,
        ErrorModel::InvalidInput(input) => "Invalid input: "@ + input,
        ErrorModel::IoError(err) => "IO error: "@ + err,
        ErrorModel::EmptyInput => "Empty input provided"@,
        ErrorModel::TooManyArguments { expected, found } => "Too many arguments: expected "@
            + dec_rep(expected as nat) + ", found "@ + dec_rep(found as nat),
        ErrorModel::TooFewArguments { expected, found } => "Too few arguments: expected "@
            + dec_rep(expected as nat) + ", found "@ + dec_rep(found as nat),
        ErrorModel::ExecutionError(msg) => "Command execution failed: "@ + msg,
        ErrorModel::PermissionDenied(resource) => "Permission denied: "@ + resource,
        ErrorModel::FileNotFound(path) => "File not found: "@ + path,
        ErrorModel::InvalidFileFormat(details) => "Invalid file format: "@ + details,
        ErrorModel::Interrupted => "Operation interrupted by user"@,
        ErrorModel::TerminalError(msg) => "Terminal error: "@ + msg,
        ErrorModel::InternalError(msg) => "Internal error: "@ + msg
            + " (please report this bug)"@,
        ErrorModel::Other(msg) => "Error: "@ + msg,
    }
}

/// The kinds of lower-level I/O failure that are mapped into the taxonomy.
#[derive(Debug, Clone, Copy, PartialEq, Eq, Structural)]
pub enum IoFailureKind {
    NotFound,
    PermissionDenied,
    Interrupted,
    Other,
}

impl CliError {
    /// Create an invalid command error
    pub fn invalid_command(cmd: &str) -> (r: Self)
        ensures
            r@ == ErrorModel::InvalidCommand(cmd@),
    {
        CliError::InvalidCommand(cmd.to_owned())
    }

    /// Create an invalid input error
    pub fn invalid_input(input: &str) -> (r: Self)
        ensures
            r@ == ErrorModel::InvalidInput(input@),
    {
        CliError::InvalidInput(input.to_owned())
    }

    /// Create an execution error
    pub fn execution_error(msg: &str) -> (r: Self)
        ensures
            r@ == ErrorModel::ExecutionError(msg@),
    {
        CliError::ExecutionError(msg.to_owned())
    }

    /// Create a file not found error
    pub fn file_not_found(path: &str) -> (r: Self)
        ensures
            r@ == ErrorModel::FileNotFound(path@),
    {
        CliError::FileNotFound(path.to_owned())
    }

    /// Create a permission denied error
    pub fn permission_denied(resource: &str) -> (r: Self)
        ensures
            r@ == ErrorModel::PermissionDenied(resource@),
    {
        CliError::PermissionDenied(resource.to_owned())
    }

    /// Create a terminal error
    pub fn terminal_error(msg: &str) -> (r: Self)
        ensures
            r@ == ErrorModel::TerminalError(msg@),
    {
        CliError::TerminalError(msg.to_owned())
    }

    /// Create an internal error
    pub fn internal_error(msg: &str) -> (r: Self)
        ensures
            r@ == ErrorModel::InternalError(msg@),
    {
        CliError::InternalError(msg.to_owned())
    }

    /// Create a generic error
    pub fn other(msg: &str) -> (r: Self)
        ensures
            r@ == ErrorModel::Other(msg@),
    {
        CliError::Other(msg.to_owned())
    }

    /// Map a lower-level I/O failure into the taxonomy: a missing file becomes
    /// `FileNotFound`, a permission failure `PermissionDenied`, an interrupted
    /// read `Interrupted`, and anything else a generic `IoError`.
    pub fn from_io_failure(kind: IoFailureKind, msg: &str) -> (r: Self)
        ensures
            r@ == match kind {
                IoFailureKind::NotFound => ErrorModel::FileNotFound(msg@),
                IoFailureKind::PermissionDenied => ErrorModel::PermissionDenied(msg@),
                IoFailureKind::Interrupted => ErrorModel::Interrupted,
                IoFailureKind::Other => ErrorModel::IoError(msg@),
            },
    {
        match kind {
            IoFailureKind::NotFound => CliError::FileNotFound(msg.to_owned()),
            IoFailureKind::PermissionDenied => CliError::PermissionDenied(msg.to_owned()),
            IoFailureKind::Interrupted => CliError::Interrupted,
            IoFailureKind::Other => CliError::IoError(msg.to_owned()),
        }
    }

    /// Get the severity level of this error
    pub fn severity(&self) -> (r: ErrorSeverity)
        ensures
            r == spec_severity(self@),
    {
        match self {
            CliError::InvalidCommand(_) | CliError::InvalidInput(_) | CliError::EmptyInput => {
                ErrorSeverity::Warning
            },
            CliError::TooManyArguments { .. } | CliError::TooFewArguments { .. } => {
                ErrorSeverity::Warning
            },
            CliError::InternalError(_) => ErrorSeverity::Critical,
            _ => ErrorSeverity::Error,
        }
    }

    /// Get the emoji icon for this error type
    pub fn icon(&self) -> (r: &'static str)
        ensures
            spec_severity(self@) == ErrorSeverity::Warning ==> r@ == "\u{26a0}\u{fe0f}"@,
            spec_severity(self@) == ErrorSeverity::Error ==> r@ == "\u{274c}"@,
            spec_severity(self@) == ErrorSeverity::Critical ==> r@ == "\u{1f4a5}"@,
    {
        match self.severity() {
            ErrorSeverity::Warning => "\u{26a0}\u{fe0f}",
            ErrorSeverity::Error => "\u{274c}",
            ErrorSeverity::Critical => "\u{1f4a5}",
        }
    }

    /// The message this error renders to.
    pub fn message(&self) -> (r: String)
        ensures
            r@ == spec_message(self@),
    {
        match self {
            CliError::InvalidCommand(cmd) => {
                let mut s = tagged("Invalid command: '", cmd.as_str());
                s.append("'");
                proof {
                    assert(s@ =~= spec_message(self@));
                }
                s
            },
            CliError::InvalidInput(input) => {
                let s = tagged("Invalid input: ", input.as_str());
                proof {
                    assert(s@ =~= spec_message(self@));
                }
                s
            },
            CliError::IoError(err) => {
                let s = tagged("IO error: ", err.as_str());
                proof {
                    assert(s@ =~= spec_message(self@));
                }
                s
            },
            CliError::EmptyInput => {
                let s = tagged("Empty input provided", "");
                proof {
                    reveal_strlit("");
                    assert(s@ =~= spec_message(self@));
                }
                s
            },
            CliError::TooManyArguments { expected, found } => {
                let r = counted("Too many arguments: expected ", *expected, *found);
                proof {
                    assert(r@ =~= spec_message(self@));
                }
                r
            },
            CliError::TooFewArguments { expected, found } => {
                let r = counted("Too few arguments: expected ", *expected, *found);
                proof {
                    assert(r@ =~= spec_message(self@));
                }
                r
            },
            CliError::ExecutionError(msg) => {
                let s = tagged("Command execution failed: ", msg.as_str());
                proof {
                    assert(s@ =~= spec_message(self@));
                }
                s
            },
            CliError::PermissionDenied(resource) => {
                let s = tagged("Permission denied: ", resource.as_str());
                proof {
                    assert(s@ =~= spec_message(self@));
                }
                s
            },
            CliError::FileNotFound(path) => {
                let s = tagged("File not found: ", path.as_str());
                proof {
                    assert(s@ =~= spec_message(self@));
                }
                s
            },
            CliError::InvalidFileFormat(details) => {
                let s = tagged("Invalid file format: ", details.as_str());
                proof {
                    assert(s@ =~= spec_message(self@));
                }
                s
            },
            CliError::Interrupted => {
                let s = tagged("Operation interrupted by user", "");
                proof {
                    reveal_strlit("");
                    assert(s@ =~= spec_message(self@));
                }
                s
            },
            CliError::TerminalError(msg) => {
                let s = tagged("Terminal error: ", msg.as_str());
                proof {
                    assert(s@ =~= spec_message(self@));
                }
                s
            },
            CliError::InternalError(msg) => {
                let mut s = tagged("Internal error: ", msg.as_str());
                s.append(" (please report this bug)");
                proof {
                    assert(s@ =~= spec_message(self@));
                }
                s
            },
            CliError::Other(msg) => {
                let s = tagged("Error: ", msg.as_str());
                proof {
                    assert(s@ =~= spec_message(self@));
                }
                s
            },
        }
    }
}

/// A fixed prefix followed by a payload.
fn tagged(prefix: &'static str, payload: &str) -> (r: String)
    ensures
        r@ == prefix@ + payload@,
{
    let mut s = String::new();
    s.append(prefix);
    s.append(payload);
    s
}

/// A fixed prefix, an expected count, ", found ", and a found count.
fn counted(prefix: &'static str, expected: usize, found: usize) -> (r: String)
    ensures
        r@ == prefix@ + dec_rep(expected as nat) + ", found "@ + dec_rep(found as nat),
{
    let mut s = String::new();
    s.append(prefix);
    let e = crate::text::usize_to_dec(expected);
    s.append(e.as_str());
    s.append(", found ");
    let f = crate::text::usize_to_dec(found);
    s.append(f.as_str());
    s
}

} // verus!
