//! The library's error type: one kind per failure the tool distinguishes,
//! with the numeric code the tool reports for it.
use vstd::prelude::*;

verus! {

/// What an operating-system call reported, as far as the tool tells cases apart.
#[derive(Clone, Copy, Debug, PartialEq, Eq, Structural)]
pub enum IoKind {
    NotFound,
    PermissionDenied,
    Other,
}

/// The kinds of failure.
#[derive(Clone, Copy, Debug, PartialEq, Eq, Structural)]
pub enum ErrorKind {
    /// The target or the journal does not exist.
    NotFound,
    /// The operating system refused access.
    PermissionDenied,
    /// Any other operating-system failure.
    Os,
    /// The configuration file could not be read as a configuration.
    BrokenConfig,
    /// An environment variable is not set.
    EnvNotPresent,
    /// An environment variable does not hold Unicode.
    EnvNotUnicode,
    /// The configuration could not be serialised.
    ConfigWrite,
    /// A timestamp could not be formatted.
    TimeFormat,
    /// A time format description is invalid.
    TimeDescription,
    /// A text pattern could not be compiled.
    Pattern,
    /// Every numbered variant of a name is taken.
    CollisionOverflow,
    /// A path could not be made absolute.
    PathResolution,
    /// A line of the undo journal is malformed.
    JournalParse,
}

/// The code reported for each kind.
pub open spec fn kind_code(k: ErrorKind) -> int {
    match k {
        ErrorKind::NotFound => -1,
        ErrorKind::PermissionDenied => -2,
        ErrorKind::BrokenConfig => -3,
        ErrorKind::EnvNotPresent => -4,
        ErrorKind::EnvNotUnicode => -5,
        ErrorKind::ConfigWrite => -6,
        ErrorKind::TimeFormat => -7,
        ErrorKind::TimeDescription => -8,
        ErrorKind::Pattern => -9,
        ErrorKind::CollisionOverflow => -10,
        ErrorKind::PathResolution => -11,
        ErrorKind::JournalParse => -12,
        ErrorKind::Os => 15,
    }
}

/// The error kind that an operating-system failure maps to.
pub open spec fn io_error_kind(k: IoKind) -> ErrorKind {
    match k {
        IoKind::NotFound => ErrorKind::NotFound,
        IoKind::PermissionDenied => ErrorKind::PermissionDenied,
        IoKind::Other => ErrorKind::Os,
    }
}

/// A failure, with a human-readable message.
#[derive(Clone, Debug)]
pub struct AppError {
    pub kind: ErrorKind,
    pub message: String,
}

impl AppError {
    pub fn new(kind: ErrorKind, message: String) -> (r: AppError)
        ensures
            r.kind == kind,
            r.message@ == message@,
    {
        AppError { kind, message }
    }

    /// The error for a failed operating-system call.
    pub fn from_io(kind: IoKind, message: String) -> (r: AppError)
        ensures
            r.kind == io_error_kind(kind),
            r.message@ == message@,
    {
        let k = match kind {
            IoKind::NotFound => ErrorKind::NotFound,
            IoKind::PermissionDenied => ErrorKind::PermissionDenied,
            IoKind::Other => ErrorKind::Os,
        };
        AppError { kind: k, message }
    }

    /// The numeric code of this error.
    pub fn code(&self) -> (r: i8)
        ensures
            r == kind_code(self.kind),
    {
        match self.kind {
            ErrorKind::NotFound => -1,
            ErrorKind::PermissionDenied => -2,
            ErrorKind::BrokenConfig => -3,
            ErrorKind::EnvNotPresent => -4,
            ErrorKind::EnvNotUnicode => -5,
            ErrorKind::ConfigWrite => -6,
            ErrorKind::TimeFormat => -7,
            ErrorKind::TimeDescription => -8,
            ErrorKind::Pattern => -9,
            ErrorKind::CollisionOverflow => -10,
            ErrorKind::PathResolution => -11,
            ErrorKind::JournalParse => -12,
            ErrorKind::Os => 15,
        }
    }
}

} // verus!
