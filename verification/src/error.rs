//! Error classification for the `audio.cpp` runtime and the bindings' own failures.

use vstd::prelude::*;

use crate::text::{concat, owned};

verus! {

/// Status code returned by every call of the native `audio.cpp` C ABI.
#[derive(Debug, Clone, Copy, PartialEq, Eq, Structural)]
pub enum Status {
    /// The call succeeded.
    Success,
    /// A required argument was missing or malformed.
    InvalidArgument,
    /// A model, family, or asset could not be found.
    NotFound,
    /// The requested task, backend, or mode is unsupported.
    Unsupported,
    /// Native allocation failed.
    OutOfMemory,
    /// A native runtime exception or internal failure.
    Runtime,
}

/// Classification of a native `audio.cpp` failure.
#[derive(Debug, Clone, Copy, PartialEq, Eq, Structural)]
pub enum ErrorKind {
    /// A required argument was missing or malformed.
    InvalidArgument,
    /// A model, family, or asset could not be found.
    NotFound,
    /// The requested task, backend, or mode is unsupported.
    Unsupported,
    /// A native runtime exception or internal failure.
    Runtime,
    /// Native allocation failed.
    OutOfMemory,
}

/// The error class of each native status; success has none.
pub open spec fn spec_kind_of(status: Status) -> Option<ErrorKind> {
    match status {
        Status::Success => None,
        Status::InvalidArgument => Some(ErrorKind::InvalidArgument),
        Status::NotFound => Some(ErrorKind::NotFound),
        Status::Unsupported => Some(ErrorKind::Unsupported),
        Status::OutOfMemory => Some(ErrorKind::OutOfMemory),
        Status::Runtime => Some(ErrorKind::Runtime),
    }
}

/// The name of an error class, as `{:?}` writes it.
pub open spec fn kind_name(kind: ErrorKind) -> Seq<char> {
    match kind {
        ErrorKind::InvalidArgument => "InvalidArgument"@,
        ErrorKind::NotFound => "NotFound"@,
        ErrorKind::Unsupported => "Unsupported"@,
        ErrorKind::Runtime => "Runtime"@,
        ErrorKind::OutOfMemory => "OutOfMemory"@,
    }
}

impl ErrorKind {
    /// The error class a status reports, or `None` for success.
    pub fn from_status(status: Status) -> (kind: Option<ErrorKind>)
        ensures
            kind == spec_kind_of(status),
    {
        match status {
            Status::Success => None,
            Status::InvalidArgument => Some(ErrorKind::InvalidArgument),
            Status::NotFound => Some(ErrorKind::NotFound),
            Status::Unsupported => Some(ErrorKind::Unsupported),
            Status::OutOfMemory => Some(ErrorKind::OutOfMemory),
            Status::Runtime => Some(ErrorKind::Runtime),
        }
    }

    /// The name of the error class, as `{:?}` writes it.
    pub fn name(self) -> (s: &'static str)
        ensures
            s@ == kind_name(self),
    {
        match self {
            ErrorKind::InvalidArgument => "InvalidArgument",
            ErrorKind::NotFound => "NotFound",
            ErrorKind::Unsupported => "Unsupported",
            ErrorKind::Runtime => "Runtime",
            ErrorKind::OutOfMemory => "OutOfMemory",
        }
    }
}

/// Failures from the `audio.cpp` bindings.
#[derive(Debug, Clone, PartialEq, Eq)]
pub enum Error {
    /// Native library error with a copied message.
    Native {
        /// Native error class.
        kind: ErrorKind,
        /// Message from `audio_cpp_last_error`.
        message: String,
    },
    /// A text or path contained an interior NUL byte, at this byte position.
    Nul(usize),
    /// Native text was not valid UTF-8; the bytes before this position were.
    Utf8(usize),
    /// A filesystem path was not valid Unicode; the path as far as it could be shown.
    InvalidPath(String),
    /// The loaded session does not implement the requested run mode.
    Unsupported(String),
}

/// Result alias for this crate.
pub type Result<T> = core::result::Result<T, Error>;

/// The error class that `Error::native` records for a status: its own, or
/// `Runtime` for a success status.
pub open spec fn native_kind(status: Status) -> ErrorKind {
    match spec_kind_of(status) {
        Some(kind) => kind,
        None => ErrorKind::Runtime,
    }
}

/// The text that the error's `Display` writes.
pub open spec fn error_text(e: Error) -> Seq<char> {
    match e {
        Error::Native { kind, message } => kind_name(kind) + ": "@ + message@,
        Error::Nul(_) => "value contains an interior NUL byte"@,
        Error::Utf8(_) => "native text was not valid UTF-8"@,
        Error::InvalidPath(path) => "path is not valid Unicode: "@ + path@,
        Error::Unsupported(message) => message@,
    }
}

impl Error {
    /// A native error for `status` carrying `message`.
    pub fn native(status: Status, message: String) -> (e: Error)
        ensures
            e == (Error::Native { kind: native_kind(status), message }),
    {
        let kind = match ErrorKind::from_status(status) {
            Some(kind) => kind,
            None => ErrorKind::Runtime,
        };
        Error::Native { kind, message }
    }

    /// An unsupported-operation error carrying `message`.
    pub fn unsupported(message: &str) -> (e: Error)
        ensures
            e matches Error::Unsupported(m) && m@ == message@,
    {
        Error::Unsupported(owned(message))
    }

    /// The text that `Display` writes for this error.
    pub fn text(&self) -> (s: String)
        ensures
            s@ == error_text(*self),
    {
        match self {
            Error::Native { kind, message } => {
                let head = concat(kind.name(), ": ");
                concat(head.as_str(), message.as_str())
            },
            Error::Nul(_) => owned("value contains an interior NUL byte"),
            Error::Utf8(_) => owned("native text was not valid UTF-8"),
            Error::InvalidPath(path) => concat("path is not valid Unicode: ", path.as_str()),
            Error::Unsupported(message) => owned(message.as_str()),
        }
    }
}

/// Turns a native status into a result: `Ok` for success, otherwise the
/// native error with the runtime's last error message.
pub fn check(status: Status, last_error: &str) -> (r: Result<()>)
    ensures
        r is Ok <==> status == Status::Success,
        r matches Err(e) ==> e matches Error::Native { kind, message } && spec_kind_of(status)
            == Some(kind) && message@ == last_error@,
{
    if status == Status::Success {
        Ok(())
    } else {
        Err(Error::native(status, owned(last_error)))
    }
}


/// Each failing status is classed by the error of the same name, success by
/// none; each class is written by its own name; and the error texts are
/// those the bindings display.
pub proof fn law_status_classes_and_texts(kind: ErrorKind, message: String, path: String, position: usize)
    ensures
        spec_kind_of(Status::Success) is None,
        spec_kind_of(Status::InvalidArgument) == Some(ErrorKind::InvalidArgument),
        spec_kind_of(Status::NotFound) == Some(ErrorKind::NotFound),
        spec_kind_of(Status::Unsupported) == Some(ErrorKind::Unsupported),
        spec_kind_of(Status::OutOfMemory) == Some(ErrorKind::OutOfMemory),
        spec_kind_of(Status::Runtime) == Some(ErrorKind::Runtime),
        native_kind(Status::Success) == ErrorKind::Runtime,
        kind_name(ErrorKind::InvalidArgument) == "InvalidArgument"@,
        kind_name(ErrorKind::NotFound) == "NotFound"@,
        kind_name(ErrorKind::Unsupported) == "Unsupported"@,
        kind_name(ErrorKind::Runtime) == "Runtime"@,
        kind_name(ErrorKind::OutOfMemory) == "OutOfMemory"@,
        error_text(Error::Native { kind, message }) == kind_name(kind) + ": "@ + message@,
        error_text(Error::Nul(position)) == "value contains an interior NUL byte"@,
        error_text(Error::Utf8(position)) == "native text was not valid UTF-8"@,
        error_text(Error::InvalidPath(path)) == "path is not valid Unicode: "@ + path@,
        error_text(Error::Unsupported(message)) == message@,
{
}

} // verus!
