//! Error types: the library-wide error enum and its serializable IPC form.

use vstd::prelude::*;
use crate::strutil::str_concat;

verus! {

/// Library-wide error type.
///
/// Structural argument errors (`NotFound`, `NotADirectory`) fail a whole call;
/// `Scan` reports a working tree that could not be opened or introspected;
/// `Internal` reports an invariant violation. The remaining kinds carry the
/// message of a failed collaborator operation (store, filesystem, git).
#[derive(Debug)]
pub enum DevBaseError {
    /// A relational-store operation failed.
    Database(String),
    /// A filesystem operation failed.
    FileSystem(String),
    /// A git operation failed.
    Git(String),
    /// Configuration errors.
    Config { message: String },
    /// Repository scanning errors.
    Scan { message: String },
    /// General internal errors.
    Internal { message: String },
    /// A scan root that does not exist.
    NotFound { message: String },
    /// A scan root that is not a directory.
    NotADirectory { message: String },
}

/// The human-readable rendering of an error.
pub open spec fn spec_display(e: DevBaseError) -> Seq<char> {
    match e {
        DevBaseError::Database(m) => "Database error: "@ + m@,
        DevBaseError::FileSystem(m) => "File system error: "@ + m@,
        DevBaseError::Git(m) => "Git error: "@ + m@,
        DevBaseError::Config { message } => "Configuration error: "@ + message@,
        DevBaseError::Scan { message } => "Scan error: "@ + message@,
        DevBaseError::Internal { message } => "Internal error: "@ + message@,
        DevBaseError::NotFound { message } => "Path not found: "@ + message@,
        DevBaseError::NotADirectory { message } => "Not a directory: "@ + message@,
    }
}

/// The stable machine-readable code of an error kind.
pub open spec fn spec_code(e: DevBaseError) -> Seq<char> {
    match e {
        DevBaseError::Database(_) => "DATABASE_ERROR"@,
        DevBaseError::FileSystem(_) => "FILESYSTEM_ERROR"@,
        DevBaseError::Git(_) => "GIT_ERROR"@,
        DevBaseError::Config { .. } => "CONFIG_ERROR"@,
        DevBaseError::Scan { .. } => "SCAN_ERROR"@,
        DevBaseError::Internal { .. } => "INTERNAL_ERROR"@,
        DevBaseError::NotFound { .. } => "NOT_FOUND"@,
        DevBaseError::NotADirectory { .. } => "NOT_A_DIRECTORY"@,
    }
}

impl DevBaseError {
    /// The human-readable message, prefixed with the error kind.
    pub fn display_string(&self) -> (r: String)
        ensures
            r@ == spec_display(*self),
    {
        match self {
            DevBaseError::Database(m) => str_concat("Database error: ", m.as_str()),
            DevBaseError::FileSystem(m) => str_concat("File system error: ", m.as_str()),
            DevBaseError::Git(m) => str_concat("Git error: ", m.as_str()),
            DevBaseError::Config { message } => str_concat("Configuration error: ", message.as_str()),
            DevBaseError::Scan { message } => str_concat("Scan error: ", message.as_str()),
            DevBaseError::Internal { message } => str_concat("Internal error: ", message.as_str()),
            DevBaseError::NotFound { message } => str_concat("Path not found: ", message.as_str()),
            DevBaseError::NotADirectory { message } => str_concat("Not a directory: ", message.as_str()),
        }
    }

    /// The stable error code used in IPC responses.
    pub fn code_string(&self) -> (r: String)
        ensures
            r@ == spec_code(*self),
    {
        match self {
            DevBaseError::Database(_) => "DATABASE_ERROR".to_owned(),
            DevBaseError::FileSystem(_) => "FILESYSTEM_ERROR".to_owned(),
            DevBaseError::Git(_) => "GIT_ERROR".to_owned(),
            DevBaseError::Config { .. } => "CONFIG_ERROR".to_owned(),
            DevBaseError::Scan { .. } => "SCAN_ERROR".to_owned(),
            DevBaseError::Internal { .. } => "INTERNAL_ERROR".to_owned(),
            DevBaseError::NotFound { .. } => "NOT_FOUND".to_owned(),
            DevBaseError::NotADirectory { .. } => "NOT_A_DIRECTORY".to_owned(),
        }
    }
}

/// Serializable error shape for IPC responses.
pub struct IpcError {
    pub code: String,
    pub message: String,
}

impl IpcError {
    /// The IPC form of an error: its code and its rendered message.
    pub fn of_error(err: &DevBaseError) -> (r: IpcError)
        ensures
            r.code@ == spec_code(*err),
            r.message@ == spec_display(*err),
    {
        IpcError { code: err.code_string(), message: err.display_string() }
    }
}

impl core::convert::From<DevBaseError> for IpcError {
    fn from(err: DevBaseError) -> (r: Self) {
        IpcError::of_error(&err)
    }
}

impl vstd::std_specs::convert::FromSpecImpl<DevBaseError> for IpcError {
    /// `From` is reached through `of_error`, which carries the contract;
    /// nothing is claimed at the trait level.
    open spec fn obeys_from_spec() -> bool {
        false
    }

    open spec fn from_spec(e: DevBaseError) -> Self {
        arbitrary()
    }
}

} // verus!
