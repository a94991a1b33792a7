//! Error kinds surfaced by the library, with their user-facing messages.

use vstd::prelude::*;

verus! {

/// Failures reported by marks, commands, planning and persistence.
#[derive(Debug)]
pub enum FugaError {
    ConfigError(String),
    ConfigPathMissing,
    IoError(String),
    FileNotFound(String),
    PermissionError { path: String, message: String },
    OperationFailed(String),
    DuplicatePath { source: String, destination: String },
    FileSystemError(String),
}

pub type FugaResult<T> = Result<T, FugaError>;

/// The user-facing text of an error, with the offending path where one is
/// available.
pub open spec fn spec_message(e: FugaError) -> Seq<char> {
    match e {
        FugaError::ConfigError(m) => "Configuration error: "@ + m@,
        FugaError::ConfigPathMissing => "Configuration path is missing"@,
        FugaError::IoError(m) => "IO error: "@ + m@,
        FugaError::FileNotFound(p) => "File not found: "@ + p@,
        FugaError::PermissionError { path, message } => "Permission denied for "@ + path@ + ": "@
            + message@,
        FugaError::OperationFailed(m) => "Operation failed: "@ + m@,
        FugaError::DuplicatePath { source, destination } => "Source and destination are the same: "@
            + source@ + " -> "@ + destination@,
        FugaError::FileSystemError(m) => "File system error: "@ + m@,
    }
}

impl FugaError {
    /// Render the error as one human-readable line.
    pub fn message(&self) -> (r: String)
        ensures
            r@ == spec_message(*self),
    {
        match self {
            FugaError::ConfigError(m) => {
                let mut s = String::from_str("Configuration error: ");
                s.append(m.as_str());
                s
            },
            FugaError::ConfigPathMissing => String::from_str("Configuration path is missing"),
            FugaError::IoError(m) => {
                let mut s = String::from_str("IO error: ");
                s.append(m.as_str());
                s
            },
            FugaError::FileNotFound(p) => {
                let mut s = String::from_str("File not found: ");
                s.append(p.as_str());
                s
            },
            FugaError::PermissionError { path, message } => {
                let mut s = String::from_str("Permission denied for ");
                s.append(path.as_str());
                s.append(": ");
                s.append(message.as_str());
                s
            },
            FugaError::OperationFailed(m) => {
                let mut s = String::from_str("Operation failed: ");
                s.append(m.as_str());
                s
            },
            FugaError::DuplicatePath { source, destination } => {
                let mut s = String::from_str("Source and destination are the same: ");
                s.append(source.as_str());
                s.append(" -> ");
                s.append(destination.as_str());
                s
            },
            FugaError::FileSystemError(m) => {
                let mut s = String::from_str("File system error: ");
                s.append(m.as_str());
                s
            },
        }
    }

    /// Build a `FileNotFound` error for one concrete path.
    pub fn file_not_found(path: &str) -> (r: Self)
        ensures
            r matches FugaError::FileNotFound(p) && p@ == path@,
    {
        FugaError::FileNotFound(String::from_str(path))
    }
}

} // verus!
