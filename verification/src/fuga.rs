//! Core data types: target kinds and per-path file information snapshots.

use vstd::prelude::*;

verus! {

/// The application's name.
pub const APP_NAME: &'static str = "fuga";

/// The application's version string.
pub const VERSION: &'static str = "v0.0.1";

/// The kind of a target file or directory.
#[derive(Debug, Clone, PartialEq, Eq, Structural)]
pub enum TargetType {
    File,
    Dir,
    Missing,
}

/// Consolidated file information, captured once per logical operation to
/// avoid repeated filesystem queries within a single command.
#[derive(Debug, Clone)]
pub struct FileInfo {
    pub exists: bool,
    pub is_file: bool,
    pub is_dir: bool,
    pub name: Option<String>,
}

/// The kind a snapshot describes: nonexistent paths have no kind, files are
/// files, and everything else that exists counts as a directory.
pub open spec fn spec_file_type(info: FileInfo) -> TargetType {
    if !info.exists {
        TargetType::Missing
    } else if info.is_file {
        TargetType::File
    } else {
        TargetType::Dir
    }
}

/// Classify a path's kind from its captured information.
pub fn get_file_type(info: &FileInfo) -> (t: TargetType)
    ensures
        t == spec_file_type(*info),
{
    if !info.exists {
        TargetType::Missing
    } else if info.is_file {
        TargetType::File
    } else {
        TargetType::Dir
    }
}

/// Version of this tool.
pub fn get_version() -> (v: String)
    ensures
        v@ == VERSION@,
{
    String::from_str(VERSION)
}

} // verus!
