//! Reasons and operations named by configuration errors.

use vstd::prelude::*;

verus! {

/// Reasons why a config field is invalid.
#[derive(Debug, Clone, Copy, PartialEq, Eq, Structural)]
pub enum InvalidFieldReason {
    /// The field was not found.
    NotFound,
    /// The path was empty.
    EmptyPath,
    /// The parent is not a table.
    ParentNotTable,
}

impl InvalidFieldReason {
    /// The text shown for this reason.
    pub fn message(&self) -> (r: &'static str)
        ensures
            r@ == match *self {
                InvalidFieldReason::NotFound => "field not found"@,
                InvalidFieldReason::EmptyPath => "empty path"@,
                InvalidFieldReason::ParentNotTable => "parent is not a table"@,
            },
    {
        match self {
            InvalidFieldReason::NotFound => "field not found",
            InvalidFieldReason::EmptyPath => "empty path",
            InvalidFieldReason::ParentNotTable => "parent is not a table",
        }
    }
}

/// I/O operations for error context.
#[derive(Debug, Clone, Copy, PartialEq, Eq, Structural)]
pub enum IoOperation {
    /// Reading a file.
    ReadFile,
    /// Writing a file.
    WriteFile,
    /// Creating a directory.
    CreateDir,
    /// Resolving a path.
    ResolvePath,
    /// Accessing config directory.
    AccessConfigDir,
}

impl IoOperation {
    /// The text shown for this operation.
    pub fn message(&self) -> (r: &'static str)
        ensures
            r@ == match *self {
                IoOperation::ReadFile => "read file"@,
                IoOperation::WriteFile => "write file"@,
                IoOperation::CreateDir => "create directory"@,
                IoOperation::ResolvePath => "resolve path"@,
                IoOperation::AccessConfigDir => "access config directory"@,
            },
    {
        match self {
            IoOperation::ReadFile => "read file",
            IoOperation::WriteFile => "write file",
            IoOperation::CreateDir => "create directory",
            IoOperation::ResolvePath => "resolve path",
            IoOperation::AccessConfigDir => "access config directory",
        }
    }
}

} // verus!
