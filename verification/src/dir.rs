use vstd::prelude::*;

use crate::bridge::FsOperation;

verus! {

/// Creates a new, empty directory at the provided path. Fails if the path
/// already exists or its parent is missing.
///
/// Builds the blocking unit of work with an owned copy of the path; the
/// surrounding runtime performs it off the scheduling thread and
/// `resolve` maps what comes back into the caller's result.
pub fn create_dir(path: String) -> (op: FsOperation)
    ensures
        op == FsOperation::CreateDir(path),
{
    FsOperation::CreateDir(path)
}

/// Recursively creates a directory and all of its parent components if they
/// are missing; succeeds if the full path already exists as a directory.
pub fn create_dir_all(path: String) -> (op: FsOperation)
    ensures
        op == FsOperation::CreateDirAll(path),
{
    FsOperation::CreateDirAll(path)
}

/// Removes an existing, empty directory; fails unless the target is an
/// existing directory with no entries.
pub fn remove_dir(path: String) -> (op: FsOperation)
    ensures
        op == FsOperation::RemoveDir(path),
{
    FsOperation::RemoveDir(path)
}

} // verus!
