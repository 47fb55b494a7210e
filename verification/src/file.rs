use vstd::prelude::*;

use crate::bridge::FsOperation;

verus! {

/// Options and flags which configure how a file is opened: an accumulating
/// set of booleans, mutated only before an open is issued. An open call
/// captures a snapshot, so later mutation of the builder cannot affect work
/// already submitted.
#[derive(Clone, Copy, Debug, PartialEq, Eq, Structural)]
pub struct OpenOptions {
    pub read: bool,
    pub write: bool,
    pub append: bool,
    pub truncate: bool,
    pub create: bool,
    pub create_new: bool,
}

impl OpenOptions {
    /// Creates a blank new set of options ready for configuration.
    /// All options are initially set to `false`.
    pub fn new() -> (opts: OpenOptions)
        ensures
            opts == (OpenOptions {
                read: false,
                write: false,
                append: false,
                truncate: false,
                create: false,
                create_new: false,
            }),
    {
        OpenOptions {
            read: false,
            write: false,
            append: false,
            truncate: false,
            create: false,
            create_new: false,
        }
    }

    /// Sets the option for read access; every other flag is unchanged.
    pub fn read(&mut self, read: bool) -> (ret: &mut OpenOptions)
        ensures
            *ret == (OpenOptions { read, ..*old(self) }),
            *final(self) == *final(ret),
    {
        self.read = read;
        self
    }

    /// Sets the option for write access; every other flag is unchanged.
    pub fn write(&mut self, write: bool) -> (ret: &mut OpenOptions)
        ensures
            *ret == (OpenOptions { write, ..*old(self) }),
            *final(self) == *final(ret),
    {
        self.write = write;
        self
    }

    /// Sets the option for appending to the end of the file instead of
    /// overwriting; every other flag is unchanged.
    pub fn append(&mut self, append: bool) -> (ret: &mut OpenOptions)
        ensures
            *ret == (OpenOptions { append, ..*old(self) }),
            *final(self) == *final(ret),
    {
        self.append = append;
        self
    }

    /// Sets the option for truncating a previous file to zero length on
    /// open; every other flag is unchanged.
    pub fn truncate(&mut self, truncate: bool) -> (ret: &mut OpenOptions)
        ensures
            *ret == (OpenOptions { truncate, ..*old(self) }),
            *final(self) == *final(ret),
    {
        self.truncate = truncate;
        self
    }

    /// Sets the option to create the file if it does not yet exist; every
    /// other flag is unchanged.
    pub fn create(&mut self, create: bool) -> (ret: &mut OpenOptions)
        ensures
            *ret == (OpenOptions { create, ..*old(self) }),
            *final(self) == *final(ret),
    {
        self.create = create;
        self
    }

    /// Sets the option to create a new file, failing if it already exists;
    /// every other flag is unchanged.
    pub fn create_new(&mut self, create_new: bool) -> (ret: &mut OpenOptions)
        ensures
            *ret == (OpenOptions { create_new, ..*old(self) }),
            *final(self) == *final(ret),
    {
        self.create_new = create_new;
        self
    }

    /// Snapshots the current flags and builds the unit of work that opens
    /// the file at `path` with exactly that snapshot.
    pub fn open(&self, path: String) -> (op: FsOperation)
        ensures
            op == FsOperation::Open(path, *self),
    {
        FsOperation::Open(path, *self)
    }
}

/// A reference to one open file: an ownership slot holding exactly one
/// native descriptor, which may be emptied exactly once. The library never
/// inspects the descriptor itself, so the handle is generic over its type.
#[derive(Debug)]
pub struct File<D> {
    descriptor: Option<D>,
}

impl<D> File<D> {
    /// The contents of the ownership slot.
    pub closed spec fn spec_descriptor(self) -> Option<D> {
        self.descriptor
    }

    /// The handle still owns its descriptor; once this is false, no further
    /// operation can be issued through the handle.
    pub open spec fn is_open(self) -> bool {
        self.spec_descriptor() is Some
    }

    /// Builds the unit of work that opens a file in read-only mode.
    pub fn open(path: String) -> (op: FsOperation)
        ensures
            op == FsOperation::Open(path, (OpenOptions {
                read: true,
                write: false,
                append: false,
                truncate: false,
                create: false,
                create_new: false,
            })),
    {
        let mut opts = OpenOptions::new();
        opts.read(true);
        opts.open(path)
    }

    /// Builds the unit of work that opens a file in write-only mode,
    /// creating it if it does not exist and truncating any previous content
    /// (replacing it, not appending).
    pub fn create(path: String) -> (op: FsOperation)
        ensures
            op == FsOperation::Open(path, (OpenOptions {
                read: false,
                write: true,
                append: false,
                truncate: true,
                create: true,
                create_new: false,
            })),
    {
        let mut opts = OpenOptions::new();
        opts.write(true);
        opts.create(true);
        opts.truncate(true);
        opts.open(path)
    }

    /// Wraps a native descriptor, obtained from a successful open, in a
    /// fresh handle that owns it.
    pub fn from_std(inner: D) -> (file: File<D>)
        ensures
            file.spec_descriptor() == Some(inner),
            file.is_open(),
    {
        File { descriptor: Some(inner) }
    }

    /// Empties the ownership slot, handing the descriptor back for release.
    /// Afterwards the handle is closed for good: a second call yields `None`,
    /// so the descriptor can never be released twice.
    pub fn take(&mut self) -> (d: Option<D>)
        ensures
            d == old(self).spec_descriptor(),
            !final(self).is_open(),
    {
        self.descriptor.take()
    }
}

/// Removes a file from the filesystem. Completion does not guarantee that
/// the underlying storage is immediately reclaimed: other open descriptors
/// may defer it.
pub fn remove_file(path: String) -> (op: FsOperation)
    ensures
        op == FsOperation::RemoveFile(path),
{
    FsOperation::RemoveFile(path)
}

/// Renames a file or directory to a new name, replacing the destination if
/// it already exists. Fails if the two paths are on different mount points;
/// that surfaces as a plain operation error.
pub fn rename(from: String, to: String) -> (op: FsOperation)
    ensures
        op == FsOperation::Rename(from, to),
{
    FsOperation::Rename(from, to)
}

} // verus!
