use vstd::prelude::*;

verus! {

/// Mode bits examined for a regular file: set-user-id, owner read and
/// execute, group and other write and execute.
pub const PERM_FILE_MASK: u32 = 0o4522;

/// What the examined file bits must be: set-user-id, owner read and execute,
/// no write or execute for group and other.
pub const PERM_FILE_EXPECTED: u32 = 0o4500;

/// Mode bits examined for a directory.
pub const PERM_DIR_MASK: u32 = 0o522;

/// What the examined directory bits must be.
pub const PERM_DIR_EXPECTED: u32 = 0o500;

/// The kind of a filesystem object, as far as the policy cares.
#[derive(Clone, Copy, Debug, PartialEq, Eq, Structural)]
pub enum FileKind {
    File,
    Directory,
    Other,
}

/// Whether `mode` meets the policy for an object of kind `kind`.
pub open spec fn secure_mode(kind: FileKind, mode: u32) -> bool {
    match kind {
        FileKind::File => mode & PERM_FILE_MASK == PERM_FILE_EXPECTED,
        FileKind::Directory => mode & PERM_DIR_MASK == PERM_DIR_EXPECTED,
        FileKind::Other => false,
    }
}

/// Decides whether an object of kind `kind` with permission bits `mode` can
/// only be modified by its owner (and, for a file, carries the set-user-id
/// bit). Objects that are neither files nor directories never qualify.
pub fn is_secure(kind: FileKind, mode: u32) -> (r: bool)
    ensures
        r == secure_mode(kind, mode),
{
    match kind {
        FileKind::File => mode & PERM_FILE_MASK == PERM_FILE_EXPECTED,
        FileKind::Directory => mode & PERM_DIR_MASK == PERM_DIR_EXPECTED,
        FileKind::Other => false,
    }
}

/// What is read from the filesystem about one object of the chain: its
/// owner, its kind and its permission bits. It is read afresh for every check.
#[derive(Clone, Copy, Debug, PartialEq, Eq, Structural)]
pub struct FileStatus {
    pub owner: u32,
    pub kind: FileKind,
    pub mode: u32,
}

impl FileStatus {
    pub open spec fn secure(self) -> bool {
        secure_mode(self.kind, self.mode)
    }

    /// Whether this object meets the permission policy for its kind.
    pub fn is_secure(&self) -> (r: bool)
        ensures
            r == self.secure(),
    {
        is_secure(self.kind, self.mode)
    }
}

} // verus!
