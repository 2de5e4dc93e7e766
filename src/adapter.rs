//! What a file-transfer protocol server needs from the bridge: a view of an
//! entry as file metadata, and the status vocabulary that failures map to.
use vstd::prelude::*;

use crate::entry::Entry;
use crate::fs::{ClientError, FsError};
use crate::model::Timestamp;

verus! {

/// The statuses that a protocol server reports failures with.
#[derive(Debug, Clone, Copy, PartialEq, Eq, Structural)]
pub enum StorageErrorKind {
    PermanentFileNotAvailable,
    PermanentDirectoryNotAvailable,
    PermanentDirectoryNotEmpty,
    PermissionDenied,
    LocalError,
    CommandNotImplemented,
}

/// The status for an HTTP status code: not found, forbidden or
/// unauthorized, conflict, and anything else.
pub open spec fn status_kind(status: u16) -> StorageErrorKind {
    if status == 404 {
        StorageErrorKind::PermanentFileNotAvailable
    } else if status == 403 || status == 401 {
        StorageErrorKind::PermissionDenied
    } else if status == 409 {
        StorageErrorKind::PermanentDirectoryNotEmpty
    } else {
        StorageErrorKind::LocalError
    }
}

/// The status that a failure of the service maps to.
pub open spec fn client_error_kind(e: ClientError) -> StorageErrorKind {
    match e {
        ClientError::Api { status, .. } => status_kind(status),
        _ => StorageErrorKind::LocalError,
    }
}

/// The status that a failure of a filesystem verb maps to.
pub open spec fn fs_error_kind(e: FsError) -> StorageErrorKind {
    match e {
        FsError::Client(c) => client_error_kind(c),
        FsError::NotAFile(_) => StorageErrorKind::PermanentFileNotAvailable,
        FsError::NotADirectory(_) => StorageErrorKind::PermanentDirectoryNotAvailable,
        FsError::MissingContent(_) => StorageErrorKind::LocalError,
        FsError::InvalidPayload(_) => StorageErrorKind::LocalError,
        FsError::Decode(_) => StorageErrorKind::LocalError,
        FsError::NotImplemented(_) => StorageErrorKind::CommandNotImplemented,
    }
}

/// Maps a failure of the service to a protocol status.
pub fn map_client_error(err: &ClientError) -> (r: StorageErrorKind)
    ensures
        r == client_error_kind(*err),
{
    match err {
        ClientError::Api { status, .. } => {
            if *status == 404 {
                StorageErrorKind::PermanentFileNotAvailable
            } else if *status == 403 || *status == 401 {
                StorageErrorKind::PermissionDenied
            } else if *status == 409 {
                StorageErrorKind::PermanentDirectoryNotEmpty
            } else {
                StorageErrorKind::LocalError
            }
        },
        _ => StorageErrorKind::LocalError,
    }
}

/// Maps a failure of a filesystem verb to a protocol status.
pub fn map_fs_error(err: &FsError) -> (r: StorageErrorKind)
    ensures
        r == fs_error_kind(*err),
{
    match err {
        FsError::Client(e) => map_client_error(e),
        FsError::NotAFile(_) => StorageErrorKind::PermanentFileNotAvailable,
        FsError::NotADirectory(_) => StorageErrorKind::PermanentDirectoryNotAvailable,
        FsError::MissingContent(_) => StorageErrorKind::LocalError,
        FsError::InvalidPayload(_) => StorageErrorKind::LocalError,
        FsError::Decode(_) => StorageErrorKind::LocalError,
        FsError::NotImplemented(_) => StorageErrorKind::CommandNotImplemented,
    }
}

/// A protocol server may change into `entry` only when it is a directory.
pub fn cwd_check(entry: &Entry) -> (r: Result<(), StorageErrorKind>)
    ensures
        entry.kind is Directory ==> r is Ok,
        !(entry.kind is Directory) ==> r == Err::<(), _>(StorageErrorKind::PermanentDirectoryNotAvailable),
{
    if entry.kind.is_directory() {
        Ok(())
    } else {
        Err(StorageErrorKind::PermanentDirectoryNotAvailable)
    }
}

/// Mode bits of a writable entry.
pub const WRITABLE_MODE: u32 = 0o755;

/// Mode bits of a read-only entry.
pub const READ_ONLY_MODE: u32 = 0o555;

/// An entry seen as file metadata by a protocol server.
#[derive(Debug, Clone)]
pub struct FsMetadata {
    pub entry: Entry,
}

impl FsMetadata {
    pub fn from(entry: Entry) -> (r: FsMetadata)
        ensures
            r.entry == entry,
    {
        FsMetadata { entry }
    }

    fn is_directory(&self) -> (r: bool)
        ensures
            r == (self.entry.kind is Directory),
    {
        self.entry.kind.is_directory()
    }

    /// The size in bytes; 0 when the service reported none.
    pub fn len(&self) -> (r: u64)
        ensures
            r == match self.entry.size {
                Some(n) => n,
                None => 0,
            },
    {
        match self.entry.size {
            Some(n) => n,
            None => 0,
        }
    }

    pub fn is_dir(&self) -> (r: bool)
        ensures
            r == (self.entry.kind is Directory),
    {
        self.is_directory()
    }

    /// Anything that is not a directory is served as a file.
    pub fn is_file(&self) -> (r: bool)
        ensures
            r == !(self.entry.kind is Directory),
    {
        !self.is_directory()
    }

    /// The bridge has no symbolic links.
    pub fn is_symlink(&self) -> (r: bool)
        ensures
            !r,
    {
        false
    }

    /// The last modification, or the creation when the service reported no
    /// modification.
    pub fn modified(&self) -> (r: Option<Timestamp>)
        ensures
            r == match self.entry.last_modified {
                Some(t) => Some(t),
                None => self.entry.created,
            },
    {
        match self.entry.last_modified {
            Some(t) => Some(t),
            None => self.entry.created,
        }
    }

    /// Entries carry no owner.
    pub fn gid(&self) -> (r: u32)
        ensures
            r == 0,
    {
        0
    }

    /// Entries carry no owner.
    pub fn uid(&self) -> (r: u32)
        ensures
            r == 0,
    {
        0
    }

    /// The mode bits: writable entries are open to their owner for writing,
    /// all entries are readable and traversable by all.
    pub fn permissions(&self) -> (r: u32)
        ensures
            self.entry.writable ==> r == WRITABLE_MODE,
            !self.entry.writable ==> r == READ_ONLY_MODE,
    {
        if self.entry.writable {
            WRITABLE_MODE
        } else {
            READ_ONLY_MODE
        }
    }
}

} // verus!
