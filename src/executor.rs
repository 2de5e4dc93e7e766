//! The decisions of a transfer: where each source lands, which directories
//! must be created, and when a copy must stop. The caller walks the local
//! tree and the remote listings, performs each step, and reports what it
//! found.
use vstd::prelude::*;

use crate::entry::Entry;
use crate::fs::{is_not_found, ClientError, FsError, NOT_FOUND};
use crate::paths::{file_name, joined_path, join_remote_paths};
use crate::plan::{LocalOperand, RemoteOperand, TransferError};
use crate::text::ends_with_char;

verus! {

/// What a local path holds.
#[derive(Debug, Clone, Copy, PartialEq, Eq, Structural)]
pub enum LocalKind {
    File,
    Directory,
    /// Neither a regular file nor a directory.
    Other,
}

/// How the destination of a transfer is treated.
#[derive(Debug, Clone, Copy, PartialEq, Eq, Structural)]
pub struct DestinationPlan {
    /// Sources land inside the destination, under their own names.
    pub is_dir: bool,
    /// The destination directory does not exist yet and must be created.
    pub create: bool,
}

/// The destination of an upload, given whether it exists remotely and as
/// what: an existing directory is used as one; an existing file may not be
/// named as a directory; a missing destination becomes a directory when it
/// is named as one or several sources are copied. Several sources need a
/// directory.
pub open spec fn upload_destination_spec(
    explicit_dir: bool,
    existing: Option<bool>,
    count: nat,
) -> Option<DestinationPlan> {
    match existing {
        Some(true) => Some(DestinationPlan { is_dir: true, create: false }),
        Some(false) => if explicit_dir || count > 1 {
            None
        } else {
            Some(DestinationPlan { is_dir: false, create: false })
        },
        None => if explicit_dir || count > 1 {
            Some(DestinationPlan { is_dir: true, create: true })
        } else {
            Some(DestinationPlan { is_dir: false, create: false })
        },
    }
}

/// Decides how an upload treats its remote destination.
pub fn upload_destination(dest: &RemoteOperand, existing: Option<&Entry>, source_count: usize) -> (r: Result<DestinationPlan, TransferError>)
    ensures
        source_count == 0 ==> r == Err::<DestinationPlan, _>(TransferError::NoSources),
        source_count > 0 ==> match upload_destination_spec(
            dest.explicit_dir,
            match existing {
                Some(e) => Some(e.kind is Directory),
                None => None,
            },
            source_count as nat,
        ) {
            Some(p) => r == Ok::<DestinationPlan, TransferError>(p),
            None => {
                &&& existing matches Some(e) && !(e.kind is Directory)
                &&& dest.explicit_dir ==> r == Err::<DestinationPlan, _>(TransferError::DestinationNotDirectory { destination: dest.raw })
                &&& !dest.explicit_dir ==> r == Err::<DestinationPlan, _>(TransferError::MultipleSourcesNeedDirectory { destination: dest.raw })
            },
        },
{
    if source_count == 0 {
        return Err(TransferError::NoSources);
    }
    let mut is_dir = false;
    match existing {
        Some(entry) => {
            if entry.kind.is_directory() {
                is_dir = true;
            } else if dest.explicit_dir {
                return Err(TransferError::DestinationNotDirectory { destination: dest.raw.clone() });
            }
        },
        None => {
            if dest.explicit_dir || source_count > 1 {
                is_dir = true;
            }
        },
    }
    if source_count > 1 && !is_dir {
        return Err(TransferError::MultipleSourcesNeedDirectory { destination: dest.raw.clone() });
    }
    Ok(DestinationPlan { is_dir, create: is_dir && existing.is_none() })
}

/// One step of an upload.
#[derive(Debug, Clone, PartialEq, Eq)]
pub enum UploadStep {
    /// Copy the local file to this remote path.
    File { remote: String },
    /// Copy the local directory tree under this remote path.
    Directory { remote: String },
}

/// The remote path that a source lands on: inside the destination under its
/// file name, or the destination itself.
pub open spec fn upload_target(source_path: Seq<char>, dest: Seq<char>, dest_is_dir: bool) -> Option<Seq<char>> {
    if dest_is_dir {
        match file_name(source_path) {
            Some(name) => Some(joined_path(dest, name)),
            None => None,
        }
    } else {
        Some(dest)
    }
}

/// Decides how one local source is uploaded: a file is copied, a directory
/// only when the copy is recursive, anything else is refused.
pub fn upload_source_step(
    source: &LocalOperand,
    kind: LocalKind,
    recursive: bool,
    dest: &RemoteOperand,
    dest_is_dir: bool,
) -> (r: Result<UploadStep, TransferError>)
    ensures
        match upload_target(source.path@, dest.normalized@, dest_is_dir) {
            None => r == Err::<UploadStep, _>(TransferError::NoFileName { source: source.raw }),
            Some(target) => match kind {
                LocalKind::File => r matches Ok(UploadStep::File { remote }) && remote@ == target,
                LocalKind::Directory => if recursive {
                    r matches Ok(UploadStep::Directory { remote }) && remote@ == target
                } else {
                    r == Err::<UploadStep, _>(TransferError::IsADirectory { source: source.raw })
                },
                LocalKind::Other => r == Err::<UploadStep, _>(TransferError::NotFileOrDirectory { source: source.raw }),
            },
        },
{
    let target = if dest_is_dir {
        match source.basename() {
            Ok(name) => join_remote_paths(dest.normalized.as_str(), name.as_str()),
            Err(e) => return Err(e),
        }
    } else {
        dest.normalized.clone()
    };
    match kind {
        LocalKind::File => Ok(UploadStep::File { remote: target }),
        LocalKind::Directory => {
            if recursive {
                Ok(UploadStep::Directory { remote: target })
            } else {
                Err(TransferError::IsADirectory { source: source.raw.clone() })
            }
        },
        LocalKind::Other => Err(TransferError::NotFileOrDirectory { source: source.raw.clone() }),
    }
}

/// Decides what to do with one child of a local directory being uploaded
/// into `remote_dir`: descend into a directory, copy a file, refuse
/// anything else (named by its local path).
pub fn upload_child_step(remote_dir: &str, name: &str, kind: LocalKind, local_path: &str) -> (r: Result<UploadStep, TransferError>)
    ensures
        match kind {
            LocalKind::File => r matches Ok(UploadStep::File { remote }) && remote@ == joined_path(remote_dir@, name@),
            LocalKind::Directory => r matches Ok(UploadStep::Directory { remote }) && remote@ == joined_path(remote_dir@, name@),
            LocalKind::Other => r matches Err(TransferError::NotFileOrDirectory { source }) && source@ == local_path@,
        },
{
    match kind {
        LocalKind::File => Ok(UploadStep::File { remote: join_remote_paths(remote_dir, name) }),
        LocalKind::Directory => Ok(UploadStep::Directory { remote: join_remote_paths(remote_dir, name) }),
        LocalKind::Other => Err(TransferError::NotFileOrDirectory { source: String::from_str(local_path) }),
    }
}

/// What to do with one child of a remote directory being downloaded from
/// `remote_dir` into `local_dir`: where it lies remotely, where it lands
/// locally, and whether to descend into it rather than fetch it.
#[derive(Debug, Clone, PartialEq, Eq)]
pub struct DownloadChildStep {
    pub remote: String,
    pub local: String,
    pub is_dir: bool,
}

/// Decides how one child of a remote directory is downloaded.
pub fn download_child_step(remote_dir: &str, local_dir: &str, child: &Entry) -> (r: DownloadChildStep)
    ensures
        r.remote@ == joined_path(remote_dir@, child.name@),
        r.local@ == local_joined(local_dir@, child.name@),
        r.is_dir == (child.kind is Directory),
{
    DownloadChildStep {
        remote: join_remote_paths(remote_dir, child.name.as_str()),
        local: local_join(local_dir, child.name.as_str()),
        is_dir: child.kind.is_directory(),
    }
}

/// The outcome of a metadata lookup as an existence check: the entry, none
/// when the service says the path does not exist, or the failure itself.
pub fn found_entry(lookup: Result<Entry, FsError>) -> (r: Result<Option<Entry>, FsError>)
    ensures
        match lookup {
            Ok(e) => r == Ok::<Option<Entry>, FsError>(Some(e)),
            Err(FsError::Client(ClientError::Api { status, message })) => if status == NOT_FOUND {
                r == Ok::<Option<Entry>, FsError>(None)
            } else {
                r == Err::<Option<Entry>, _>(FsError::Client(ClientError::Api { status, message }))
            },
            Err(e) => r == Err::<Option<Entry>, _>(e),
        },
{
    match lookup {
        Ok(e) => Ok(Some(e)),
        Err(err) => {
            if is_not_found(&err) {
                Ok(None)
            } else {
                Err(err)
            }
        },
    }
}

/// Whether a remote directory must be created, given what its lookup found:
/// the root always exists, an existing directory is kept, anything else at
/// that path is refused.
pub fn remote_directory_step(path: &str, existing: Option<&Entry>) -> (r: Result<bool, TransferError>)
    ensures
        path@ == seq!['/'] ==> r == Ok::<bool, TransferError>(false),
        path@ != seq!['/'] ==> match existing {
            None => r == Ok::<bool, TransferError>(true),
            Some(e) => if e.kind is Directory {
                r == Ok::<bool, TransferError>(false)
            } else {
                r matches Err(TransferError::RemoteNotDirectory { path: p }) && p@ == path@
            },
        },
{
    if crate::text::is_single_char(path, '/') {
        return Ok(false);
    }
    match existing {
        None => Ok(true),
        Some(e) => {
            if e.kind.is_directory() {
                Ok(false)
            } else {
                Err(TransferError::RemoteNotDirectory { path: String::from_str(path) })
            }
        },
    }
}

/// The destination of a download, given what the local path holds: an
/// existing non-directory may not be named as a directory; a missing
/// destination is created as a directory when named as one or when several
/// sources are copied. Several sources need a directory.
pub open spec fn download_destination_spec(
    explicit_dir: bool,
    existing: Option<LocalKind>,
    count: nat,
) -> Option<DestinationPlan> {
    match existing {
        Some(k) => if explicit_dir && k != LocalKind::Directory {
            None
        } else if count > 1 && k != LocalKind::Directory {
            None
        } else {
            Some(DestinationPlan { is_dir: k == LocalKind::Directory, create: false })
        },
        None => if explicit_dir || count > 1 {
            Some(DestinationPlan { is_dir: true, create: true })
        } else {
            Some(DestinationPlan { is_dir: false, create: false })
        },
    }
}

/// Decides how a download treats its local destination.
pub fn download_destination(dest: &LocalOperand, existing: Option<LocalKind>, source_count: usize) -> (r: Result<DestinationPlan, TransferError>)
    ensures
        source_count == 0 ==> r == Err::<DestinationPlan, _>(TransferError::NoSources),
        source_count > 0 ==> match download_destination_spec(dest.explicit_dir, existing, source_count as nat) {
            Some(p) => r == Ok::<DestinationPlan, TransferError>(p),
            None => {
                &&& dest.explicit_dir ==> r == Err::<DestinationPlan, _>(TransferError::DestinationNotDirectory { destination: dest.raw })
                &&& !dest.explicit_dir ==> r == Err::<DestinationPlan, _>(TransferError::MultipleSourcesNeedDirectory { destination: dest.raw })
            },
        },
{
    if source_count == 0 {
        return Err(TransferError::NoSources);
    }
    match existing {
        Some(k) => {
            if dest.explicit_dir && k != LocalKind::Directory {
                return Err(TransferError::DestinationNotDirectory { destination: dest.raw.clone() });
            }
        },
        None => {},
    }
    let mut is_dir = match existing {
        Some(k) => k == LocalKind::Directory,
        None => false,
    };
    let mut create = false;
    if existing.is_none() && (dest.explicit_dir || source_count > 1) {
        create = true;
        is_dir = true;
    }
    if source_count > 1 && !is_dir {
        return Err(TransferError::MultipleSourcesNeedDirectory { destination: dest.raw.clone() });
    }
    Ok(DestinationPlan { is_dir, create })
}

/// A local path with `name` appended as `PathBuf::push` does it: an
/// absolute name replaces the path, and one `/` separates the two unless
/// the path is empty or already ends with `/`.
pub open spec fn local_joined(base: Seq<char>, name: Seq<char>) -> Seq<char> {
    if name.len() > 0 && name[0] == '/' {
        name
    } else if base.len() == 0 || base.last() == '/' {
        base + name
    } else {
        base + seq!['/'] + name
    }
}

/// Appends `name` to a local path.
pub fn local_join(base: &str, name: &str) -> (r: String)
    ensures
        r@ == local_joined(base@, name@),
{
    proof {
        reveal_strlit("/");
    }
    if name.unicode_len() > 0 && name.get_char(0) == '/' {
        return String::from_str(name);
    }
    let mut r = String::from_str(base);
    if base.unicode_len() > 0 && !ends_with_char(base, '/') {
        r.append("/");
    }
    r.append(name);
    r
}

/// One step of a download.
#[derive(Debug, Clone, PartialEq, Eq)]
pub struct DownloadStep {
    /// Where the source lands locally.
    pub local: String,
    /// The source is a directory, to be copied with its tree.
    pub is_dir: bool,
}

/// Decides how one remote source is downloaded, given its entry (none when
/// it does not exist): it lands inside the destination directory under its
/// own name, or on the destination itself; a directory needs a recursive
/// copy.
pub fn download_source_step(
    source: &RemoteOperand,
    entry: Option<&Entry>,
    dest: &LocalOperand,
    dest_is_dir: bool,
    recursive: bool,
) -> (r: Result<DownloadStep, TransferError>)
    ensures
        match entry {
            None => r == Err::<DownloadStep, _>(TransferError::RemoteMissing { source: source.raw }),
            Some(e) => if e.kind is Directory && !recursive {
                r == Err::<DownloadStep, _>(TransferError::IsADirectory { source: source.raw })
            } else {
                r matches Ok(s) && s.is_dir == (e.kind is Directory) && s.local@ == (if dest_is_dir {
                    local_joined(dest.path@, e.name@)
                } else {
                    dest.path@
                })
            },
        },
{
    let e = match entry {
        Some(e) => e,
        None => return Err(TransferError::RemoteMissing { source: source.raw.clone() }),
    };
    let local = if dest_is_dir {
        local_join(dest.path.as_str(), e.name.as_str())
    } else {
        dest.path.clone()
    };
    let is_dir = e.kind.is_directory();
    if is_dir && !recursive {
        return Err(TransferError::IsADirectory { source: source.raw.clone() });
    }
    Ok(DownloadStep { local, is_dir })
}

} // verus!
