//! The canonical view of a remote node as a filesystem entry.
use vstd::prelude::*;

use crate::model::{Contents, Timestamp};
use crate::text::str_eq;

verus! {

/// The kind of a remote node.
#[derive(Debug, Clone, PartialEq, Eq)]
pub enum EntryKind {
    File,
    Directory,
    Notebook,
    Other(String),
}

/// The type name of a file node.
pub open spec fn file_type_name() -> Seq<char> {
    seq!['f', 'i', 'l', 'e']
}

/// The type name of a directory node.
pub open spec fn directory_type_name() -> Seq<char> {
    seq!['d', 'i', 'r', 'e', 'c', 't', 'o', 'r', 'y']
}

/// The type name of a notebook node.
pub open spec fn notebook_type_name() -> Seq<char> {
    seq!['n', 'o', 't', 'e', 'b', 'o', 'o', 'k']
}

/// `k` is the kind that the type name `t` denotes: the three known names
/// map to their kinds, any other name is kept as it is.
pub open spec fn kind_named(t: Seq<char>, k: EntryKind) -> bool {
    if t == file_type_name() {
        k == EntryKind::File
    } else if t == directory_type_name() {
        k == EntryKind::Directory
    } else if t == notebook_type_name() {
        k == EntryKind::Notebook
    } else {
        k matches EntryKind::Other(o) && o@ == t
    }
}

/// The kind that the type name `t` denotes, keeping `t` itself for an
/// unknown name.
pub open spec fn kind_of(t: String) -> EntryKind {
    if t@ == file_type_name() {
        EntryKind::File
    } else if t@ == directory_type_name() {
        EntryKind::Directory
    } else if t@ == notebook_type_name() {
        EntryKind::Notebook
    } else {
        EntryKind::Other(t)
    }
}

impl EntryKind {
    /// The kind that a type name denotes.
    pub fn from_content_type(value: &str) -> (r: EntryKind)
        ensures
            kind_named(value@, r),
    {
        proof {
            reveal_strlit("file");
            reveal_strlit("directory");
            reveal_strlit("notebook");
        }
        assert("file"@ =~= file_type_name());
        assert("directory"@ =~= directory_type_name());
        assert("notebook"@ =~= notebook_type_name());
        if str_eq(value, "file") {
            EntryKind::File
        } else if str_eq(value, "directory") {
            EntryKind::Directory
        } else if str_eq(value, "notebook") {
            EntryKind::Notebook
        } else {
            EntryKind::Other(String::from_str(value))
        }
    }

    /// The kind that a type name denotes, taking the name over.
    pub fn from_type_name(value: String) -> (r: EntryKind)
        ensures
            r == kind_of(value),
    {
        proof {
            reveal_strlit("file");
            reveal_strlit("directory");
            reveal_strlit("notebook");
        }
        assert("file"@ =~= file_type_name());
        assert("directory"@ =~= directory_type_name());
        assert("notebook"@ =~= notebook_type_name());
        if str_eq(value.as_str(), "file") {
            EntryKind::File
        } else if str_eq(value.as_str(), "directory") {
            EntryKind::Directory
        } else if str_eq(value.as_str(), "notebook") {
            EntryKind::Notebook
        } else {
            EntryKind::Other(value)
        }
    }

    /// Whether this is a directory.
    pub fn is_directory(&self) -> (r: bool)
        ensures
            r == (self is Directory),
    {
        match self {
            EntryKind::Directory => true,
            _ => false,
        }
    }

    /// Whether this holds bytes: anything but a directory.
    pub fn is_file_like(&self) -> (r: bool)
        ensures
            r == !(self is Directory),
    {
        match self {
            EntryKind::Directory => false,
            _ => true,
        }
    }
}

/// A remote node seen as a filesystem entry; a directory has no size. A
/// fresh fetch is needed to see any later change.
#[derive(Debug, Clone, PartialEq)]
pub struct Entry {
    /// The last path segment.
    pub name: String,
    /// The full remote path.
    pub path: String,
    pub kind: EntryKind,
    pub writable: bool,
    pub created: Option<Timestamp>,
    pub last_modified: Option<Timestamp>,
    /// The size in bytes; the service reports none for directories.
    pub size: Option<u64>,
    pub mimetype: Option<String>,
    pub hash: Option<String>,
    pub hash_algorithm: Option<String>,
}

/// The entry that a node's record describes: the type name read as a kind,
/// no size for a directory, every other field carried over, the content
/// left behind.
pub open spec fn entry_of(c: Contents) -> Entry {
    Entry {
        name: c.name,
        path: c.path,
        kind: kind_of(c.content_type),
        writable: c.writable,
        created: c.created,
        last_modified: c.last_modified,
        size: if kind_of(c.content_type) is Directory {
            None
        } else {
            c.size
        },
        mimetype: c.mimetype,
        hash: c.hash,
        hash_algorithm: c.hash_algorithm,
    }
}

impl Entry {
    /// The entry that a node's record describes.
    pub fn from(contents: Contents) -> (r: Entry)
        ensures
            r == entry_of(contents),
            r.kind is Directory ==> r.size is None,
    {
        let Contents {
            name,
            path,
            content_type,
            writable,
            created,
            last_modified,
            size,
            mimetype,
            hash,
            hash_algorithm,
            ..
        } = contents;
        let kind = EntryKind::from_type_name(content_type);
        let size = if kind.is_directory() {
            None
        } else {
            size
        };
        Entry {
            name,
            path,
            kind,
            writable,
            created,
            last_modified,
            size,
            mimetype,
            hash,
            hash_algorithm,
        }
    }
}

} // verus!
