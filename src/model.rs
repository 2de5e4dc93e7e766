//! The content service's records and request bodies, as plain values.
//!
//! The caller's transport turns wire payloads into these and back; nothing
//! here knows of JSON or HTTP.
use vstd::prelude::*;

verus! {

/// A point in time: whole seconds since the Unix epoch and the nanoseconds
/// past them.
#[derive(Debug, Clone, Copy, PartialEq, Eq, Structural)]
pub struct Timestamp {
    pub secs: i64,
    pub nanos: u32,
}

/// The body of a node, as the service sends it: text (plain or base64) for
/// a file, the child records for a directory.
#[derive(Debug, PartialEq)]
pub enum ContentValue {
    Text(String),
    Contents(Vec<Contents>),
}

/// One node of the content service, as it reports it.
#[derive(Debug, PartialEq)]
pub struct Contents {
    pub name: String,
    pub path: String,
    /// `file`, `directory`, `notebook`, or another type name.
    pub content_type: String,
    pub writable: bool,
    pub created: Option<Timestamp>,
    pub last_modified: Option<Timestamp>,
    pub size: Option<u64>,
    pub mimetype: Option<String>,
    pub content: Option<ContentValue>,
    /// `text`, `base64` or `json`, for a node whose content was sent.
    pub format: Option<String>,
    pub hash: Option<String>,
    pub hash_algorithm: Option<String>,
}

/// Content formats that the service encodes payloads in.
#[derive(Debug, Clone, Copy, PartialEq, Eq, Structural)]
pub enum ContentsFormat {
    Json,
    Text,
    Base64,
}

/// The type filter of a metadata fetch.
#[derive(Debug, Clone, Copy, PartialEq, Eq, Structural)]
pub enum ContentsTypeQuery {
    File,
    Directory,
}

/// The kinds of node that can be created or saved.
#[derive(Debug, Clone, Copy, PartialEq, Eq, Structural)]
pub enum ContentsEntryType {
    Directory,
    File,
    Notebook,
}

/// The options of a metadata fetch: whether to include the content and the
/// server-side hash, and in which format.
#[derive(Debug, Clone, Copy, PartialEq, Eq, Structural, Default)]
pub struct ContentsGetParams {
    pub entry_type: Option<ContentsTypeQuery>,
    pub format: Option<ContentsFormat>,
    pub content: Option<bool>,
    pub hash: Option<bool>,
}

/// The body of a create or copy request.
#[derive(Debug, Clone, PartialEq, Eq, Default)]
pub struct CreateContentsModel {
    pub copy_from: Option<String>,
    pub ext: Option<String>,
    pub entry_type: Option<ContentsEntryType>,
}

/// The body of a rename request: the new path, without a leading slash.
#[derive(Debug, Clone, PartialEq, Eq)]
pub struct RenameContentsModel {
    pub path: String,
}

/// The body of a save request; `chunk` numbers the pieces of a chunked
/// upload, with -1 on the last one.
#[derive(Debug, Clone, PartialEq, Eq, Default)]
pub struct SaveContentsModel {
    pub name: Option<String>,
    pub path: Option<String>,
    pub entry_type: Option<ContentsEntryType>,
    pub format: Option<ContentsFormat>,
    pub content: Option<String>,
    pub chunk: Option<i64>,
}

/// The body of a kernel start request.
#[derive(Debug, Clone, PartialEq, Eq)]
pub struct KernelStartOptions {
    pub name: String,
    pub path: Option<String>,
}

/// The permissions filter of an identity request.
#[derive(Debug, Clone, PartialEq, Eq, Default)]
pub struct PermissionsQueryParam {
    pub permissions: Option<String>,
}

/// The server's version.
#[derive(Debug, Clone, PartialEq, Eq)]
pub struct ServerVersion {
    pub version: String,
}

/// Who the token belongs to.
#[derive(Debug, Clone, PartialEq, Eq, Default)]
pub struct Identity {
    pub username: Option<String>,
    pub name: Option<String>,
    pub display_name: Option<String>,
    pub initials: Option<String>,
    pub avatar_url: Option<String>,
    pub color: Option<String>,
}

/// The identity of the token's owner and the actions it may take, per
/// resource, in the order the server listed them.
#[derive(Debug, Clone, PartialEq, Eq, Default)]
pub struct MeResponse {
    pub identity: Option<Identity>,
    pub permissions: Vec<(String, Vec<String>)>,
}

/// A documentation link of a kernel.
#[derive(Debug, Clone, PartialEq, Eq)]
pub struct HelpLink {
    pub text: String,
    pub url: String,
}

impl ContentsFormat {
    /// The name of the format on the wire.
    pub fn as_str(&self) -> (r: &'static str)
        ensures
            r@ == format_name(*self),
    {
        proof {
            reveal_strlit("json");
            reveal_strlit("text");
            reveal_strlit("base64");
        }
        match self {
            ContentsFormat::Json => "json",
            ContentsFormat::Text => "text",
            ContentsFormat::Base64 => "base64",
        }
    }
}

/// The wire name of a content format.
pub open spec fn format_name(f: ContentsFormat) -> Seq<char> {
    match f {
        ContentsFormat::Json => seq!['j', 's', 'o', 'n'],
        ContentsFormat::Text => seq!['t', 'e', 'x', 't'],
        ContentsFormat::Base64 => seq!['b', 'a', 's', 'e', '6', '4'],
    }
}

impl ContentsTypeQuery {
    /// The name of the type filter on the wire.
    pub fn as_str(&self) -> (r: &'static str)
        ensures
            r@ == match self {
                ContentsTypeQuery::File => seq!['f', 'i', 'l', 'e'],
                ContentsTypeQuery::Directory => seq!['d', 'i', 'r', 'e', 'c', 't', 'o', 'r', 'y'],
            },
    {
        proof {
            reveal_strlit("file");
            reveal_strlit("directory");
        }
        match self {
            ContentsTypeQuery::File => "file",
            ContentsTypeQuery::Directory => "directory",
        }
    }
}

/// The wire name of a node type to create or save.
pub open spec fn entry_type_name(t: ContentsEntryType) -> Seq<char> {
    match t {
        ContentsEntryType::Directory => seq!['d', 'i', 'r', 'e', 'c', 't', 'o', 'r', 'y'],
        ContentsEntryType::File => seq!['f', 'i', 'l', 'e'],
        ContentsEntryType::Notebook => seq!['n', 'o', 't', 'e', 'b', 'o', 'o', 'k'],
    }
}

impl ContentsEntryType {
    /// The name of the node type on the wire.
    pub fn as_str(&self) -> (r: &'static str)
        ensures
            r@ == entry_type_name(*self),
    {
        proof {
            reveal_strlit("directory");
            reveal_strlit("file");
            reveal_strlit("notebook");
        }
        match self {
            ContentsEntryType::Directory => "directory",
            ContentsEntryType::File => "file",
            ContentsEntryType::Notebook => "notebook",
        }
    }
}

} // verus!
