//! The filesystem verbs over the content service, as the decisions around
//! each exchange: what to ask for, and what an answer means.
//!
//! Each verb is one exchange (a chunked upload is one per chunk). The
//! caller sends the request that a `*_params` or `*_model` function builds
//! and hands the answer to the matching `*_response` function, which checks
//! what the service does not guarantee.
use vstd::prelude::*;

use crate::codec::{
    base64_decode, base64_decoding, base64_encode, base64_encoding, hex_lower, hex_of, sha256,
    sha256_digest, decimal, decimal_string,
};
use crate::entry::{directory_type_name, entry_of, Entry, EntryKind};
use crate::model::{
    ContentValue, Contents, ContentsEntryType, ContentsFormat, ContentsGetParams,
    RenameContentsModel, SaveContentsModel,
};
use crate::paths::{drop_leading_slash, trim_leading_slash};
use crate::text::{eq_ignore_ascii_case, eq_ignore_ascii_case_spec, str_eq, trim_white, trim_whitespace};

verus! {

/// A failure of the transport or of the service.
#[derive(Debug, Clone, PartialEq, Eq)]
pub enum ClientError {
    InvalidBaseUrl(String),
    InvalidInput(String),
    /// The HTTP exchange failed; the transport's own words.
    Http(String),
    /// The WebSocket exchange failed; the transport's own words.
    Websocket(String),
    /// The service answered with a status that is not a success.
    Api { status: u16, message: String },
    InvalidHeader(String),
}

/// What was wrong with a payload that the service sent or accepted.
#[derive(Debug, Clone, PartialEq, Eq)]
pub enum PayloadIssue {
    /// A directory's content was not a listing.
    ListingExpected { path: String },
    /// A listing came where file bytes were expected.
    FileExpected,
    /// The stored size differs from the number of bytes sent.
    SizeMismatch { path: String, expected: u64, reported: Option<u64> },
    /// The directory to remove still has entries.
    NotEmpty { path: String },
    /// The service reported no hash.
    MissingHash { path: String },
    /// The service reported a hash without its algorithm.
    MissingHashAlgorithm { path: String },
    /// The requested offset lies past the end of the file.
    OffsetBeyondEnd { path: String, offset: u64, len: u64 },
    /// The file's bytes could not be read to the end.
    Unreadable { path: String, reason: String },
}

/// Why a filesystem verb failed.
#[derive(Debug)]
pub enum FsError {
    Client(ClientError),
    NotAFile(String),
    NotADirectory(String),
    MissingContent(String),
    InvalidPayload(PayloadIssue),
    Decode(base64::DecodeError),
    NotImplemented(String),
}

/// A file's entry together with its bytes.
#[derive(Debug, Clone)]
pub struct FileContent {
    pub entry: Entry,
    pub bytes: Vec<u8>,
}

/// The status the service answers with for a path that does not exist.
pub const NOT_FOUND: u16 = 404;

/// Whether a failure says that the path does not exist.
pub fn is_not_found(err: &FsError) -> (r: bool)
    ensures
        r == (err matches FsError::Client(ClientError::Api { status, .. }) && status == NOT_FOUND),
{
    match err {
        FsError::Client(ClientError::Api { status, .. }) => *status == NOT_FOUND,
        _ => false,
    }
}

/// Fetch options: with or without content and hash, in a given format.
pub open spec fn get_params(content: bool, hash: Option<bool>, format: Option<ContentsFormat>) -> ContentsGetParams {
    ContentsGetParams { entry_type: None, format, content: Some(content), hash }
}

/// What `ls` fetches: the node with its content.
pub open spec fn ls_fetch() -> ContentsGetParams {
    get_params(true, None, None)
}

/// What `rmdir` fetches: the node, with its listing unless the removal is
/// recursive.
pub open spec fn rmdir_fetch(recursive: bool) -> ContentsGetParams {
    get_params(!recursive, None, None)
}

/// The fetch options of `ls`.
pub fn ls_params() -> (r: ContentsGetParams)
    ensures
        r == ls_fetch(),
{
    ContentsGetParams { entry_type: None, format: None, content: Some(true), hash: None }
}

/// What `metadata` fetches: the node without its content.
pub fn metadata_params() -> (r: ContentsGetParams)
    ensures
        r == get_params(false, None, None),
{
    ContentsGetParams { entry_type: None, format: None, content: Some(false), hash: None }
}

/// What a download through the content service fetches: the content, in
/// base64.
pub fn download_params() -> (r: ContentsGetParams)
    ensures
        r == get_params(true, None, Some(ContentsFormat::Base64)),
{
    ContentsGetParams {
        entry_type: None,
        format: Some(ContentsFormat::Base64),
        content: Some(true),
        hash: None,
    }
}

/// What a hash lookup fetches: the server's hash, without the content.
pub fn hash_params() -> (r: ContentsGetParams)
    ensures
        r == get_params(false, Some(true), None),
{
    ContentsGetParams { entry_type: None, format: None, content: Some(false), hash: Some(true) }
}

/// The fetch options of `rmdir`.
pub fn rmdir_params(recursive: bool) -> (r: ContentsGetParams)
    ensures
        r == rmdir_fetch(recursive),
{
    ContentsGetParams { entry_type: None, format: None, content: Some(!recursive), hash: None }
}

/// The entries of a listing, in order.
pub open spec fn entries_of(children: Seq<Contents>) -> Seq<Entry> {
    children.map_values(|c: Contents| entry_of(c))
}

/// The entries of a list of records, in order.
pub fn entries_from(children: Vec<Contents>) -> (r: Vec<Entry>)
    ensures
        r@ == entries_of(children@),
{
    let ghost orig = children@;
    let mut rest = children;
    let mut out: Vec<Entry> = Vec::new();
    while rest.len() > 0
        invariant
            out@.len() + rest@.len() == orig.len(),
            rest@ == orig.skip(out@.len() as int),
            out@ == entries_of(orig.take(out@.len() as int)),
        decreases rest@.len(),
    {
        let ghost k = out@.len() as int;
        let c = rest.remove(0);
        out.push(Entry::from(c));
        assert(rest@ =~= orig.skip(k + 1));
        assert(orig.take(k + 1) =~= orig.take(k).push(orig[k]));
        assert(entries_of(orig.take(k + 1)) =~= entries_of(orig.take(k)).push(entry_of(orig[k])));
    }
    assert(orig.take(orig.len() as int) =~= orig);
    out
}

/// What `ls` reports for a node fetched with its content: a directory's
/// listing (refused when the content is text or missing), or the node's own
/// entry alone when it holds bytes.
pub open spec fn ls_entries(c: Contents) -> Result<Seq<Entry>, FsError> {
    if c.content_type@ == directory_type_name() {
        match c.content {
            Some(ContentValue::Contents(children)) => Ok(entries_of(children@)),
            Some(ContentValue::Text(_)) => Err(
                FsError::InvalidPayload(PayloadIssue::ListingExpected { path: c.path }),
            ),
            None => Err(FsError::MissingContent(c.path)),
        }
    } else {
        Ok(seq![entry_of(c)])
    }
}

/// Interprets the answer to an `ls` fetch.
pub fn ls_response(contents: Contents) -> (r: Result<Vec<Entry>, FsError>)
    ensures
        match ls_entries(contents) {
            Ok(s) => r matches Ok(v) && v@ == s,
            Err(e) => r == Err::<Vec<Entry>, _>(e),
        },
{
    let dir = EntryKind::from_content_type(contents.content_type.as_str()).is_directory();
    if dir {
        let Contents { path, content, .. } = contents;
        match content {
            Some(ContentValue::Contents(children)) => Ok(entries_from(children)),
            Some(ContentValue::Text(_)) => Err(
                FsError::InvalidPayload(PayloadIssue::ListingExpected { path }),
            ),
            None => Err(FsError::MissingContent(path)),
        }
    } else {
        let mut v: Vec<Entry> = Vec::new();
        v.push(Entry::from(contents));
        assert(v@ =~= seq![entry_of(contents)]);
        Ok(v)
    }
}

/// The save request that stores `data` as a file, in base64; `chunk` numbers
/// a piece of a chunked upload.
pub fn upload_model(data: &[u8], chunk: Option<i64>) -> (r: SaveContentsModel)
    requires
        data@.len() < usize::MAX / 2,
    ensures
        r.name is None,
        r.path is None,
        r.entry_type == Some(ContentsEntryType::File),
        r.format == Some(ContentsFormat::Base64),
        r.content matches Some(c) && c@ == base64_encoding(data@) && base64_decoding(c@) == Some(
            data@,
        ),
        r.chunk == chunk,
{
    SaveContentsModel {
        name: None,
        path: None,
        entry_type: Some(ContentsEntryType::File),
        format: Some(ContentsFormat::Base64),
        content: Some(base64_encode(data)),
        chunk,
    }
}

/// Checks that the service stored as many bytes as were sent.
pub fn check_uploaded(entry: &Entry, total_len: u64) -> (r: Result<(), FsError>)
    ensures
        entry.size == Some(total_len) ==> r is Ok,
        entry.size != Some(total_len) ==> r == Err::<(), _>(
            FsError::InvalidPayload(
                PayloadIssue::SizeMismatch {
                    path: entry.path,
                    expected: total_len,
                    reported: entry.size,
                },
            ),
        ),
{
    match entry.size {
        Some(n) => {
            if n == total_len {
                return Ok(());
            }
        },
        None => {},
    }
    Err(
        FsError::InvalidPayload(
            PayloadIssue::SizeMismatch {
                path: entry.path.clone(),
                expected: total_len,
                reported: entry.size,
            },
        ),
    )
}

/// The result of an upload of `total_len` bytes, given the record that the
/// service answered with: its entry when the entry's size is exactly
/// `total_len`, an integrity failure otherwise.
pub open spec fn upload_verdict(c: Contents, total_len: u64) -> Result<Entry, FsError> {
    if entry_of(c).size == Some(total_len) {
        Ok(entry_of(c))
    } else {
        Err(
            FsError::InvalidPayload(
                PayloadIssue::SizeMismatch {
                    path: c.path,
                    expected: total_len,
                    reported: entry_of(c).size,
                },
            ),
        )
    }
}

/// Checks the answer to an upload of `total_len` bytes.
pub fn upload_response(contents: Contents, total_len: u64) -> (r: Result<Entry, FsError>)
    ensures
        r == upload_verdict(contents, total_len),
{
    let entry = Entry::from(contents);
    match check_uploaded(&entry, total_len) {
        Ok(()) => Ok(entry),
        Err(e) => Err(e),
    }
}

/// One piece of a chunked upload: the bytes `start..end` of the payload,
/// sent with `index`.
#[derive(Debug, Clone, Copy, PartialEq, Eq, Structural)]
pub struct ChunkSpec {
    pub start: usize,
    pub end: usize,
    pub index: i64,
}

/// `plan` cuts `total` bytes into consecutive pieces of `chunk_size` bytes,
/// the last one possibly shorter (and empty only when there are no bytes),
/// numbered from 1 except the last, which carries -1.
pub open spec fn is_chunk_plan(plan: Seq<ChunkSpec>, total: nat, chunk_size: nat) -> bool {
    &&& plan.len() >= 1
    &&& plan[0].start == 0
    &&& plan.last().end == total
    &&& forall|k: int| 0 <= k < plan.len() - 1 ==> #[trigger] plan[k].end == plan[k + 1].start
    &&& forall|k: int| 0 <= k < plan.len() - 1 ==> #[trigger] plan[k].end == plan[k].start + chunk_size
    &&& plan.last().start <= plan.last().end <= plan.last().start + chunk_size
    &&& (total > 0 ==> plan.last().start < plan.last().end)
    &&& forall|k: int| 0 <= k < plan.len() - 1 ==> #[trigger] plan[k].index == k + 1
    &&& plan.last().index == -1
}

/// Cuts a payload of `total` bytes into the pieces of a chunked upload.
pub fn chunk_plan(total: usize, chunk_size: u64) -> (r: Vec<ChunkSpec>)
    requires
        chunk_size >= 1,
        total < usize::MAX / 2,
    ensures
        is_chunk_plan(r@, total as nat, chunk_size as nat),
{
    let mut plan: Vec<ChunkSpec> = Vec::new();
    let mut offset: usize = 0;
    let mut idx: i64 = 1;
    loop
        invariant
            offset <= total < usize::MAX / 2,
            chunk_size >= 1,
            idx == plan@.len() + 1,
            plan@.len() <= offset,
            plan@.len() == 0 ==> offset == 0,
            plan@.len() > 0 ==> plan@[0].start == 0 && plan@.last().end == offset && 0 < offset < total,
            forall|k: int| 0 <= k < plan@.len() - 1 ==> #[trigger] plan@[k].end == plan@[k + 1].start,
            forall|k: int| 0 <= k < plan@.len() ==> #[trigger] plan@[k].end == plan@[k].start + chunk_size,
            forall|k: int| 0 <= k < plan@.len() ==> #[trigger] plan@[k].index == k + 1,
        ensures
            is_chunk_plan(plan@, total as nat, chunk_size as nat),
        decreases total - offset,
    {
        let remaining = total - offset;
        if remaining as u64 <= chunk_size {
            let ghost before = plan@;
            plan.push(ChunkSpec { start: offset, end: total, index: -1 });
            assert forall|k: int| 0 <= k < plan@.len() - 1 implies #[trigger] plan@[k].end == plan@[k + 1].start by {
                if k + 1 < before.len() {
                    assert(plan@[k] == before[k] && plan@[k + 1] == before[k + 1]);
                } else {
                    assert(plan@[k] == before.last());
                }
            }
            assert forall|k: int| 0 <= k < plan@.len() - 1 implies #[trigger] plan@[k].end == plan@[k].start + chunk_size by {
                assert(plan@[k] == before[k]);
            }
            assert forall|k: int| 0 <= k < plan@.len() - 1 implies #[trigger] plan@[k].index == k + 1 by {
                assert(plan@[k] == before[k]);
            }
            return plan;
        }
        let end = offset + chunk_size as usize;
        let ghost before = plan@;
        plan.push(ChunkSpec { start: offset, end, index: idx });
        assert forall|k: int| 0 <= k < plan@.len() - 1 implies #[trigger] plan@[k].end == plan@[k + 1].start by {
            if k + 1 < before.len() {
                assert(plan@[k] == before[k] && plan@[k + 1] == before[k + 1]);
            } else {
                assert(plan@[k] == before.last());
            }
        }
        assert forall|k: int| 0 <= k < plan@.len() implies #[trigger] plan@[k].end == plan@[k].start + chunk_size by {
            if k < before.len() {
                assert(plan@[k] == before[k]);
            }
        }
        assert forall|k: int| 0 <= k < plan@.len() implies #[trigger] plan@[k].index == k + 1 by {
            if k < before.len() {
                assert(plan@[k] == before[k]);
            }
        }
        offset = end;
        idx = idx + 1;
    }
}

/// The bytes `start..end` of `data`.
pub fn chunk_bytes(data: &[u8], start: usize, end: usize) -> (r: Vec<u8>)
    requires
        start <= end <= data@.len(),
    ensures
        r@ == data@.subrange(start as int, end as int),
{
    let mut out: Vec<u8> = Vec::new();
    let mut i: usize = start;
    while i < end
        invariant
            start <= i <= end <= data@.len(),
            out@ == data@.subrange(start as int, i as int),
        decreases end - i,
    {
        out.push(data[i]);
        assert(out@ =~= data@.subrange(start as int, i + 1));
        i = i + 1;
    }
    out
}

/// The save request for one piece of a chunked upload of `data`.
pub fn chunk_model(data: &[u8], chunk: &ChunkSpec) -> (r: SaveContentsModel)
    requires
        chunk.start <= chunk.end <= data@.len(),
        data@.len() < usize::MAX / 2,
    ensures
        r.name is None,
        r.path is None,
        r.entry_type == Some(ContentsEntryType::File),
        r.format == Some(ContentsFormat::Base64),
        r.content matches Some(c) && c@ == base64_encoding(data@.subrange(chunk.start as int, chunk.end as int))
            && base64_decoding(c@) == Some(data@.subrange(chunk.start as int, chunk.end as int)),
        r.chunk == Some(chunk.index),
{
    let piece = chunk_bytes(data, chunk.start, chunk.end);
    upload_model(piece.as_slice(), Some(chunk.index))
}

/// The format name of base64 payloads.
pub open spec fn base64_format_name() -> Seq<char> {
    seq!['b', 'a', 's', 'e', '6', '4']
}

/// What a text payload in `format` (plain text when none is given) decodes to.
pub open spec fn text_payload_bytes(format: Option<Seq<char>>, text: Seq<char>) -> Option<Seq<u8>> {
    if format == Some(base64_format_name()) {
        base64_decoding(trim_white(text))
    } else {
        Some(vstd::utf8::encode_utf8(text))
    }
}

/// The bytes of a file payload: base64 text is decoded (once trimmed of
/// white space), any other text is taken as UTF-8; a listing is refused.
pub fn decode_file_bytes(format: Option<&str>, payload: ContentValue) -> (r: Result<Vec<u8>, FsError>)
    ensures
        match payload {
            ContentValue::Contents(_) => r == Err::<Vec<u8>, _>(FsError::InvalidPayload(PayloadIssue::FileExpected)),
            ContentValue::Text(data) => match text_payload_bytes(
                match format {
                    Some(f) => Some(f@),
                    None => None,
                },
                data@,
            ) {
                Some(b) => r matches Ok(v) && v@ == b,
                None => r matches Err(FsError::Decode(_)),
            },
        },
{
    match payload {
        ContentValue::Text(data) => {
            let is_base64 = match format {
                Some(f) => {
                    proof {
                        reveal_strlit("base64");
                    }
                    assert("base64"@ =~= base64_format_name());
                    str_eq(f, "base64")
                },
                None => false,
            };
            if is_base64 {
                match base64_decode(trim_whitespace(data.as_str())) {
                    Ok(v) => Ok(v),
                    Err(e) => Err(FsError::Decode(e)),
                }
            } else {
                Ok(data.as_str().as_bytes_vec())
            }
        },
        ContentValue::Contents(_) => Err(FsError::InvalidPayload(PayloadIssue::FileExpected)),
    }
}

/// The entry of a record with its content left out.
pub open spec fn without_content(c: Contents) -> Contents {
    Contents { content: None, ..c }
}

/// The file that a fetch with content yields: refused for a directory or
/// when the content is missing, otherwise the record's entry and its decoded
/// bytes.
pub fn download_response(contents: Contents) -> (r: Result<FileContent, FsError>)
    ensures
        contents.content_type@ == directory_type_name() ==> r == Err::<FileContent, _>(FsError::NotAFile(contents.path)),
        contents.content_type@ != directory_type_name() && contents.content is None ==> r == Err::<FileContent, _>(
            FsError::MissingContent(contents.path),
        ),
        contents.content_type@ != directory_type_name() ==> (contents.content matches Some(payload) ==> match payload {
            ContentValue::Contents(_) => r == Err::<FileContent, _>(FsError::InvalidPayload(PayloadIssue::FileExpected)),
            ContentValue::Text(data) => match text_payload_bytes(
                match contents.format {
                    Some(f) => Some(f@),
                    None => None,
                },
                data@,
            ) {
                Some(b) => r matches Ok(f) && f.bytes@ == b && f.entry == entry_of(contents),
                None => r matches Err(FsError::Decode(_)),
            },
        }),
{
    let file_like = EntryKind::from_content_type(contents.content_type.as_str()).is_file_like();
    if !file_like {
        return Err(FsError::NotAFile(contents.path));
    }
    let ghost orig = contents;
    let mut contents = contents;
    let payload = match contents.content.take() {
        Some(p) => p,
        None => return Err(FsError::MissingContent(contents.path)),
    };
    assert(contents == without_content(orig));
    let bytes = match &contents.format {
        Some(f) => decode_file_bytes(Some(f.as_str()), payload),
        None => decode_file_bytes(None, payload),
    };
    let bytes = match bytes {
        Ok(b) => b,
        Err(e) => return Err(e),
    };
    let entry = Entry::from(contents);
    Ok(FileContent { entry, bytes })
}

/// The range that a download from `start` asks for: everything from `start`
/// on, or no range at all from the beginning.
pub open spec fn range_for_offset(start: u64) -> Option<(u64, Option<u64>)> {
    if start > 0 {
        Some((start, None))
    } else {
        None
    }
}

/// The range of a download from `start`.
pub fn range_from_offset(start: u64) -> (r: Option<(u64, Option<u64>)>)
    ensures
        r == range_for_offset(start),
{
    if start > 0 {
        Some((start, None))
    } else {
        None
    }
}

/// The text of an HTTP byte-range header: `bytes=<start>-<end-1>` for a
/// bounded range, `bytes=<start>-` for an open one.
pub open spec fn range_header(start: nat, end: Option<nat>) -> Seq<char> {
    let prefix = seq!['b', 'y', 't', 'e', 's', '='] + decimal(start) + seq!['-'];
    match end {
        Some(e) => prefix + decimal((e - 1) as nat),
        None => prefix,
    }
}

/// The byte-range header for a range, or an empty text for none.
pub fn byte_range_header(range: Option<(u64, Option<u64>)>) -> (r: String)
    requires
        range matches Some((_, Some(e))) ==> e >= 1,
    ensures
        range is None ==> r@.len() == 0,
        range matches Some((s, None)) ==> r@ == range_header(s as nat, None),
        range matches Some((s, Some(e))) ==> r@ == range_header(s as nat, Some(e as nat)),
{
    match range {
        None => String::new(),
        Some((start, end)) => {
            proof {
                reveal_strlit("bytes=");
                reveal_strlit("-");
            }
            let mut r = String::from_str("bytes=");
            r.append(decimal_string(start).as_str());
            r.append("-");
            assert("bytes="@ =~= seq!['b', 'y', 't', 'e', 's', '=']);
            assert("-"@ =~= seq!['-']);
            match end {
                Some(e) => {
                    r.append(decimal_string(e - 1).as_str());
                },
                None => {},
            }
            r
        },
    }
}

/// The bytes of a file from `start` on: none when `start` lies past its end.
pub open spec fn bytes_from(bytes: Seq<u8>, start: nat) -> Option<Seq<u8>> {
    if start <= bytes.len() {
        Some(bytes.skip(start as int))
    } else {
        None
    }
}

/// The bytes of a file from `start` on, once the whole file was fetched:
/// the first `start` bytes are dropped, and an offset past the end fails.
pub fn skip_to_offset(content: FileContent, start: u64, path: &str) -> (r: Result<FileContent, FsError>)
    ensures
        bytes_from(content.bytes@, start as nat) matches Some(b) ==> (r matches Ok(f) && f.entry
            == content.entry && f.bytes@ == b),
        start > content.bytes@.len() ==> (r matches Err(
            FsError::InvalidPayload(PayloadIssue::OffsetBeyondEnd { path: p, offset, len }),
        ) && p@ == path@ && offset == start && len == content.bytes@.len()),
{
    let FileContent { entry, mut bytes } = content;
    let len = bytes.len();
    if start > len as u64 {
        return Err(
            FsError::InvalidPayload(
                PayloadIssue::OffsetBeyondEnd {
                    path: String::from_str(path),
                    offset: start,
                    len: len as u64,
                },
            ),
        );
    }
    let tail = bytes.split_off(start as usize);
    Ok(FileContent { entry, bytes: tail })
}

/// What a hash lookup yields: the algorithm the server used and its digest,
/// refused for a directory or when either is missing.
pub fn remote_hash_response(contents: Contents) -> (r: Result<(String, String), FsError>)
    ensures
        contents.content_type@ == directory_type_name() ==> r == Err::<(String, String), _>(FsError::NotAFile(contents.path)),
        contents.content_type@ != directory_type_name() ==> match (contents.hash, contents.hash_algorithm) {
            (None, _) => r == Err::<(String, String), _>(
                FsError::InvalidPayload(PayloadIssue::MissingHash { path: contents.path }),
            ),
            (Some(_), None) => r == Err::<(String, String), _>(
                FsError::InvalidPayload(PayloadIssue::MissingHashAlgorithm { path: contents.path }),
            ),
            (Some(d), Some(a)) => r == Ok::<(String, String), FsError>((a, d)),
        },
{
    let file_like = EntryKind::from_content_type(contents.content_type.as_str()).is_file_like();
    let Contents { path, hash, hash_algorithm, .. } = contents;
    if !file_like {
        return Err(FsError::NotAFile(path));
    }
    let digest = match hash {
        Some(d) => d,
        None => return Err(FsError::InvalidPayload(PayloadIssue::MissingHash { path })),
    };
    let algorithm = match hash_algorithm {
        Some(a) => a,
        None => return Err(FsError::InvalidPayload(PayloadIssue::MissingHashAlgorithm { path })),
    };
    Ok((algorithm, digest))
}

/// The name of the SHA-256 algorithm.
pub open spec fn sha256_name() -> Seq<char> {
    seq!['s', 'h', 'a', '2', '5', '6']
}

/// The server's digest, when the lookup succeeded and the server used
/// SHA-256 (named in any case); otherwise the digest must be computed here.
pub fn server_sha256(remote: Result<(String, String), FsError>) -> (r: Option<String>)
    ensures
        match remote {
            Ok((a, d)) => if eq_ignore_ascii_case_spec(a@, sha256_name()) {
                r == Some(d)
            } else {
                r is None
            },
            Err(_) => r is None,
        },
{
    match remote {
        Ok((algorithm, digest)) => {
            proof {
                reveal_strlit("sha256");
            }
            assert("sha256"@ =~= sha256_name());
            if eq_ignore_ascii_case(algorithm.as_str(), "sha256") {
                Some(digest)
            } else {
                None
            }
        },
        Err(_) => None,
    }
}

/// The SHA-256 digest of a file's bytes, in lower-case hexadecimal.
pub fn sha256_hex(bytes: &[u8]) -> (r: String)
    ensures
        r@ == hex_of(sha256_digest(bytes@)),
        r@.len() == 64,
{
    let digest = sha256(bytes);
    let r = hex_lower(digest.as_slice());
    proof {
        lemma_hex_len(digest@);
    }
    r
}

proof fn lemma_hex_len(b: Seq<u8>)
    ensures
        hex_of(b).len() == 2 * b.len(),
    decreases b.len(),
{
    if b.len() > 0 {
        lemma_hex_len(b.drop_last());
    }
}

/// The save request that creates a directory.
pub fn mkdir_model() -> (r: SaveContentsModel)
    ensures
        r.entry_type == Some(ContentsEntryType::Directory),
        r.name is None && r.path is None && r.format is None && r.content is None && r.chunk is None,
{
    SaveContentsModel {
        name: None,
        path: None,
        entry_type: Some(ContentsEntryType::Directory),
        format: None,
        content: None,
        chunk: None,
    }
}

/// The rename request that moves an entry to `to`: the new path without
/// one leading slash.
pub fn rename_model(to: &str) -> (r: RenameContentsModel)
    ensures
        r.path@ == drop_leading_slash(to@),
{
    RenameContentsModel { path: String::from_str(trim_leading_slash(to)) }
}

/// Whether a directory may be removed, given the record that `rmdir`
/// fetched: it must be a directory, and a listing that came with it must be
/// empty.
pub open spec fn rmdir_verdict(c: Contents) -> Result<(), FsError> {
    if c.content_type@ != directory_type_name() {
        Err(FsError::NotADirectory(c.path))
    } else {
        match c.content {
            Some(ContentValue::Contents(children)) => if children@.len() > 0 {
                Err(FsError::InvalidPayload(PayloadIssue::NotEmpty { path: c.path }))
            } else {
                Ok(())
            },
            _ => Ok(()),
        }
    }
}

/// Checks a fetched record before a directory is removed.
pub fn rmdir_check(contents: &Contents) -> (r: Result<(), FsError>)
    ensures
        r == rmdir_verdict(*contents),
{
    let dir = EntryKind::from_content_type(contents.content_type.as_str()).is_directory();
    if !dir {
        return Err(FsError::NotADirectory(contents.path.clone()));
    }
    match &contents.content {
        Some(ContentValue::Contents(children)) => {
            if children.len() > 0 {
                return Err(FsError::InvalidPayload(PayloadIssue::NotEmpty { path: contents.path.clone() }));
            }
        },
        _ => {},
    }
    Ok(())
}

} // verus!
