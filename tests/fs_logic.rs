use base64::engine::general_purpose::STANDARD;
use base64::Engine as _;

use jupyter_shell::codec::hex_lower;
use jupyter_shell::entry::{Entry, EntryKind};
use jupyter_shell::fs::{
    byte_range_header, check_uploaded, chunk_model, chunk_plan, decode_file_bytes,
    download_response, is_not_found, ls_params, ls_response, metadata_params, mkdir_model,
    range_from_offset, remote_hash_response, rename_model, rmdir_check, rmdir_params,
    server_sha256, sha256_hex, skip_to_offset, upload_model, upload_response, ClientError,
    FileContent, FsError, PayloadIssue,
};
use jupyter_shell::model::{ContentValue, Contents, ContentsEntryType, ContentsFormat};

fn sample_contents(kind: &str) -> Contents {
    Contents {
        name: "example".into(),
        path: "example".into(),
        content_type: kind.into(),
        writable: true,
        created: None,
        last_modified: None,
        size: Some(42),
        mimetype: Some("text/plain".into()),
        content: None,
        format: Some("text".into()),
        hash: Some("abc".into()),
        hash_algorithm: Some("sha256".into()),
    }
}

fn file_record(name: &str, path: &str, size: Option<u64>) -> Contents {
    Contents {
        name: name.into(),
        path: path.into(),
        content_type: "file".into(),
        writable: true,
        created: None,
        last_modified: None,
        size,
        mimetype: None,
        content: None,
        format: None,
        hash: None,
        hash_algorithm: None,
    }
}

fn dir_record(path: &str, children: Option<Vec<Contents>>) -> Contents {
    Contents {
        name: path.rsplit('/').next().unwrap_or("").into(),
        path: path.into(),
        content_type: "directory".into(),
        writable: true,
        created: None,
        last_modified: None,
        size: None,
        mimetype: None,
        content: children.map(ContentValue::Contents),
        format: Some("json".into()),
        hash: None,
        hash_algorithm: None,
    }
}

#[test]
fn fs_entry_kind_mapping() {
    assert!(EntryKind::from_content_type("directory").is_directory());
    assert!(EntryKind::from_content_type("file").is_file_like());
}

#[test]
fn fs_entry_from_contents_transfers_metadata() {
    let entry = Entry::from(sample_contents("file"));
    assert_eq!(entry.kind, EntryKind::File);
    assert_eq!(entry.size, Some(42));
    assert_eq!(entry.mimetype.as_deref(), Some("text/plain"));
    assert_eq!(entry.hash_algorithm.as_deref(), Some("sha256"));
}

#[test]
fn fs_decode_base64_payload_to_bytes() {
    let encoded = STANDARD.encode("payload");
    let bytes = decode_file_bytes(Some("base64"), ContentValue::Text(encoded)).unwrap();
    assert_eq!(bytes, b"payload");
    let bytes = decode_file_bytes(Some("base64"), ContentValue::Text("MTIz".into())).unwrap();
    assert_eq!(bytes, b"123");
}

#[test]
fn fs_decode_text_payload_to_bytes() {
    let bytes = decode_file_bytes(Some("text"), ContentValue::Text("hello".into())).unwrap();
    assert_eq!(bytes, b"hello");
}

#[test]
fn directory_entries_have_no_size() {
    let mut rec = dir_record("d", Some(vec![]));
    rec.size = Some(5);
    let entry = Entry::from(rec);
    assert_eq!(entry.kind, EntryKind::Directory);
    assert_eq!(entry.size, None);
    let mut child = dir_record("d/sub", None);
    child.size = Some(7);
    let listed = ls_response(dir_record("d", Some(vec![child]))).unwrap();
    assert_eq!(listed[0].size, None);
    assert_eq!(Entry::from(file_record("f", "f", Some(5))).size, Some(5));
}

#[test]
fn upload_bodies_decode_to_the_payload() {
    let data = b"some bytes to send".to_vec();
    let model = upload_model(&data, None);
    assert_eq!(STANDARD.decode(model.content.unwrap()).unwrap(), data);
}

#[test]
fn entry_kind_keeps_unknown_type_names() {
    assert_eq!(EntryKind::from_content_type("notebook"), EntryKind::Notebook);
    assert_eq!(EntryKind::from_content_type("file"), EntryKind::File);
    assert_eq!(EntryKind::from_content_type("Directory"), EntryKind::Other("Directory".into()));
    assert!(EntryKind::Other("x".into()).is_file_like());
    assert!(!EntryKind::Directory.is_file_like());
}

#[test]
fn decode_base64_trims_white_space_and_reports_bad_input() {
    let bytes = decode_file_bytes(Some("base64"), ContentValue::Text(" MTIz\n".into())).unwrap();
    assert_eq!(bytes, b"123");
    let err = decode_file_bytes(Some("base64"), ContentValue::Text("M!Iz".into())).unwrap_err();
    assert!(matches!(err, FsError::Decode(_)));
    let bytes = decode_file_bytes(None, ContentValue::Text("héllo".into())).unwrap();
    assert_eq!(bytes, "héllo".as_bytes());
    let err = decode_file_bytes(Some("text"), ContentValue::Contents(vec![])).unwrap_err();
    assert!(matches!(err, FsError::InvalidPayload(PayloadIssue::FileExpected)));
}

#[test]
fn upload_succeeds_only_on_matching_size() {
    let ok = upload_response(file_record("a.txt", "d/a.txt", Some(5)), 5).unwrap();
    assert_eq!(ok.name, "a.txt");
    assert_eq!(ok.size, Some(5));
    let err = upload_response(file_record("a.txt", "d/a.txt", Some(4)), 5).unwrap_err();
    match err {
        FsError::InvalidPayload(PayloadIssue::SizeMismatch { path, expected, reported }) => {
            assert_eq!(path, "d/a.txt");
            assert_eq!(expected, 5);
            assert_eq!(reported, Some(4));
        }
        other => panic!("unexpected {:?}", other),
    }
    let err = upload_response(file_record("a.txt", "d/a.txt", None), 5).unwrap_err();
    assert!(matches!(err, FsError::InvalidPayload(PayloadIssue::SizeMismatch { reported: None, .. })));
    let entry = Entry::from(file_record("e", "e", Some(0)));
    assert!(check_uploaded(&entry, 0).is_ok());
    assert!(check_uploaded(&entry, 1).is_err());
}

#[test]
fn upload_model_sends_base64_file() {
    let model = upload_model(b"hello", None);
    assert_eq!(model.content.as_deref(), Some("aGVsbG8="));
    assert_eq!(model.entry_type, Some(ContentsEntryType::File));
    assert_eq!(model.format, Some(ContentsFormat::Base64));
    assert_eq!(model.chunk, None);
    assert_eq!(upload_model(b"", Some(-1)).content.as_deref(), Some(""));
}

fn reassemble(data: &[u8], chunk: u64) -> (Vec<u8>, Vec<i64>) {
    let plan = chunk_plan(data.len(), chunk);
    let mut out = Vec::new();
    let mut indices = Vec::new();
    for piece in &plan {
        let model = chunk_model(data, piece);
        out.extend(STANDARD.decode(model.content.unwrap()).unwrap());
        indices.push(model.chunk.unwrap());
    }
    (out, indices)
}

#[test]
fn chunked_upload_rebuilds_payload() {
    let data = b"The quick brown fox jumps over the lazy dog".to_vec();
    let (out, indices) = reassemble(&data, 10);
    assert_eq!(out, data);
    assert_eq!(indices, vec![1, 2, 3, 4, -1]);
    let (out, indices) = reassemble(&data, 1000);
    assert_eq!(out, data);
    assert_eq!(indices, vec![-1]);
    let (out, indices) = reassemble(&data, data.len() as u64);
    assert_eq!(out, data);
    assert_eq!(indices, vec![-1]);
    let (out, indices) = reassemble(&data, 1);
    assert_eq!(out, data);
    assert_eq!(indices.len(), data.len());
    assert_eq!(*indices.last().unwrap(), -1);
    let (out, indices) = reassemble(b"", 4);
    assert!(out.is_empty());
    assert_eq!(indices, vec![-1]);
}

#[test]
fn chunk_plan_cuts_exact_pieces() {
    let plan = chunk_plan(10, 4);
    let cuts: Vec<(usize, usize, i64)> = plan.iter().map(|c| (c.start, c.end, c.index)).collect();
    assert_eq!(cuts, vec![(0, 4, 1), (4, 8, 2), (8, 10, -1)]);
    let plan = chunk_plan(8, 4);
    let cuts: Vec<(usize, usize, i64)> = plan.iter().map(|c| (c.start, c.end, c.index)).collect();
    assert_eq!(cuts, vec![(0, 4, 1), (4, 8, -1)]);
}

#[test]
fn ls_lists_directory_children() {
    let listing = dir_record(
        "/d",
        Some(vec![file_record("f.txt", "d/f.txt", Some(3)), dir_record("d/sub", None)]),
    );
    let entries = ls_response(listing).unwrap();
    let names: Vec<&str> = entries.iter().map(|e| e.name.as_str()).collect();
    assert_eq!(names, vec!["f.txt", "sub"]);
    assert_eq!(entries[1].kind, EntryKind::Directory);

    let after_rm = ls_response(dir_record("/d", Some(vec![]))).unwrap();
    assert!(!after_rm.iter().any(|e| e.name == "f.txt"));
}

#[test]
fn ls_of_a_file_is_its_own_entry() {
    let entries = ls_response(file_record("f.txt", "d/f.txt", Some(3))).unwrap();
    assert_eq!(entries.len(), 1);
    assert_eq!(entries[0].path, "d/f.txt");
}

#[test]
fn ls_refuses_bad_directory_payloads() {
    let err = ls_response(dir_record("/d", None)).unwrap_err();
    assert!(matches!(err, FsError::MissingContent(p) if p == "/d"));
    let mut text = dir_record("/d", None);
    text.content = Some(ContentValue::Text("oops".into()));
    let err = ls_response(text).unwrap_err();
    assert!(matches!(err, FsError::InvalidPayload(PayloadIssue::ListingExpected { path }) if path == "/d"));
}

#[test]
fn fetch_options_per_verb() {
    assert_eq!(ls_params().content, Some(true));
    assert_eq!(metadata_params().content, Some(false));
    assert_eq!(rmdir_params(false), ls_params());
    assert_eq!(rmdir_params(true).content, Some(false));
    assert_eq!(mkdir_model().entry_type, Some(ContentsEntryType::Directory));
    assert_eq!(rename_model("//a/b").path, "/a/b");
    assert_eq!(rename_model("/a/b").path, "a/b");
    assert_eq!(rename_model("a/b").path, "a/b");
    assert_eq!(rename_model("/").path, "");
}

#[test]
fn rmdir_refuses_nonempty_then_accepts_empty() {
    let full = dir_record("test_dir", Some(vec![file_record("file.txt", "test_dir/file.txt", Some(5))]));
    let listed = ls_response(dir_record("test_dir", Some(vec![file_record("file.txt", "test_dir/file.txt", Some(5))]))).unwrap();
    assert_eq!(listed.len(), 1);
    assert_eq!(listed[0].name, "file.txt");
    let err = rmdir_check(&full).unwrap_err();
    assert!(matches!(err, FsError::InvalidPayload(PayloadIssue::NotEmpty { path }) if path == "test_dir"));
    assert!(rmdir_check(&dir_record("test_dir", Some(vec![]))).is_ok());
    assert!(rmdir_check(&dir_record("test_dir", None)).is_ok());
    let err = rmdir_check(&file_record("f", "f", Some(1))).unwrap_err();
    assert!(matches!(err, FsError::NotADirectory(p) if p == "f"));
}

#[test]
fn created_directory_reads_back_as_directory() {
    let model = mkdir_model();
    let name = model.entry_type.unwrap().as_str();
    let entry = Entry::from(dir_record("test_dir", None));
    assert_eq!(EntryKind::from_content_type(name), EntryKind::Directory);
    assert!(entry.kind.is_directory());
}

#[test]
fn download_response_decodes_payload() {
    let mut rec = file_record("hello.txt", "hello.txt", Some(3));
    rec.content = Some(ContentValue::Text("YWJj".into()));
    rec.format = Some("base64".into());
    let file = download_response(rec).unwrap();
    assert_eq!(file.bytes, b"abc");
    assert_eq!(file.entry.name, "hello.txt");
    let err = download_response(dir_record("d", Some(vec![]))).unwrap_err();
    assert!(matches!(err, FsError::NotAFile(p) if p == "d"));
    let err = download_response(file_record("x", "x", Some(1))).unwrap_err();
    assert!(matches!(err, FsError::MissingContent(p) if p == "x"));
}

#[test]
fn offset_download_keeps_the_tail() {
    let entry = Entry::from(file_record("f", "f", Some(3)));
    let full = FileContent { entry: entry.clone(), bytes: b"xyz".to_vec() };
    let tail = skip_to_offset(full.clone(), 1, "f").unwrap();
    assert_eq!(tail.bytes, full.bytes[1..].to_vec());
    assert_eq!(tail.bytes, b"yz");
    assert_eq!(skip_to_offset(full.clone(), 3, "f").unwrap().bytes, b"");
    assert_eq!(skip_to_offset(full.clone(), 0, "f").unwrap().bytes, b"xyz");
    let err = skip_to_offset(full, 4, "f").unwrap_err();
    assert!(matches!(
        err,
        FsError::InvalidPayload(PayloadIssue::OffsetBeyondEnd { offset: 4, len: 3, .. })
    ));
}

#[test]
fn byte_range_headers() {
    assert_eq!(range_from_offset(0), None);
    assert_eq!(range_from_offset(1), Some((1, None)));
    assert_eq!(byte_range_header(range_from_offset(1)), "bytes=1-");
    assert_eq!(byte_range_header(Some((1, Some(2)))), "bytes=1-1");
    assert_eq!(byte_range_header(Some((1234567890, Some(1234567900)))), "bytes=1234567890-1234567899");
    assert_eq!(byte_range_header(None), "");
}

#[test]
fn hash_prefers_server_sha256() {
    let rec = sample_contents("file");
    let remote = remote_hash_response(rec);
    assert_eq!(server_sha256(remote), Some("abc".to_string()));
    let mut upper = sample_contents("file");
    upper.hash_algorithm = Some("SHA256".into());
    assert_eq!(server_sha256(remote_hash_response(upper)), Some("abc".to_string()));
    let mut md5 = sample_contents("file");
    md5.hash_algorithm = Some("md5".into());
    assert_eq!(server_sha256(remote_hash_response(md5)), None);
    let mut missing = sample_contents("file");
    missing.hash = None;
    let err = remote_hash_response(missing).unwrap_err();
    assert!(matches!(err, FsError::InvalidPayload(PayloadIssue::MissingHash { .. })));
    let mut no_alg = sample_contents("file");
    no_alg.hash_algorithm = None;
    let err = remote_hash_response(no_alg).unwrap_err();
    assert!(matches!(err, FsError::InvalidPayload(PayloadIssue::MissingHashAlgorithm { .. })));
    let err = remote_hash_response(sample_contents("directory")).unwrap_err();
    assert!(matches!(err, FsError::NotAFile(_)));
}

#[test]
fn local_sha256_digest() {
    assert_eq!(
        sha256_hex(b"abc"),
        "ba7816bf8f01cfea414140de5dae2223b00361a396177a9cb410ff61f20015ad"
    );
    assert_eq!(
        sha256_hex(b""),
        "e3b0c44298fc1c149afbf4c8996fb92427ae41e4649b934ca495991b7852b855"
    );
    assert_eq!(hex_lower(&[0x00, 0x0f, 0xa0, 0xff]), "000fa0ff");
}

#[test]
fn not_found_is_recognised() {
    let nf = FsError::Client(ClientError::Api { status: 404, message: String::new() });
    assert!(is_not_found(&nf));
    let forbidden = FsError::Client(ClientError::Api { status: 403, message: String::new() });
    assert!(!is_not_found(&forbidden));
    assert!(!is_not_found(&FsError::NotAFile("x".into())));
}
