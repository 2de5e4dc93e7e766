use jupyter_shell::adapter::{
    cwd_check, map_client_error, map_fs_error, FsMetadata, StorageErrorKind,
};
use jupyter_shell::base_path::{is_frontend_route, normalize_path, sanitize_base_path};
use jupyter_shell::client::{url_path_parts, Segment};
use jupyter_shell::entry::{Entry, EntryKind};
use jupyter_shell::fs::{ClientError, FsError, PayloadIssue};
use jupyter_shell::model::Timestamp;
use jupyter_shell::terminal::{
    command_input, retry_delay_ms, InputMessage, OutputMessage, TerminalCallResult,
};

#[test]
fn metadata_reflects_entry_kind() {
    let now = Timestamp { secs: 1_700_000_000, nanos: 0 };
    let entry = Entry {
        name: "sample".into(),
        path: "sample".into(),
        kind: EntryKind::Directory,
        writable: true,
        created: Some(now),
        last_modified: Some(now),
        size: Some(10),
        mimetype: None,
        hash: None,
        hash_algorithm: None,
    };
    let metadata = FsMetadata::from(entry.clone());
    assert!(metadata.is_dir());
    assert!(!metadata.is_file());
    assert_eq!(metadata.permissions(), 0o755);

    let mut file_entry = entry;
    file_entry.kind = EntryKind::File;
    file_entry.writable = false;
    let file_meta = FsMetadata::from(file_entry);
    assert!(!file_meta.is_dir());
    assert!(file_meta.is_file());
    assert_eq!(file_meta.permissions(), 0o555);
}

#[test]
fn metadata_fields() {
    let created = Timestamp { secs: 5, nanos: 1 };
    let entry = Entry {
        name: "f".into(),
        path: "f".into(),
        kind: EntryKind::File,
        writable: true,
        created: Some(created),
        last_modified: None,
        size: None,
        mimetype: None,
        hash: None,
        hash_algorithm: None,
    };
    let meta = FsMetadata::from(entry);
    assert_eq!(meta.len(), 0);
    assert_eq!(meta.modified(), Some(created));
    assert!(!meta.is_symlink());
    assert_eq!((meta.uid(), meta.gid()), (0, 0));
    assert_eq!(cwd_check(&meta.entry), Err(StorageErrorKind::PermanentDirectoryNotAvailable));
}

#[test]
fn error_statuses() {
    let api = |status| ClientError::Api { status, message: String::new() };
    assert_eq!(map_client_error(&api(404)), StorageErrorKind::PermanentFileNotAvailable);
    assert_eq!(map_client_error(&api(401)), StorageErrorKind::PermissionDenied);
    assert_eq!(map_client_error(&api(403)), StorageErrorKind::PermissionDenied);
    assert_eq!(map_client_error(&api(409)), StorageErrorKind::PermanentDirectoryNotEmpty);
    assert_eq!(map_client_error(&api(500)), StorageErrorKind::LocalError);
    assert_eq!(map_client_error(&ClientError::Http("reset".into())), StorageErrorKind::LocalError);
    assert_eq!(map_fs_error(&FsError::NotAFile("x".into())), StorageErrorKind::PermanentFileNotAvailable);
    assert_eq!(
        map_fs_error(&FsError::NotADirectory("x".into())),
        StorageErrorKind::PermanentDirectoryNotAvailable
    );
    assert_eq!(
        map_fs_error(&FsError::InvalidPayload(PayloadIssue::NotEmpty { path: "d".into() })),
        StorageErrorKind::LocalError
    );
    assert_eq!(
        map_fs_error(&FsError::NotImplemented("append".into())),
        StorageErrorKind::CommandNotImplemented
    );
}

#[test]
fn base_paths() {
    assert_eq!(sanitize_base_path("/user/me/lab/tree/x"), "/user/me/");
    assert_eq!(sanitize_base_path("/lab"), "/");
    assert_eq!(sanitize_base_path(""), "/");
    assert_eq!(sanitize_base_path("//a//b/"), "/a/b/");
    assert_eq!(normalize_path("api"), "/api/");
    assert_eq!(normalize_path("//"), "/");
    assert!(is_frontend_route("notebooks"));
    assert!(!is_frontend_route("api"));
}

#[test]
fn url_segments() {
    let segs = vec![
        Segment::literal("api".into()),
        Segment::literal("contents".into()),
        Segment::path_allow_empty("/a//b/".into()),
    ];
    assert_eq!(url_path_parts(&segs), vec!["api", "contents", "a", "b"]);
    let segs = vec![Segment::literal("files".into()), Segment::path_allow_empty("/".into())];
    assert_eq!(url_path_parts(&segs), vec!["files", ""]);
    let segs = vec![Segment::literal("api".into()), Segment::path("".into())];
    assert_eq!(url_path_parts(&segs), vec!["api"]);
}

#[test]
fn terminal_frames() {
    assert_eq!(InputMessage::Stdin("ls\n".into()).to_json(), "[\"stdin\",\"ls\\n\"]");
    assert_eq!(InputMessage::Stdin("a\"b".into()).to_json(), "[\"stdin\",\"a\\\"b\"]");
    assert_eq!(
        InputMessage::Resize { cols: 80, rows: 24 }.to_json(),
        "[\"set_size\",80,24,800,600]"
    );
    assert_eq!(
        OutputMessage::from_parts(Some("stdout"), Some("hi"), None),
        Some(OutputMessage::Stdout("hi".into()))
    );
    assert_eq!(
        OutputMessage::from_parts(Some("stdout"), None, Some(3)),
        Some(OutputMessage::Stdout(String::new()))
    );
    assert_eq!(OutputMessage::from_parts(Some("setup"), None, None), Some(OutputMessage::Init {}));
    assert_eq!(
        OutputMessage::from_parts(Some("disconnect"), None, Some(2)),
        Some(OutputMessage::Disconnect(2))
    );
    assert_eq!(
        OutputMessage::from_parts(Some("disconnect"), None, None),
        Some(OutputMessage::Disconnect(0))
    );
    assert_eq!(OutputMessage::from_parts(Some("bogus"), None, None), None);
    assert_eq!(OutputMessage::from_parts(None, None, None), None);
}

#[test]
fn terminal_call_bookkeeping() {
    let mut result = TerminalCallResult::new();
    assert!(!result.record(OutputMessage::Init {}));
    assert!(!result.record(OutputMessage::Stdout("1test".into())));
    assert!(!result.record(OutputMessage::Stdout("aaaZ_1".into())));
    assert!(result.record(OutputMessage::Disconnect(0)));
    assert_eq!(result.stdout, "1testaaaZ_1");
    assert_eq!(result.disconnect_code, Some(0));
    assert_eq!(command_input("echo hi"), "echo hi\n");
    assert_eq!(command_input("echo hi\n"), "echo hi\n");
    assert_eq!(retry_delay_ms(0), 50);
    assert_eq!(retry_delay_ms(3), 400);
    assert_eq!(retry_delay_ms(10), 51200);
    assert_eq!(retry_delay_ms(99), 51200);
}
