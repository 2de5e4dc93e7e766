use jupyter_shell::entry::{Entry, EntryKind};
use jupyter_shell::executor::{
    download_child_step, download_destination, download_source_step, found_entry, local_join, remote_directory_step,
    upload_child_step, upload_destination, upload_source_step, DestinationPlan, LocalKind,
    UploadStep,
};
use jupyter_shell::fs::{ClientError, FsError};
use jupyter_shell::paths::{
    absolute_entry_path, file_name_of, join_remote_paths, normalize_remote_path,
    normalize_request_path, trim_leading_slash,
};
use jupyter_shell::plan::{
    determine_transfer_plan, ensure_host_alignment, parse_operand, parse_operands,
    split_remote_spec, split_user_and_host, trim_ipv6_brackets, LocalOperand, Operand,
    RemoteOperand, TransferError, TransferPlan,
};

fn ops(values: &[&str]) -> Vec<String> {
    values.iter().map(|s| s.to_string()).collect()
}

fn remote(raw: &str) -> RemoteOperand {
    match parse_operand(raw) {
        Operand::Remote(r) => r,
        Operand::Local(_) => panic!("{raw} should be remote"),
    }
}

fn local(raw: &str) -> LocalOperand {
    match parse_operand(raw) {
        Operand::Local(l) => l,
        Operand::Remote(_) => panic!("{raw} should be local"),
    }
}

fn entry(name: &str, kind: EntryKind) -> Entry {
    Entry {
        name: name.into(),
        path: name.into(),
        kind,
        writable: true,
        created: None,
        last_modified: None,
        size: None,
        mimetype: None,
        hash: None,
        hash_algorithm: None,
    }
}

#[test]
fn normalize_handles_relative_segments() {
    assert_eq!(normalize_request_path(""), "/");
    assert_eq!(normalize_request_path("/"), "/");
    assert_eq!(normalize_request_path("folder/child"), "/folder/child");
    assert_eq!(normalize_request_path("/folder/./child"), "/folder/child");
    assert_eq!(normalize_request_path("/folder/../child"), "/child");
    assert_eq!(normalize_request_path("../../nested"), "/nested");
}

#[test]
fn remote_path_normalization() {
    assert_eq!(normalize_remote_path("/a/b/"), "/a/b");
    assert_eq!(normalize_remote_path("a//b/./c/.."), "/a/b");
    assert_eq!(normalize_remote_path(".."), "/");
    assert_eq!(normalize_remote_path("..."), "/...");
    assert_eq!(normalize_remote_path(""), "/");
}

#[test]
fn operand_parsing_examples() {
    let r = remote("user@host:/a/b");
    assert_eq!(r.host.as_deref(), Some("host"));
    assert_eq!(r.normalized, "/a/b");
    assert!(!r.explicit_dir);
    assert_eq!(r.raw, "user@host:/a/b");

    let l = local("./local/file");
    assert_eq!(l.path, "./local/file");
    assert!(!l.explicit_dir);

    let v6 = remote("[::1]:/x");
    assert_eq!(v6.host.as_deref(), Some("::1"));
    assert_eq!(v6.normalized, "/x");
}

#[test]
fn operand_directory_markers() {
    let r = remote("host:/dir/");
    assert!(r.explicit_dir);
    assert_eq!(r.normalized, "/dir");
    let r = remote("host:");
    assert!(r.explicit_dir);
    assert_eq!(r.normalized, "/");
    let r = remote(":rel/path");
    assert_eq!(r.host, None);
    assert_eq!(r.normalized, "/rel/path");
    let r = remote("a@b@c:x");
    assert_eq!(r.host.as_deref(), Some("c"));
    let r = remote("user@:x");
    assert_eq!(r.host, None);
    assert!(local("dir/").explicit_dir);
}

#[test]
fn remote_spec_splitting() {
    assert_eq!(split_remote_spec("h:/p"), Some(("h".to_string(), "/p".to_string())));
    assert_eq!(split_remote_spec("[a:b]:c:d"), Some(("[a:b]".to_string(), "c:d".to_string())));
    assert_eq!(split_remote_spec("[a:b]"), None);
    assert_eq!(split_remote_spec("]:x"), Some(("]".to_string(), "x".to_string())));
    assert_eq!(split_remote_spec("plain"), None);
    assert_eq!(split_user_and_host(""), (None, None));
    assert_eq!(split_user_and_host("host"), (None, Some("host")));
    assert_eq!(split_user_and_host("u@x@host"), (Some("u@x"), Some("host")));
    assert_eq!(trim_ipv6_brackets("[[::1]]"), "::1");
}

#[test]
fn parse_operands_splits_sources_and_destination() {
    let (sources, dest) = parse_operands(&ops(&["x", "y"])).unwrap();
    assert_eq!(sources.len(), 1);
    assert!(matches!(&sources[0], Operand::Local(l) if l.raw == "x"));
    assert!(matches!(dest, Operand::Local(l) if l.raw == "y"));
    assert_eq!(parse_operands(&[]).unwrap_err(), TransferError::TooFewOperands);
}

#[test]
fn download_children_land_under_their_names() {
    let step = download_child_step("/data", "out", &entry("f.txt", EntryKind::File));
    assert_eq!(step.remote, "/data/f.txt");
    assert_eq!(step.local, "out/f.txt");
    assert!(!step.is_dir);
    let step = download_child_step("/", "out/", &entry("sub", EntryKind::Directory));
    assert_eq!(step.remote, "/sub");
    assert_eq!(step.local, "out/sub");
    assert!(step.is_dir);
}

#[test]
fn parse_operands_needs_two() {
    assert_eq!(parse_operands(&ops(&["only"])).unwrap_err(), TransferError::TooFewOperands);
    let (sources, dest) = parse_operands(&ops(&["a.txt", "b.txt", "host:/dir/"])).unwrap();
    assert_eq!(sources.len(), 2);
    assert!(matches!(dest, Operand::Remote(_)));
}

#[test]
fn plan_upload_of_two_files() {
    let (sources, dest) = parse_operands(&ops(&["a.txt", "b.txt", "host:/dir/"])).unwrap();
    let plan = determine_transfer_plan(sources, dest).unwrap();
    assert_eq!(plan.label(), "upload");
    assert_eq!(plan.source_count(), 2);
    match plan {
        TransferPlan::Upload { sources, destination } => {
            assert_eq!(sources[0].raw, "a.txt");
            assert_eq!(sources[1].raw, "b.txt");
            assert!(destination.explicit_dir);
            assert_eq!(destination.normalized, "/dir");
        }
        TransferPlan::Download { .. } => panic!("expected an upload"),
    }
}

#[test]
fn plan_download() {
    let (sources, dest) = parse_operands(&ops(&["host:/a", "host:/b", "out/"])).unwrap();
    let plan = determine_transfer_plan(sources, dest).unwrap();
    assert_eq!(plan.label(), "download");
    assert_eq!(plan.source_count(), 2);
}

#[test]
fn plan_rejects_mixed_sources() {
    for dest in ["host:/dir/", "localdir/"] {
        let (sources, d) = parse_operands(&ops(&["a.txt", "host:/b", dest])).unwrap();
        assert!(determine_transfer_plan(sources, d).is_err());
        let (sources, d) = parse_operands(&ops(&["host:/b", "a.txt", dest])).unwrap();
        assert!(determine_transfer_plan(sources, d).is_err());
    }
    let (sources, d) = parse_operands(&ops(&["a.txt", "host:/b", "host:/dir/"])).unwrap();
    assert_eq!(
        determine_transfer_plan(sources, d).unwrap_err(),
        TransferError::RemoteToRemote { source: "host:/b".into() }
    );
    let (sources, d) = parse_operands(&ops(&["host:/b", "a.txt", "out"])).unwrap();
    assert_eq!(
        determine_transfer_plan(sources, d).unwrap_err(),
        TransferError::LocalToLocal { source: "a.txt".into(), destination: "out".into() }
    );
    assert_eq!(
        determine_transfer_plan(vec![], parse_operand("h:/x")).unwrap_err(),
        TransferError::NoSources
    );
}

#[test]
fn host_alignment_only_warns_on_mismatch() {
    assert!(ensure_host_alignment(Some("example.org"), &remote("u@EXAMPLE.org:/x")));
    assert!(ensure_host_alignment(Some("example.org"), &remote("remote:/x")));
    assert!(ensure_host_alignment(Some("example.org"), &remote(":/x")));
    assert!(ensure_host_alignment(None, &remote("other:/x")));
    assert!(!ensure_host_alignment(Some("example.org"), &remote("other:/x")));
}

#[test]
fn path_joins_and_trims() {
    assert_eq!(join_remote_paths("/", "/f.txt/"), "/f.txt");
    assert_eq!(join_remote_paths("/dir//", "f.txt"), "/dir/f.txt");
    assert_eq!(trim_leading_slash("//a/b"), "/a/b");
    assert_eq!(trim_leading_slash("/a/b"), "a/b");
    assert_eq!(trim_leading_slash("a/b"), "a/b");
    assert_eq!(trim_leading_slash(""), "");
    assert_eq!(absolute_entry_path(""), "/");
    assert_eq!(absolute_entry_path("/x/y"), "/x/y");
    assert_eq!(absolute_entry_path("a//b/"), "/a/b");
    assert_eq!(local_join("out", "f"), "out/f");
    assert_eq!(local_join("out/", "f"), "out/f");
    assert_eq!(local_join("", "f"), "f");
    assert_eq!(local_join("out", "/abs"), "/abs");
}

#[test]
fn local_basenames() {
    assert_eq!(file_name_of("dir/file.txt").as_deref(), Some("file.txt"));
    assert_eq!(file_name_of("dir/sub/").as_deref(), Some("sub"));
    assert_eq!(file_name_of("dir/.").as_deref(), Some("dir"));
    assert_eq!(file_name_of("dir/.."), None);
    assert_eq!(file_name_of("/"), None);
    assert_eq!(file_name_of("."), None);
    assert_eq!(local("a/b.txt").basename().unwrap(), "b.txt");
    assert_eq!(
        local("..").basename().unwrap_err(),
        TransferError::NoFileName { source: "..".into() }
    );
}

#[test]
fn upload_destination_rules() {
    let dir = remote("h:/dir/");
    let plain = remote("h:/file");
    let existing_dir = entry("dir", EntryKind::Directory);
    let existing_file = entry("file", EntryKind::File);
    assert_eq!(
        upload_destination(&dir, None, 1).unwrap(),
        DestinationPlan { is_dir: true, create: true }
    );
    assert_eq!(
        upload_destination(&plain, None, 1).unwrap(),
        DestinationPlan { is_dir: false, create: false }
    );
    assert_eq!(
        upload_destination(&plain, None, 2).unwrap(),
        DestinationPlan { is_dir: true, create: true }
    );
    assert_eq!(
        upload_destination(&plain, Some(&existing_dir), 1).unwrap(),
        DestinationPlan { is_dir: true, create: false }
    );
    assert_eq!(
        upload_destination(&dir, Some(&existing_file), 1).unwrap_err(),
        TransferError::DestinationNotDirectory { destination: "h:/dir/".into() }
    );
    assert_eq!(
        upload_destination(&plain, Some(&existing_file), 2).unwrap_err(),
        TransferError::MultipleSourcesNeedDirectory { destination: "h:/file".into() }
    );
    assert_eq!(upload_destination(&plain, None, 0).unwrap_err(), TransferError::NoSources);
}

#[test]
fn upload_source_steps() {
    let dest = remote("h:/dir/");
    let src = local("some/a.txt");
    assert_eq!(
        upload_source_step(&src, LocalKind::File, false, &dest, true).unwrap(),
        UploadStep::File { remote: "/dir/a.txt".into() }
    );
    assert_eq!(
        upload_source_step(&src, LocalKind::File, false, &dest, false).unwrap(),
        UploadStep::File { remote: "/dir".into() }
    );
    assert_eq!(
        upload_source_step(&src, LocalKind::Directory, false, &dest, true).unwrap_err(),
        TransferError::IsADirectory { source: "some/a.txt".into() }
    );
    assert_eq!(
        upload_source_step(&src, LocalKind::Directory, true, &dest, true).unwrap(),
        UploadStep::Directory { remote: "/dir/a.txt".into() }
    );
    assert_eq!(
        upload_source_step(&src, LocalKind::Other, true, &dest, true).unwrap_err(),
        TransferError::NotFileOrDirectory { source: "some/a.txt".into() }
    );
    assert_eq!(
        upload_child_step("/dir", "x", LocalKind::Directory, "tree/x").unwrap(),
        UploadStep::Directory { remote: "/dir/x".into() }
    );
    assert_eq!(
        upload_child_step("/dir", "x", LocalKind::Other, "tree/x").unwrap_err(),
        TransferError::NotFileOrDirectory { source: "tree/x".into() }
    );
}

#[test]
fn remote_directory_creation() {
    assert_eq!(remote_directory_step("/", None), Ok(false));
    assert_eq!(remote_directory_step("/d", None), Ok(true));
    assert_eq!(remote_directory_step("/d", Some(&entry("d", EntryKind::Directory))), Ok(false));
    assert_eq!(
        remote_directory_step("/d", Some(&entry("d", EntryKind::File))),
        Err(TransferError::RemoteNotDirectory { path: "/d".into() })
    );
    let nf = FsError::Client(ClientError::Api { status: 404, message: "gone".into() });
    assert!(matches!(found_entry(Err(nf)), Ok(None)));
    let other = FsError::Client(ClientError::Api { status: 500, message: "x".into() });
    assert!(found_entry(Err(other)).is_err());
    assert!(matches!(found_entry(Ok(entry("d", EntryKind::File))), Ok(Some(_))));
}

#[test]
fn download_destination_rules() {
    let dir = local("out/");
    let plain = local("out");
    assert_eq!(
        download_destination(&dir, None, 1).unwrap(),
        DestinationPlan { is_dir: true, create: true }
    );
    assert_eq!(
        download_destination(&plain, Some(LocalKind::Directory), 1).unwrap(),
        DestinationPlan { is_dir: true, create: false }
    );
    assert_eq!(
        download_destination(&plain, Some(LocalKind::File), 1).unwrap(),
        DestinationPlan { is_dir: false, create: false }
    );
    assert_eq!(
        download_destination(&dir, Some(LocalKind::File), 1).unwrap_err(),
        TransferError::DestinationNotDirectory { destination: "out/".into() }
    );
    assert_eq!(
        download_destination(&plain, Some(LocalKind::File), 2).unwrap_err(),
        TransferError::MultipleSourcesNeedDirectory { destination: "out".into() }
    );
}

#[test]
fn download_source_steps() {
    let src = remote("h:/data/f.txt");
    let dest = local("out");
    let f = entry("f.txt", EntryKind::File);
    let d = entry("data", EntryKind::Directory);
    let step = download_source_step(&src, Some(&f), &dest, true, false).unwrap();
    assert_eq!(step.local, "out/f.txt");
    assert!(!step.is_dir);
    let step = download_source_step(&src, Some(&f), &dest, false, false).unwrap();
    assert_eq!(step.local, "out");
    assert_eq!(
        download_source_step(&src, Some(&d), &dest, true, false).unwrap_err(),
        TransferError::IsADirectory { source: "h:/data/f.txt".into() }
    );
    assert!(download_source_step(&src, Some(&d), &dest, true, true).unwrap().is_dir);
    assert_eq!(
        download_source_step(&src, None, &dest, true, true).unwrap_err(),
        TransferError::RemoteMissing { source: "h:/data/f.txt".into() }
    );
}
