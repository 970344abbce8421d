use banyan_cli::error::NativeError;
use banyan_cli::file_scanning::SpiderMetadata;
use banyan_cli::fs_compression_encryption::copy_plan;
use banyan_cli::metadata_ops::{check_snapshot_root, metadata_listing};
use banyan_cli::operations::{
    enumerate_paths, file_step, push_follow_up, relative_components, restore_step, same_bytes, stale_paths, sync_outcome,
    DriveNode, FileStep, ReadOutcome, RestoreStep,
};
use banyan_cli::stores::{cid_as_path, contains_from_lookup, drive_cid_path, upload_content_length, DataStoreFailure, StoreLookup};
use banyan_cli::unpack::{unpack_step, UnpackKind, UnpackStep};

#[test]
fn relative_components_strip_the_origin() {
    let rel = relative_components("/home/u/drive", "/home/u/drive/docs/a.txt").unwrap();
    assert_eq!(rel, vec!["docs", "a.txt"]);
    assert!(relative_components("/home/u/drive", "/home/u/drive").unwrap().is_empty());
    match relative_components("/home/u/drive", "/home/u/other/a.txt") {
        Err(NativeError::Custom(m)) => assert_eq!(m, "Strip Prefix: prefix not found"),
        other => panic!("unexpected {:?}", other),
    }
    assert!(relative_components("/a/b/c", "/a/b").is_err());
}

#[test]
fn joined_entry_is_recovered_by_stripping() {
    let place = banyan_cli::paths::join_path("/srv/drive", "notes.md");
    assert_eq!(relative_components("/srv/drive", &place).unwrap(), vec!["notes.md"]);
}

#[test]
fn file_steps_compare_content_identifiers() {
    let fresh = vec![1u8, 2, 3];
    assert_eq!(file_step(&None, &fresh), FileStep::WriteNew);
    assert_eq!(file_step(&Some(vec![1, 2, 3]), &fresh), FileStep::Unchanged);
    assert_eq!(file_step(&Some(vec![1, 2, 4]), &fresh), FileStep::Rewrite);
    assert_eq!(file_step(&Some(vec![1, 2]), &fresh), FileStep::Rewrite);
    assert!(same_bytes(&vec![], &vec![]));
    assert!(!same_bytes(&vec![0], &vec![]));
}

#[test]
fn stale_paths_are_those_missing_on_disk() {
    let paths = vec!["a".to_string(), "b/c".to_string(), "d".to_string()];
    assert_eq!(stale_paths(&paths, &vec![true, false, false]), vec!["b/c", "d"]);
    assert!(stale_paths(&paths, &vec![true, true, true]).is_empty());
}

#[test]
fn restore_steps() {
    match restore_step("/out", "docs/a.txt", ReadOutcome::Data, false) {
        RestoreStep::WriteFile(t) => assert_eq!(t, "/out/docs/a.txt"),
        _ => panic!("expected a write"),
    }
    match restore_step("/out", "docs", ReadOutcome::NotReadable, false) {
        RestoreStep::MakeDirectory(t) => assert_eq!(t, "/out/docs"),
        _ => panic!("expected a directory"),
    }
    assert!(matches!(restore_step("/out", "docs", ReadOutcome::NotReadable, true), RestoreStep::Nothing));
    match restore_step("/out", "x", ReadOutcome::Failed("boom".to_string()), false) {
        RestoreStep::Fail(NativeError::Operation(m)) => assert_eq!(m, "boom"),
        _ => panic!("expected a failure"),
    }
}

#[test]
fn enumerating_a_drive_tree() {
    let tree = vec![
        DriveNode::File("top.txt".to_string()),
        DriveNode::Directory(
            "docs".to_string(),
            vec![
                DriveNode::File("a.md".to_string()),
                DriveNode::Directory("deep".to_string(), vec![DriveNode::File("b.md".to_string())]),
                DriveNode::Other("link".to_string()),
            ],
        ),
        DriveNode::Directory("empty".to_string(), vec![]),
    ];
    assert_eq!(enumerate_paths("", &tree), vec!["top.txt", "docs/a.md", "docs/deep/b.md"]);
    assert_eq!(enumerate_paths("/root", &tree)[2], "/root/docs/deep/b.md");
}

#[test]
fn unpacking_steps() {
    let kind = UnpackKind::File {
        compression_info: "ZSTD".to_string(),
        chunk_locations: vec!["c0".to_string(), "c1".to_string()],
    };
    match unpack_step("/packed", "/out", "dir/file.bin", &kind, false) {
        UnpackStep::WriteFile { target, folder, chunks } => {
            assert_eq!(target, "/out/dir/file.bin");
            assert_eq!(folder, "/out/dir");
            assert_eq!(chunks, vec!["/packed/c0", "/packed/c1"]);
        }
        _ => panic!("expected a file write"),
    }
    match unpack_step("/packed", "/out", "dir/file.bin", &kind, true) {
        UnpackStep::AlreadyThere(t) => assert_eq!(t, "/out/dir/file.bin"),
        _ => panic!("expected a skip"),
    }
    match unpack_step("/packed", "/out", "dir", &UnpackKind::Directory, false) {
        UnpackStep::MakeDirectory(t) => assert_eq!(t, "/out/dir"),
        _ => panic!("expected a directory"),
    }
    match unpack_step("/packed", "/out", "ln", &UnpackKind::Symlink("/target".to_string()), false) {
        UnpackStep::Link { link, target } => {
            assert_eq!(link, "/out/ln");
            assert_eq!(target, "/target");
        }
        _ => panic!("expected a link"),
    }
}

#[test]
fn metadata_listing_and_snapshot_check() {
    assert_eq!(metadata_listing(&vec![]), "\n");
    assert_eq!(metadata_listing(&vec!["m1".to_string(), "m2".to_string()]), "\n\n\nm1\n\nm2");
    assert!(check_snapshot_root(&Some("bafy".to_string()), &"bafy".to_string()).is_ok());
    let err = check_snapshot_root(&Some("bafx".to_string()), &"bafy".to_string()).unwrap_err();
    assert_eq!(err.message()[0].text, "this is the wrong metadata");
    assert!(check_snapshot_root(&None, &"bafy".to_string()).is_err());
}

#[test]
fn store_paths_and_lookups() {
    assert_eq!(cid_as_path("abc"), "/abc.bin");
    assert_eq!(drive_cid_path("drive", "abc"), "/drive/abc");
    assert_eq!(upload_content_length(100), 646);
    assert_eq!(contains_from_lookup(StoreLookup::Found), Ok(true));
    assert_eq!(contains_from_lookup(StoreLookup::NotFound), Ok(false));
    assert_eq!(contains_from_lookup(StoreLookup::Failed), Err(DataStoreFailure::LookupFailure));
}

#[test]
fn scanning_and_copy_plans() {
    let m = SpiderMetadata::new("/root/in", "/root/in/a/b.txt", "/root/in/a/b.txt".to_string());
    assert_eq!(m.bfs_path, vec!["a", "b.txt"]);
    assert_eq!(m.canonicalized_path, "/root/in/a/b.txt");
    let guidelines = vec![((0u64, 10u64), "/tmp/p0".to_string()), ((10, 20), "/tmp/p1".to_string())];
    let plan = copy_plan("/root/in", "file.bin", &guidelines, 1);
    assert_eq!(plan.segment, (10, 20));
    assert_eq!(plan.source, "/root/in/file.bin");
    assert_eq!(plan.destination, "/tmp/p1");
}

#[test]
fn after_a_metadata_push() {
    let f = push_follow_up(Some("https://host".to_string()), Some("grant".to_string()));
    assert_eq!(f.sync_host, Some("https://host".to_string()));
    assert_eq!(f.grant, Some(("https://host".to_string(), "grant".to_string())));
    let f = push_follow_up(Some("https://host".to_string()), None);
    assert_eq!(f.sync_host, Some("https://host".to_string()));
    assert_eq!(f.grant, None);
    let f = push_follow_up(None, Some("grant".to_string()));
    assert_eq!(f.sync_host, None);
    assert_eq!(f.grant, None);
    assert!(sync_outcome(true).is_ok());
    match sync_outcome(false) {
        Err(NativeError::Custom(m)) => assert_eq!(m, "failed to sync data store to remotes"),
        other => panic!("unexpected {:?}", other),
    }
}
