use banyan_cli::paths::{join_path, name_of, parent_path, path_components, render_components, same_path};
use banyan_cli::tracker::{BlockTracker, CborSyncTracker, DiskSyncTracker};

#[test]
fn components_of_paths() {
    assert_eq!(path_components("/a//b/./c/"), vec!["/", "a", "b", "c"]);
    assert_eq!(path_components("./x/y"), vec![".", "x", "y"]);
    assert_eq!(path_components("x/../y"), vec!["x", "..", "y"]);
    assert!(path_components("").is_empty());
}

#[test]
fn joining_and_naming() {
    assert_eq!(join_path("/home/u", "docs"), "/home/u/docs");
    assert_eq!(join_path("/home/u/", "docs"), "/home/u/docs");
    assert_eq!(join_path("/home/u", "/etc"), "/etc");
    assert_eq!(join_path("", "docs"), "docs");
    assert_eq!(name_of("/home/u/file.txt"), Some("file.txt".to_string()));
    assert_eq!(name_of("/"), None);
    assert_eq!(name_of("a/.."), None);
    // A joined name is the file name of the result.
    assert_eq!(name_of(&join_path("/any/where/", "leaf")), Some("leaf".to_string()));
}

#[test]
fn parents_and_sameness() {
    assert_eq!(parent_path("/home/u/docs"), Some("/home/u".to_string()));
    assert_eq!(parent_path("/home"), Some("/".to_string()));
    assert_eq!(parent_path("/"), None);
    assert_eq!(parent_path("docs"), Some("".to_string()));
    assert!(same_path("/a/b/", "/a//b"));
    assert!(!same_path("/a/b", "a/b"));
    let cs = vec!["/".to_string(), "x".to_string(), "y".to_string()];
    assert_eq!(render_components(&cs), "/x/y");
}

#[test]
fn tracking_keeps_first_size_and_untrack_undoes() {
    let mut t = BlockTracker::new();
    t.track("cid1".to_string(), 10);
    t.track("cid2".to_string(), 5);
    t.track("cid1".to_string(), 99);
    assert_eq!(t.tracked_cids(), vec!["cid1", "cid2"]);
    assert_eq!(t.tracked_size(), 15);
    assert_eq!(t.tracked_blocks(), vec![("cid1".to_string(), 10), ("cid2".to_string(), 5)]);
    t.untrack(&"cid1".to_string());
    assert_eq!(t.tracked_cids(), vec!["cid2"]);
    assert_eq!(t.tracked_size(), 5);
    t.untrack(&"missing".to_string());
    assert_eq!(t.tracked_size(), 5);
}

#[test]
fn deletions_are_recorded_once_and_cleared() {
    let mut t = BlockTracker::new();
    t.delete("a".to_string());
    t.delete("b".to_string());
    t.delete("a".to_string());
    assert_eq!(t.deleted_cids(), vec!["a", "b"]);
    t.track("c".to_string(), 1);
    t.clear_deleted();
    assert!(t.deleted_cids().is_empty());
    assert_eq!(t.tracked_cids(), vec!["c"]);
}

#[test]
fn sync_trackers_forward_to_their_blocks() {
    let mut d = DiskSyncTracker::new(&"drive".to_string());
    d.track("x".to_string(), 3);
    d.delete("y".to_string());
    assert_eq!(d.drive_id, "drive");
    assert_eq!(d.tracked_cids(), vec!["x"]);
    assert_eq!(d.tracked_size(), 3);
    assert_eq!(d.deleted_cids(), vec!["y"]);
    d.untrack(&"x".to_string());
    d.clear_deleted();
    assert!(d.tracked_cids().is_empty());
    assert!(d.deleted_cids().is_empty());

    let mut c = CborSyncTracker::new();
    c.track("p".to_string(), 7);
    c.track("q".to_string(), 8);
    assert_eq!(c.tracked_size(), 15);
    c.delete("p".to_string());
    assert_eq!(c.deleted_cids(), vec!["p"]);
    c.untrack(&"p".to_string());
    assert_eq!(c.tracked_cids(), vec!["q"]);
}
