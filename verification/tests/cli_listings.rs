use banyan_cli::cli::access::{
    access_listing, access_request_check, access_rows, already_granted, current_keys, lookup_name, revoke_decision, AccessMask, DriveKey, NamedKey,
    RevokeDecision,
};
use banyan_cli::cli::commands::{DriveOperationCommand, DrivesCommand};
use banyan_cli::cli::display::Persistence as KeptAt;
use banyan_cli::cli::helpers::{account_info_row, pulled_drive_folder, remote_key_with_name, rename_target};
use banyan_cli::cli::keys::{conflicts, key_rows, matched_pairs, LocalKey, RemoteKey};
use banyan_cli::cli::listing::{creation_name, drive_rows, info_row, platform_drive_with_name, PlatformDrive};
use banyan_cli::cli::Persistence;
use banyan_cli::config::GlobalConfig;
use banyan_cli::error::{ConfigStateError, NativeError};

fn pd(id: &str, name: &str) -> PlatformDrive {
    PlatformDrive { id: id.to_string(), name: name.to_string() }
}

fn mask(owner: bool, protected: bool, historical: bool) -> AccessMask {
    AccessMask { owner, filesystem: true, data: true, maintenance: false, protected, historical }
}

#[test]
fn drive_listing_orders_sync_local_platform() {
    let mut g = GlobalConfig::new();
    g.set_path(&"a".to_string(), &"/d/a".to_string());
    g.set_path(&"b".to_string(), &"/d/b".to_string());
    let locals = vec!["a".to_string(), "b".to_string()];
    let platform = vec![pd("id-b", "b"), pd("id-c", "c")];
    let rows = drive_rows(&locals, &platform, &g).unwrap();
    let view: Vec<(String, String, String, Persistence)> =
        rows.into_iter().map(|r| (r.name, r.id, r.path, r.persistence)).collect();
    assert_eq!(
        view,
        vec![
            ("b".to_string(), "id-b".to_string(), "/d/b".to_string(), Persistence::Sync),
            ("a".to_string(), "N/A".to_string(), "/d/a".to_string(), Persistence::LocalOnly),
            ("c".to_string(), "id-c".to_string(), "N/A".to_string(), Persistence::PlatformOnly),
        ]
    );
    assert_eq!(Persistence::PlatformOnly.label(), "Platform Only");
    assert_eq!(KeptAt::RemoteOnly.label(), "Remote Only");
}

#[test]
fn drive_listing_needs_every_folder() {
    let g = GlobalConfig::new();
    match drive_rows(&vec!["lost".to_string()], &vec![], &g) {
        Err(ConfigStateError::LostPath(id)) => assert_eq!(id, "lost"),
        other => panic!("unexpected {:?}", other),
    }
}

#[test]
fn drive_info_and_creation() {
    let p = pd("id-x", "x");
    let path = "/d/x".to_string();
    let r = info_row(&"x".to_string(), Some(&p), Some(&path)).unwrap();
    assert_eq!((r.name.as_str(), r.id.as_str(), r.path.as_str(), r.persistence), ("x", "id-x", "/d/x", KeptAt::Sync));
    let r = info_row(&"x".to_string(), Some(&p), None).unwrap();
    assert_eq!((r.path.as_str(), r.persistence), ("N/A", KeptAt::RemoteOnly));
    let r = info_row(&"x".to_string(), None, Some(&path)).unwrap();
    assert_eq!((r.name.as_str(), r.id.as_str()), ("x", "N/A"));
    assert!(matches!(info_row(&"x".to_string(), None, None), Err(ConfigStateError::MissingDrive(d)) if d == "x"));

    let platform = vec![pd("1", "taken")];
    assert_eq!(creation_name(&"/home/new".to_string(), &vec![], &platform).unwrap(), Some("new".to_string()));
    assert_eq!(creation_name(&"/home/taken".to_string(), &vec![], &platform).unwrap(), None);
    assert_eq!(creation_name(&"/home/mine".to_string(), &vec!["mine".to_string()], &platform).unwrap(), None);
    assert!(matches!(creation_name(&"/".to_string(), &vec![], &platform), Err(ConfigStateError::ExpectedPath(p)) if p == "/"));
    assert_eq!(platform_drive_with_name(&platform, "taken").unwrap().id, "1");
    assert!(platform_drive_with_name(&platform, "other").is_none());
}

fn lk(name: &str, fp: &str, pk: Option<&str>) -> LocalKey {
    LocalKey { name: name.to_string(), fingerprint: fp.to_string(), public_key: pk.map(|s| s.to_string()) }
}

fn rk(name: &str, fp: &str) -> RemoteKey {
    RemoteKey {
        name: name.to_string(),
        user_id: "user".to_string(),
        fingerprint: fp.to_string(),
        api_access: true,
        public_key: format!("pk-{}", fp),
    }
}

#[test]
fn key_listing_pairs_by_fingerprint() {
    let locals = vec![lk("laptop", "f1", Some("pk1")), lk("old", "f2", Some("pk2")), lk("solo", "f3", Some("pk3"))];
    let remotes = vec![rk("laptop", "f1"), rk("renamed", "f2"), rk("web", "f9")];
    assert_eq!(matched_pairs(&locals, &remotes), vec![(0, 0), (1, 1)]);
    assert_eq!(conflicts(&locals, &remotes), vec![(1, 1)]);
    let rows = key_rows(&locals, &remotes, &vec![false], &Some("solo".to_string())).unwrap();
    let names: Vec<(String, KeptAt)> = rows.iter().map(|r| (r.name.clone(), r.persistence)).collect();
    assert_eq!(
        names,
        vec![
            ("laptop".to_string(), KeptAt::Sync),
            ("renamed".to_string(), KeptAt::Sync),
            ("solo".to_string(), KeptAt::LocalOnly),
            ("web".to_string(), KeptAt::RemoteOnly),
        ]
    );
    let marked: Vec<bool> = rows.iter().map(|r| r.selected).collect();
    assert_eq!(marked, vec![false, false, true, false]);
    assert_eq!(rows[2].user_id, "N/A");
    assert_eq!(rows[2].public_key, "pk3");
    let kept_local = key_rows(&locals, &remotes, &vec![true], &None).unwrap();
    assert_eq!(kept_local[1].name, "old");
    assert!(kept_local.iter().all(|r| !r.selected));
}

#[test]
fn key_listing_needs_public_keys() {
    let locals = vec![lk("broken", "f1", None)];
    match key_rows(&locals, &vec![], &vec![], &None) {
        Err(NativeError::Custom(m)) => assert_eq!(m, "Spki"),
        other => panic!("unexpected {:?}", other),
    }
}

#[test]
fn access_listing_and_decisions() {
    let named = vec![
        NamedKey { name: "first".to_string(), fingerprint: "f1".to_string() },
        NamedKey { name: "second".to_string(), fingerprint: "f1".to_string() },
    ];
    assert_eq!(lookup_name(&named, &"f1".to_string()), "second");
    assert_eq!(lookup_name(&named, &"zz".to_string()), "Unknown");
    let keys = vec![
        DriveKey { fingerprint: "f1".to_string(), public_key: "p1".to_string(), mask: mask(true, true, false) },
        DriveKey { fingerprint: "f2".to_string(), public_key: "p2".to_string(), mask: mask(false, false, false) },
    ];
    let rows = access_rows(&named, &keys);
    assert_eq!(rows.len(), 2);
    assert_eq!(rows[0].name, "second");
    assert!(rows[0].owner && rows[0].filesystem && !rows[0].maintenance);
    assert_eq!(rows[1].name, "Unknown");
    assert!(already_granted(&keys, &"f1".to_string(), mask(true, true, false)));
    assert!(!already_granted(&keys, &"f1".to_string(), mask(false, false, false)));
    assert_eq!(revoke_decision(&keys, &"f1".to_string()), RevokeDecision::Protected);
    assert_eq!(revoke_decision(&keys, &"f2".to_string()), RevokeDecision::Revoke);
    assert_eq!(revoke_decision(&keys, &"f3".to_string()), RevokeDecision::Missing);
    let current = current_keys(vec![("a", mask(false, false, false)), ("b", mask(false, false, true)), ("c", mask(true, false, false))]);
    assert_eq!(current, vec!["a", "c"]);
}

#[test]
fn helpers_for_commands() {
    let mut g = GlobalConfig::new();
    assert_eq!(account_info_row(&g), ("None".to_string(), "None".to_string()));
    g.set_account_id(0x0123_4567_89ab_cdef_0123_4567_89ab_cdef);
    g.select_user_key_id("primary".to_string());
    assert_eq!(
        account_info_row(&g),
        ("01234567-89ab-cdef-0123-456789abcdef".to_string(), "primary".to_string())
    );
    assert_eq!(pulled_drive_folder("/home/u", "drive"), "/home/u/banyan/drive");
    assert_eq!(rename_target("/home/u/old", "new"), "/home/u/new");
    let remotes = vec![rk("a", "f1"), rk("b", "f2"), rk("b", "f3")];
    assert_eq!(remote_key_with_name(&remotes, &"b".to_string()).unwrap(), 1);
    match remote_key_with_name(&remotes, &"z".to_string()) {
        Err(NativeError::Custom(m)) => assert_eq!(m, "missing usrkey"),
        other => panic!("unexpected {:?}", other),
    }
}

#[test]
fn drive_commands_map_to_operations() {
    let op = DrivesCommand::Rm { name: "d".to_string() }.drive_operation().unwrap();
    assert_eq!(op.0, "d");
    assert!(matches!(op.1, DriveOperationCommand::Delete));
    let op = DrivesCommand::Rename { name: "d".to_string(), new_name: "e".to_string() }.drive_operation().unwrap();
    assert!(matches!(op.1, DriveOperationCommand::Rename { new_name } if new_name == "e"));
    let op = DrivesCommand::Prepare { name: "d".to_string() }.drive_operation().unwrap();
    assert!(matches!(op.1, DriveOperationCommand::Prepare { follow_links: false }));
    assert!(DrivesCommand::Ls.drive_operation().is_none());
    assert!(DrivesCommand::Create { path: "/x".to_string() }.drive_operation().is_none());
}

#[test]
fn key_listing_without_local_keys_is_empty() {
    let remotes = vec![rk("web", "f9")];
    assert!(key_rows(&vec![], &remotes, &vec![], &None).unwrap().is_empty());
}

#[test]
fn access_requests() {
    assert_eq!(access_listing(&vec![]), "");
    assert_eq!(access_listing(&vec!["k1".to_string(), "k2".to_string()]), "\n\nk1\n\nk2");
    let requested = vec!["f1".to_string(), "f2".to_string()];
    let missing = access_request_check(false, &requested, &"f1".to_string()).unwrap_err();
    assert_eq!(missing.message()[0].text, "Unable to find a remote Drive with that query");
    let again = access_request_check(true, &requested, &"f2".to_string()).unwrap_err();
    assert_eq!(again.message()[0].text, "You've already requested access on this Bucket!");
    assert!(access_request_check(true, &requested, &"f3".to_string()).is_ok());
}

#[test]
fn conflicts_follow_the_matched_order() {
    let locals = vec![lk("a", "f1", Some("p")), lk("same", "f2", Some("p")), lk("c", "f3", Some("p"))];
    let remotes = vec![rk("z", "f3"), rk("same", "f2"), rk("y", "f1"), rk("x", "f1")];
    assert_eq!(matched_pairs(&locals, &remotes), vec![(0, 2), (0, 3), (1, 1), (2, 0)]);
    assert_eq!(conflicts(&locals, &remotes), vec![(0, 2), (0, 3), (2, 0)]);
}
