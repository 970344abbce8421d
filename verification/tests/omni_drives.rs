use banyan_cli::drive_model::{DriveType, LocalDrive, RemoteDrive, StorageClass, StorageTicket};
use banyan_cli::omni::{merge_drives, OmniDrive, OriginPlan, RemoteMetadata, SyncPlan, SyncProbe};
use banyan_cli::omni_ops::{
    deletion_report, download_report, may_create, record_push, refresh_report, storage_host, upload_report,
    ContentUpload,
};
use banyan_cli::specifiers::DriveSpecifier;
use banyan_cli::styled::{Color, Style};
use banyan_cli::sync_state::SyncState;

const ID: u128 = 0x0123_4567_89ab_cdef_0123_4567_89ab_cdef;
const ID_TEXT: &str = "01234567-89ab-cdef-0123-456789abcdef";

fn local(name: &str, origin: &str, remote_id: Option<u128>, meta: Option<&str>, content: Option<&str>) -> LocalDrive {
    LocalDrive {
        name: name.to_string(),
        origin: origin.to_string(),
        remote_id,
        metadata_root: meta.map(|s| s.to_string()),
        content_root: content.map(|s| s.to_string()),
        previous_cid: None,
        deleted_block_cids: vec![],
        storage_ticket: None,
    }
}

fn remote(id: u128, name: &str) -> RemoteDrive {
    RemoteDrive { id, name: name.to_string(), kind: DriveType::Interactive, storage_class: StorageClass::Hot }
}

fn texts(segs: &[banyan_cli::styled::Segment]) -> String {
    segs.iter().map(|s| s.text.clone()).collect()
}

#[test]
fn identifiers_of_drives() {
    let l = OmniDrive::from_local(&local("a", "/a", None, None, None));
    assert!(l.get_id().is_err());
    assert_eq!(l.sync_state, SyncState::Unpublished);
    let l2 = OmniDrive::from_local(&local("a", "/a", Some(7), None, None));
    assert_eq!(l2.get_id().unwrap(), 7);
    let r = OmniDrive::from_remote(&remote(9, "b"));
    assert_eq!(r.get_id().unwrap(), 9);
    assert_eq!(r.sync_state, SyncState::Unlocalized);
    assert!(r.get_local().is_err());
    assert_eq!(r.get_remote().unwrap().name, "b");
    assert_eq!(l.key(), None);
    assert_eq!(r.key(), Some(9));
}

#[test]
fn setting_copies() {
    let mut o = OmniDrive::from_remote(&remote(9, "b"));
    o.set_local(local("b", "/b", None, None, None));
    assert_eq!(o.get_local().unwrap().origin, "/b");
    o.set_remote(remote(10, "c"));
    assert_eq!(o.get_id().unwrap(), 10);
}

#[test]
fn sync_state_probe_scenarios() {
    // No identifier: unpublished.
    let unpublished = OmniDrive::from_local(&local("a", "/a", None, Some("m"), Some("c")));
    assert_eq!(unpublished.begin_sync_probe(), SyncProbe::Settled(SyncState::Unpublished));
    // Identifier, matching roots: all synced.
    let synced = OmniDrive::from_local(&local("a", "/a", Some(1), Some("m"), Some("c")));
    assert_eq!(synced.begin_sync_probe(), SyncProbe::FetchCurrent(1));
    let current = Some(RemoteMetadata { metadata_cid: "m".to_string(), root_cid: "c".to_string() });
    assert_eq!(synced.after_current_metadata(1, &current), SyncProbe::Settled(SyncState::AllSynced));
    // Same metadata, other content root: metadata synced.
    let other_root = Some(RemoteMetadata { metadata_cid: "m".to_string(), root_cid: "d".to_string() });
    assert_eq!(synced.after_current_metadata(1, &other_root), SyncProbe::Settled(SyncState::MetadataSynced));
    // Other metadata: look at all of them.
    let newer = Some(RemoteMetadata { metadata_cid: "n".to_string(), root_cid: "d".to_string() });
    assert_eq!(synced.after_current_metadata(1, &newer), SyncProbe::FetchAll(1));
    assert_eq!(synced.after_all_metadata(&vec!["x".to_string(), "m".to_string()]), SyncState::Behind);
    assert_eq!(synced.after_all_metadata(&vec!["x".to_string()]), SyncState::Ahead);
    // No current metadata on the platform: unpublished.
    assert_eq!(synced.after_current_metadata(1, &None), SyncProbe::Settled(SyncState::Unpublished));
    // Remote only: unlocalized.
    let remote_only = OmniDrive::from_remote(&remote(2, "r"));
    assert_eq!(remote_only.after_current_metadata(2, &current), SyncProbe::Settled(SyncState::Unlocalized));
}

#[test]
fn merging_lists_each_drive_once() {
    let locals = vec![local("a", "/a", Some(1), None, None), local("x", "/x", None, None, None)];
    let remotes = vec![remote(1, "a"), remote(2, "b")];
    let merged = merge_drives(&locals, &remotes);
    assert_eq!(merged.len(), 3);
    let paired = merged.iter().find(|o| o.key() == Some(1)).unwrap();
    assert!(paired.get_local().is_ok() && paired.get_remote().is_ok());
    let remote_only = merged.iter().find(|o| o.key() == Some(2)).unwrap();
    assert!(remote_only.get_local().is_err());
    let local_only = merged.iter().find(|o| o.key().is_none()).unwrap();
    assert_eq!(local_only.get_local().unwrap().name, "x");
}

#[test]
fn merging_lists_every_unpublished_drive() {
    let locals = vec![local("x", "/x", None, None, None), local("y", "/y", None, None, None)];
    let merged = merge_drives(&locals, &vec![]);
    assert_eq!(merged.len(), 2);
    assert_eq!(merged[0].get_local().unwrap().name, "x");
    assert_eq!(merged[1].get_local().unwrap().name, "y");
    assert!(merged.iter().all(|o| o.current_sync_state() == SyncState::Unpublished));
}

#[test]
fn sync_steps_move_the_state() {
    let mut o = OmniDrive::from_remote(&remote(1, "r"));
    o.finish_download(false);
    assert_eq!(o.current_sync_state(), SyncState::Unlocalized);
    o.finish_download(true);
    assert_eq!(o.current_sync_state(), SyncState::MetadataSynced);

    let mut up = OmniDrive::from_local(&local("a", "/a", Some(1), Some("m"), Some("c")));
    up.finish_upload(false);
    assert_eq!(up.current_sync_state(), SyncState::Unpublished);
    up.finish_upload(true);
    assert_eq!(up.current_sync_state(), SyncState::AllSynced);

    let mut re = OmniDrive::from_local(&local("a", "/a", Some(1), Some("meta"), Some("old")));
    re.sync_state = SyncState::MetadataSynced;
    re.finish_reconstruct(false).unwrap();
    assert_eq!(re.current_sync_state(), SyncState::MetadataSynced);
    assert_eq!(re.get_local().unwrap().content_root, Some("old".to_string()));
    re.finish_reconstruct(true).unwrap();
    assert_eq!(re.current_sync_state(), SyncState::AllSynced);
    assert_eq!(re.get_local().unwrap().content_root, Some("meta".to_string()));
    let mut no_root = OmniDrive::from_local(&local("a", "/a", Some(1), None, None));
    assert!(no_root.finish_reconstruct(true).is_err());
    let mut remote_only = OmniDrive::from_remote(&remote(1, "r"));
    assert!(remote_only.finish_reconstruct(true).is_err());
}

#[test]
fn refreshing_works_out_the_state() {
    let mut o = OmniDrive::from_local(&local("a", "/a", Some(1), Some("m"), Some("c")));
    o.sync_state = SyncState::Unknown;
    let current = Some(RemoteMetadata { metadata_cid: "n".to_string(), root_cid: "d".to_string() });
    o.refresh_sync_state(&current, &vec!["m".to_string()]);
    assert_eq!(o.current_sync_state(), SyncState::Behind);
    o.refresh_sync_state(&None, &vec![]);
    assert_eq!(o.current_sync_state(), SyncState::Unpublished);
    let mut fresh = OmniDrive::from_local(&local("a", "/a", None, None, None));
    fresh.sync_state = SyncState::Unknown;
    fresh.refresh_sync_state(&current, &vec![]);
    assert_eq!(fresh.current_sync_state(), SyncState::Unpublished);
}

#[test]
fn finding_a_drive_by_specifier() {
    let locals = vec![local("a", "/home/u/a", Some(1), None, None), local("b", "/home/u/b", Some(2), None, None)];
    let remotes = vec![remote(5, "b")];
    let spec = DriveSpecifier { drive_id: None, name: Some("b".to_string()), origin: None };
    let o = OmniDrive::from_specifier(&spec, Some(&locals), Some(&remotes));
    assert_eq!(o.get_local().unwrap().origin, "/home/u/b");
    assert_eq!(o.get_local().unwrap().remote_id, Some(5));
    assert_eq!(o.get_id().unwrap(), 5);
    let by_origin = DriveSpecifier::with_origin("/home/u/a/");
    let o2 = OmniDrive::from_specifier(&by_origin, Some(&locals), None);
    assert_eq!(o2.get_local().unwrap().name, "a");
    assert!(o2.get_remote().is_err());
    let none = OmniDrive::from_specifier(&spec, None, Some(&remotes));
    assert!(none.get_local().is_err() && none.get_remote().is_err());
}

#[test]
fn a_specifier_without_identifier_answers_an_unpublished_drive() {
    // A local Drive with no identifier answers any specifier without one.
    let locals = vec![local("a", "/home/u/a", None, None, None), local("b", "/home/u/b", None, None, None)];
    let spec = DriveSpecifier { drive_id: None, name: Some("b".to_string()), origin: None };
    let o = OmniDrive::from_specifier(&spec, Some(&locals), None);
    assert_eq!(o.get_local().unwrap().name, "a");
}

#[test]
fn adopting_the_other_copy() {
    let mut o = OmniDrive::from_local(&local("a", "/a", None, None, None));
    let saved = o.adopt_remote(remote(3, "a"));
    assert_eq!(saved.remote_id, Some(3));
    assert_eq!(o.get_id().unwrap(), 3);
    let mut r = OmniDrive::from_remote(&remote(4, "r"));
    r.adopt_local(local("r", "/r", None, None, None));
    assert_eq!(r.get_local().unwrap().remote_id, Some(4));
    let created = OmniDrive::from_created(Some(local("n", "/n", None, None, None)), Some(remote(6, "n")));
    assert_eq!(created.get_local().unwrap().remote_id, Some(6));
}

#[test]
fn drive_report_text() {
    let mut o = OmniDrive::from_remote(&remote(ID, "photos"));
    o.sync_state = SyncState::Unlocalized;
    let report = o.report();
    assert_eq!(report[0].text, "| DRIVE INFO |");
    assert_eq!(report[0].style, Style::Colored(Color::Yellow));
    assert_eq!(report[2].text, "No");
    assert_eq!(report[4].text, "Yes");
    assert_eq!(
        texts(&report),
        format!(
            "| DRIVE INFO |\nlocally tracked:\tNo\nremotely tracked:\tYes\nname:\t\t\tphotos\ndrive_id:\t\t{}\ntype:\t\t\tinteractive\nstorage_class:\t\thot\nsync_status:\t\tDrive does not exist locally\n",
            ID_TEXT
        )
    );
}

#[test]
fn sync_plans_by_state() {
    let mut o = OmniDrive::from_local(&local("a", "/a", None, None, None));
    let cases = [
        (SyncState::Unlocalized, SyncPlan::Download),
        (SyncState::Behind, SyncPlan::Download),
        (SyncState::Unpublished, SyncPlan::Upload),
        (SyncState::Ahead, SyncPlan::Upload),
        (SyncState::MetadataSynced, SyncPlan::Reconstruct),
        (SyncState::AllSynced, SyncPlan::AlreadySynced),
        (SyncState::Unknown, SyncPlan::Refresh),
    ];
    for (state, plan) in cases {
        o.sync_state = state;
        assert_eq!(o.sync_plan(), plan);
    }
}

#[test]
fn push_requests_need_identifier_and_roots() {
    let mut l = local("a", "/a", Some(11), Some("meta"), Some("root"));
    l.previous_cid = Some("prev".to_string());
    l.deleted_block_cids = vec!["d1".to_string()];
    let o = OmniDrive::from_local(&l);
    let p = o.push_request().unwrap();
    assert_eq!(p.drive_id, 11);
    assert_eq!(p.root_cid, "root");
    assert_eq!(p.metadata_cid, "meta");
    assert_eq!(p.previous_cid, Some("prev".to_string()));
    assert_eq!(p.deleted_block_cids, vec!["d1"]);
    let no_id = OmniDrive::from_local(&local("a", "/a", None, Some("m"), Some("r")));
    assert_eq!(no_id.push_request().unwrap_err().message()[0].text, "Unable to find a remote Identifier associated with that Drive");
    let no_root = OmniDrive::from_local(&local("a", "/a", Some(1), Some("m"), None));
    assert_eq!(texts(&no_root.push_request().unwrap_err().message()), "FILESYSTEM ERROR: root cid");
    let no_meta = OmniDrive::from_local(&local("a", "/a", Some(1), None, Some("r")));
    assert_eq!(texts(&no_meta.push_request().unwrap_err().message()), "FILESYSTEM ERROR: metdata cid");
    let remote_only = OmniDrive::from_remote(&remote(1, "r"));
    assert_eq!(remote_only.push_request().unwrap_err().message()[0].text, "Unable to find a local Drive with that query");
}

#[test]
fn origin_plans() {
    let o = OmniDrive::from_local(&local("a", "/data/a", None, None, None));
    assert!(matches!(o.origin_plan("/home/u").unwrap(), OriginPlan::Existing(p) if p == "/data/a"));
    let r = OmniDrive::from_remote(&remote(1, "pics"));
    match r.origin_plan("/home/u").unwrap() {
        OriginPlan::Create { path, name } => {
            assert_eq!(path, "/home/u/tomb/pics");
            assert_eq!(name, "pics");
        }
        _ => panic!("expected a new folder"),
    }
}

#[test]
fn recording_a_push() {
    let mut l = local("a", "/a", Some(1), None, None);
    l.deleted_block_cids = vec!["x".to_string()];
    l.storage_ticket = Some(StorageTicket { host: "old".to_string(), authorization: "tok".to_string() });
    match record_push(&mut l, Some("h".to_string()), Some("auth".to_string())) {
        ContentUpload::WithNewTicket(t) => assert_eq!((t.host.as_str(), t.authorization.as_str()), ("h", "auth")),
        other => panic!("unexpected {:?}", other),
    }
    assert!(l.deleted_block_cids.is_empty());
    assert_eq!(l.storage_ticket.as_ref().unwrap().host, "h");
    assert!(matches!(record_push(&mut l, Some("h2".to_string()), None), ContentUpload::ToHost(h) if h == "h2"));
    assert_eq!(l.storage_ticket.as_ref().unwrap().host, "h");
    assert!(matches!(record_push(&mut l, None, None), ContentUpload::NotNeeded));
    assert!(l.storage_ticket.is_none());
    assert!(matches!(record_push(&mut l, None, Some("a".to_string())), ContentUpload::NotNeeded));
}

#[test]
fn reports_of_sync_steps() {
    let ok = upload_report(true, "META");
    assert_eq!(texts(&ok), "<< SUCCESSFULLY UPLOADED METADATA & CONTENT >>\nMETA");
    let failed = upload_report(false, "META");
    assert_eq!(texts(&failed), "<< FAILED TO PUSH CONTENT >>\n<< SUCCESSFULLY PUSHED PENDING METADATA >>\nMETA\n");
    assert_eq!(failed[0].style, Style::Colored(Color::Red));
    let del = deletion_report(true, false);
    assert_eq!(texts(&del), "<< BUCKET DELETION >>\ndeleted locally:\tYes\ndeleted remotely:\tNo");
    assert_eq!(download_report().text, "<< DATA STILL NOT DOWNLOADED; SYNC AGAIN >>");
    assert_eq!(refresh_report(SyncState::Behind).text, "<< SYNC STATE UPDATED TO Behind >>");
    assert_eq!(SyncState::AllSynced.description().text, "Drive is in sync with remote");
    assert_eq!(SyncState::AllSynced.description().style, Style::Colored(Color::Green));
}

#[test]
fn storage_host_and_creation_guard() {
    let mut l = local("a", "/a", None, None, None);
    assert_eq!(texts(&storage_host(&l).unwrap_err().message()), "unable to determine storage host");
    l.storage_ticket = Some(StorageTicket { host: "https://h".to_string(), authorization: "t".to_string() });
    assert_eq!(storage_host(&l).unwrap(), "https://h");
    assert!(may_create(&None).is_ok());
    assert!(may_create(&Some(local("a", "/a", None, None, None))).is_ok());
    let published = Some(local("a", "/a", Some(1), None, None));
    assert_eq!(may_create(&published).unwrap_err().message()[0].text, "There is already a unique Drive with these specs");
}
