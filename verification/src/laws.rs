use vstd::prelude::*;
use crate::drive_model::{LocalDriveView, RemoteDriveView};
use crate::cli::listing::{local_rows, match_rows, on_platform, platform_rows, sync_rows, RowView};
use crate::cli::Persistence;
use crate::config::GlobalConfig;
use crate::omni::{
    sync_plan_spec, SyncPlan, after_all_spec, after_current_spec, begin_probe_spec, classify, id_of, merge_locals, unpublished_entries, from_local_spec,
    merge_remotes, merged, paired, OmniDriveView, SyncProbe,
};
use crate::operations::{stale_spec, starts_with};
use crate::paths::{components, file_name, is_named, is_piece, join, law_join_names_file, lemma_components_join, parent};
use crate::specifiers::{drive_id_of, resolved_id, DriveIdView, DriveSpecifierView};
use crate::sync_state::SyncState;
use crate::xdg::config_home;
use crate::omni::{first_match, local_matches, remote_matches};
use crate::cli::access::name_for;
use crate::cli::keys::{
    in_sync, local_key_rows, remote_key_rows, sync_key_rows, KeyRowView, LocalKeyView, RemoteKeyView,
};
use crate::cli::display::Persistence as KeptAt;
use crate::omni_ops::{drive_type_label, info_report_spec, storage_class_label};
use crate::specifiers::uuid_text;

verus! {

/// Working out a Drive's sync state always settles on a known state.
pub proof fn law_classify_settles(v: OmniDriveView, current: Option<(Seq<char>, Seq<char>)>, all: Seq<Seq<char>>)
    ensures
        classify(v, current, all) != SyncState::Unknown,
{
}

/// A Drive without a platform identifier is unpublished, whatever the platform reports.
pub proof fn law_no_identifier_is_unpublished(v: OmniDriveView, current: Option<(Seq<char>, Seq<char>)>, all: Seq<Seq<char>>)
    requires
        id_of(v) is None,
    ensures
        classify(v, current, all) == SyncState::Unpublished,
{
}

/// A Drive is all synced exactly when it has an identifier and a local copy whose metadata
/// and content roots are the platform's current ones.
pub proof fn law_all_synced_iff_roots_match(v: OmniDriveView, m: Seq<char>, r: Seq<char>, all: Seq<Seq<char>>)
    ensures
        classify(v, Some((m, r)), all) == SyncState::AllSynced <==> (id_of(v) is Some && v.local is Some
            && v.local.unwrap().metadata_root == Some(m) && v.local.unwrap().content_root == Some(r)),
{
    if id_of(v) is Some && v.local is Some {
        let l = v.local.unwrap();
        if l.metadata_root != Some(m) {
            let s = after_all_spec(l, all);
            assert(s == SyncState::Behind || s == SyncState::Ahead);
        }
    }
}

/// A Drive is behind exactly when its local metadata is not the platform's current one
/// but is among the platform's earlier ones.
pub proof fn law_behind_iff_metadata_is_older(v: OmniDriveView, m: Seq<char>, r: Seq<char>, all: Seq<Seq<char>>)
    ensures
        classify(v, Some((m, r)), all) == SyncState::Behind <==> (id_of(v) is Some && v.local is Some
            && v.local.unwrap().metadata_root != Some(m)
            && exists|i: int| 0 <= i < all.len() && Some(#[trigger] all[i]) == v.local.unwrap().metadata_root),
{
}

/// A Drive whose platform metadata cannot be read is unpublished.
pub proof fn law_unreadable_metadata_is_unpublished(v: OmniDriveView, all: Seq<Seq<char>>)
    ensures
        classify(v, None, all) == SyncState::Unpublished,
{
}

/// The listing of Drives holds every Drive: every local Drive that records a platform
/// identifier under that identifier, every local Drive that records none as an entry of
/// its own, and every remote Drive under its identifier together with a remote copy of
/// that identifier. Every keyed entry has a platform identifier.
pub proof fn law_merge_lists_every_drive(ls: Seq<LocalDriveView>, rs: Seq<RemoteDriveView>)
    ensures
        forall|i: int| 0 <= i < ls.len() && ls[i].remote_id is Some ==> merged(ls, rs).contains_key(#[trigger] ls[i].remote_id),
        forall|i: int| 0 <= i < ls.len() && ls[i].remote_id is None
            ==> unpublished_entries(ls).contains(from_local_spec(#[trigger] ls[i])),
        forall|j: int| 0 <= j < rs.len() ==> merged(ls, rs).contains_key(Some(#[trigger] rs[j].id))
            && merged(ls, rs)[Some(rs[j].id)].remote is Some
            && merged(ls, rs)[Some(rs[j].id)].remote.unwrap().id == rs[j].id,
        forall|k: Option<u128>| #[trigger] merged(ls, rs).contains_key(k) ==> k is Some,
{
    lemma_merge_locals_keys(ls);
    lemma_merge_remotes(merge_locals(ls), rs);
    lemma_unpublished_listed(ls);
}

/// The local listing holds every recorded identifier, and only identifiers.
proof fn lemma_merge_locals_keys(ls: Seq<LocalDriveView>)
    ensures
        forall|i: int| 0 <= i < ls.len() && ls[i].remote_id is Some ==> merge_locals(ls).contains_key(#[trigger] ls[i].remote_id),
        forall|k: Option<u128>| #[trigger] merge_locals(ls).contains_key(k) ==> k is Some,
    decreases ls.len(),
{
    if ls.len() > 0 {
        lemma_merge_locals_keys(ls.drop_last());
        assert forall|i: int| 0 <= i < ls.len() && ls[i].remote_id is Some implies merge_locals(ls).contains_key(#[trigger] ls[i].remote_id) by {
            if i < ls.len() - 1 {
                assert(ls.drop_last()[i] == ls[i]);
            }
        }
        assert forall|k: Option<u128>| #[trigger] merge_locals(ls).contains_key(k) implies k is Some by {
            if ls.last().remote_id is None || k != ls.last().remote_id {
                assert(merge_locals(ls.drop_last()).contains_key(k));
            }
        }
    }
}

/// Every local Drive without an identifier has its own entry.
proof fn lemma_unpublished_listed(ls: Seq<LocalDriveView>)
    ensures
        forall|i: int| 0 <= i < ls.len() && ls[i].remote_id is None
            ==> unpublished_entries(ls).contains(from_local_spec(#[trigger] ls[i])),
    decreases ls.len(),
{
    if ls.len() > 0 {
        lemma_unpublished_listed(ls.drop_last());
        let u0 = unpublished_entries(ls.drop_last());
        assert forall|i: int| 0 <= i < ls.len() && ls[i].remote_id is None
            implies unpublished_entries(ls).contains(from_local_spec(#[trigger] ls[i])) by {
            if i < ls.len() - 1 {
                assert(ls.drop_last()[i] == ls[i]);
                assert(u0.contains(from_local_spec(ls[i])));
                let k = choose|k: int| 0 <= k < u0.len() && u0[k] == from_local_spec(ls[i]);
                if ls.last().remote_id is None {
                    assert(unpublished_entries(ls)[k] == from_local_spec(ls[i]));
                }
            } else {
                assert(unpublished_entries(ls)[u0.len() as int] == from_local_spec(ls[i]));
            }
        }
    }
}

/// Adding remote Drives keeps every key and lists each remote Drive's identifier with a remote copy.
proof fn lemma_merge_remotes(m: Map<Option<u128>, OmniDriveView>, rs: Seq<RemoteDriveView>)
    ensures
        forall|k: Option<u128>| m.contains_key(k) ==> #[trigger] merge_remotes(m, rs).contains_key(k),
        (forall|k: Option<u128>| #[trigger] m.contains_key(k) ==> k is Some)
            ==> forall|k: Option<u128>| #[trigger] merge_remotes(m, rs).contains_key(k) ==> k is Some,
        forall|j: int| 0 <= j < rs.len() ==> merge_remotes(m, rs).contains_key(Some(#[trigger] rs[j].id))
            && merge_remotes(m, rs)[Some(rs[j].id)].remote is Some
            && merge_remotes(m, rs)[Some(rs[j].id)].remote.unwrap().id == rs[j].id,
    decreases rs.len(),
{
    if rs.len() > 0 {
        lemma_merge_remotes(m, rs.drop_last());
        let m0 = merge_remotes(m, rs.drop_last());
        assert forall|j: int| 0 <= j < rs.len() implies merge_remotes(m, rs).contains_key(Some(#[trigger] rs[j].id))
            && merge_remotes(m, rs)[Some(rs[j].id)].remote is Some
            && merge_remotes(m, rs)[Some(rs[j].id)].remote.unwrap().id == rs[j].id by {
            if j < rs.len() - 1 {
                assert(rs.drop_last()[j] == rs[j]);
                assert(m0.contains_key(Some(rs[j].id)));
            }
        }
    }
}

/// A Drive found on both sides agrees on its identifier: the local copy records the remote one's.
pub proof fn law_paired_drive_agrees_on_identifier(l: LocalDriveView, r: RemoteDriveView)
    ensures
        id_of(paired(Some(l), Some(r))) == Some(r.id),
        paired(Some(l), Some(r)).local.unwrap().remote_id == Some(r.id),
        begin_probe_spec(paired(Some(l), Some(r))) == SyncProbe::FetchCurrent(r.id),
{
}

/// A Drive found only locally keeps the identifier it recorded.
pub proof fn law_local_only_keeps_identifier(l: LocalDriveView)
    ensures
        id_of(paired(Some(l), None)) == l.remote_id,
{
}

/// After a rename, the Drive's folder is named after the new name.
pub proof fn law_renamed_folder_is_named_new_name(old_path: Seq<char>, new_name: Seq<char>)
    requires
        parent(old_path) is Some,
        is_piece(new_name),
        is_named(new_name),
        new_name != seq!['.', '.'],
    ensures
        file_name(join(parent(old_path).unwrap(), new_name)) == Some(new_name),
        resolved_id(DriveIdView::Origin(join(parent(old_path).unwrap(), new_name))) == Ok::<Seq<char>, Seq<char>>(new_name),
{
    law_join_names_file(parent(old_path).unwrap(), new_name);
}

/// The configuration file is `config.json`, whatever the home directory.
pub proof fn law_config_file_name(home: Seq<char>)
    ensures
        file_name(join(config_home(home), "config.json"@)) == Some("config.json"@),
{
    reveal_strlit("config.json");
    let q = "config.json"@;
    assert(is_piece(q)) by {
        assert forall|i: int| 0 <= i < q.len() implies #[trigger] q[i] != '/' by {
        }
    }
    assert(q.len() != 1 && q.len() != 2);
    assert(is_named(q)) by {
        assert(q.len() != seq!['.'].len());
    }
    assert(q != seq!['.', '.']) by {
        assert(q.len() != seq!['.', '.'].len());
    }
    law_join_names_file(config_home(home), q);
}

/// A Drive named by its name resolves to that name; one named only by its identifier
/// does not resolve.
pub proof fn law_specifier_resolution(s: DriveSpecifierView)
    ensures
        s.drive_id is None && s.name is Some ==> resolved_id(drive_id_of(s)) == Ok::<Seq<char>, Seq<char>>(s.name.unwrap()),
        s.drive_id is Some ==> resolved_id(drive_id_of(s)) is Err,
{
}

/// Recording a Drive's folder makes it the folder found for that Drive, and leaves the
/// others as they were; forgetting it leaves none.
pub proof fn law_path_read_after_write(c: GlobalConfig, k: Seq<char>, v: Seq<char>, other: Seq<char>)
    requires
        other != k,
    ensures
        c.paths().insert(k, v).get(k) == Some(v),
        c.paths().insert(k, v).get(other) == c.paths().get(other),
        c.paths().remove(k).get(k) is None,
        c.paths().remove(k).get(other) == c.paths().get(other),
{
    let m = c.paths();
    assert(m.insert(k, v).dom().contains(k));
    assert(!m.remove(k).dom().contains(k));
}

/// Once a Drive's sync state is worked out, syncing it always has a step to take: it
/// never has to work the state out again.
pub proof fn law_classified_drive_has_plan(v: OmniDriveView, current: Option<(Seq<char>, Seq<char>)>, all: Seq<Seq<char>>)
    ensures
        sync_plan_spec(classify(v, current, all)) != SyncPlan::Refresh,
{
}

/// The place on disk of an entry directly under a Drive's folder lies under that folder,
/// and taking the folder away from it gives back the entry's name alone.
pub proof fn law_relative_path_of_joined_entry(origin: Seq<char>, name: Seq<char>)
    requires
        is_piece(name),
        is_named(name),
    ensures
        starts_with(components(join(origin, name)), components(origin)),
        components(join(origin, name)).skip(components(origin).len() as int) == seq![name],
{
    lemma_components_join(origin, name);
    let c = components(origin);
    assert(c.push(name).take(c.len() as int) =~= c);
    assert(c.push(name).skip(c.len() as int) =~= seq![name]);
}

/// Each platform Drive of a local Drive's name gives that local Drive a synced row.
proof fn lemma_match_rows_has(l: Seq<char>, ps: Seq<(Seq<char>, Seq<char>)>, path: Seq<char>, j: int)
    requires
        0 <= j < ps.len(),
        ps[j].0 == l,
    ensures
        match_rows(l, ps, path).contains((ps[j].0, ps[j].1, path, Persistence::Sync)),
    decreases ps.len(),
{
    let r = match_rows(l, ps.drop_last(), path);
    if j == ps.len() - 1 {
        assert(match_rows(l, ps, path) == r.push((ps.last().0, ps.last().1, path, Persistence::Sync)));
        assert(match_rows(l, ps, path)[r.len() as int] == (ps[j].0, ps[j].1, path, Persistence::Sync));
    } else {
        lemma_match_rows_has(l, ps.drop_last(), path, j);
        assert(ps.drop_last()[j] == ps[j]);
        let x = (ps[j].0, ps[j].1, path, Persistence::Sync);
        let k = choose|k: int| 0 <= k < r.len() && r[k] == x;
        if ps.last().0 == l {
            assert(match_rows(l, ps, path)[k] == x);
        } else {
            assert(match_rows(l, ps, path)[k] == x);
        }
    }
}

/// The synced rows hold the rows of every local Drive.
proof fn lemma_sync_rows_has(ls: Seq<Seq<char>>, ps: Seq<(Seq<char>, Seq<char>)>, m: Map<Seq<char>, Seq<char>>, i: int, x: RowView)
    requires
        0 <= i < ls.len(),
        match_rows(ls[i], ps, m[ls[i]]).contains(x),
    ensures
        sync_rows(ls, ps, m).contains(x),
    decreases ls.len(),
{
    let front = sync_rows(ls.drop_last(), ps, m);
    let back = match_rows(ls.last(), ps, m[ls.last()]);
    assert(sync_rows(ls, ps, m) == front + back);
    if i == ls.len() - 1 {
        let k = choose|k: int| 0 <= k < back.len() && back[k] == x;
        assert((front + back)[front.len() + k] == x);
    } else {
        assert(ls.drop_last()[i] == ls[i]);
        lemma_sync_rows_has(ls.drop_last(), ps, m, i, x);
        let k = choose|k: int| 0 <= k < front.len() && front[k] == x;
        assert((front + back)[k] == x);
    }
}

/// A local Drive missing from the platform has its local row.
proof fn lemma_local_rows_has(ls: Seq<Seq<char>>, ps: Seq<(Seq<char>, Seq<char>)>, m: Map<Seq<char>, Seq<char>>, i: int)
    requires
        0 <= i < ls.len(),
        !on_platform(ls[i], ps),
    ensures
        local_rows(ls, ps, m).contains((ls[i], "N/A"@, m[ls[i]], Persistence::LocalOnly)),
    decreases ls.len(),
{
    let r = local_rows(ls.drop_last(), ps, m);
    let x = (ls[i], "N/A"@, m[ls[i]], Persistence::LocalOnly);
    if i == ls.len() - 1 {
        assert(local_rows(ls, ps, m) == r.push(x));
        assert(local_rows(ls, ps, m)[r.len() as int] == x);
    } else {
        assert(ls.drop_last()[i] == ls[i]);
        lemma_local_rows_has(ls.drop_last(), ps, m, i);
        let k = choose|k: int| 0 <= k < r.len() && r[k] == x;
        assert(local_rows(ls, ps, m)[k] == x);
    }
}

/// A platform Drive with no local Drive of its name has its platform row.
proof fn lemma_platform_rows_has(ls: Seq<Seq<char>>, ps: Seq<(Seq<char>, Seq<char>)>, j: int)
    requires
        0 <= j < ps.len(),
        !ls.contains(ps[j].0),
    ensures
        platform_rows(ls, ps).contains((ps[j].0, ps[j].1, "N/A"@, Persistence::PlatformOnly)),
    decreases ps.len(),
{
    let r = platform_rows(ls, ps.drop_last());
    let x = (ps[j].0, ps[j].1, "N/A"@, Persistence::PlatformOnly);
    if j == ps.len() - 1 {
        assert(platform_rows(ls, ps) == r.push(x));
        assert(platform_rows(ls, ps)[r.len() as int] == x);
    } else {
        assert(ps.drop_last()[j] == ps[j]);
        lemma_platform_rows_has(ls, ps.drop_last(), j);
        let k = choose|k: int| 0 <= k < r.len() && r[k] == x;
        assert(platform_rows(ls, ps)[k] == x);
    }
}

/// The Drive listing shows every Drive: each local Drive in a synced row (when the
/// platform has a Drive of its name) or in its local row, and each platform Drive in a
/// synced row (when a local Drive has its name) or in its platform row.
pub proof fn law_listing_shows_every_drive(ls: Seq<Seq<char>>, ps: Seq<(Seq<char>, Seq<char>)>, m: Map<Seq<char>, Seq<char>>)
    ensures
        forall|i: int| #![trigger ls[i]] 0 <= i < ls.len() ==> exists|x: RowView| #[trigger] (sync_rows(ls, ps, m) + local_rows(ls, ps, m)).contains(x)
            && x.0 == ls[i] && x.2 == m[ls[i]],
        forall|j: int| #![trigger ps[j]] 0 <= j < ps.len() ==> exists|x: RowView| #[trigger] (sync_rows(ls, ps, m) + platform_rows(ls, ps)).contains(x)
            && x.0 == ps[j].0 && x.1 == ps[j].1,
{
    assert forall|i: int| #![trigger ls[i]] 0 <= i < ls.len() implies exists|x: RowView| #[trigger] (sync_rows(ls, ps, m) + local_rows(ls, ps, m)).contains(x)
        && x.0 == ls[i] && x.2 == m[ls[i]] by {
        let a = sync_rows(ls, ps, m);
        let b = local_rows(ls, ps, m);
        if on_platform(ls[i], ps) {
            let j = choose|j: int| 0 <= j < ps.len() && #[trigger] ps[j].0 == ls[i];
            let x = (ps[j].0, ps[j].1, m[ls[i]], Persistence::Sync);
            lemma_match_rows_has(ls[i], ps, m[ls[i]], j);
            lemma_sync_rows_has(ls, ps, m, i, x);
            let k = choose|k: int| 0 <= k < a.len() && a[k] == x;
            assert((a + b)[k] == x);
            assert((a + b).contains(x));
        } else {
            let x = (ls[i], "N/A"@, m[ls[i]], Persistence::LocalOnly);
            lemma_local_rows_has(ls, ps, m, i);
            let k = choose|k: int| 0 <= k < b.len() && b[k] == x;
            assert((a + b)[a.len() + k] == x);
            assert((a + b).contains(x));
        }
    }
    assert forall|j: int| #![trigger ps[j]] 0 <= j < ps.len() implies exists|x: RowView| #[trigger] (sync_rows(ls, ps, m) + platform_rows(ls, ps)).contains(x)
        && x.0 == ps[j].0 && x.1 == ps[j].1 by {
        let a = sync_rows(ls, ps, m);
        let b = platform_rows(ls, ps);
        if ls.contains(ps[j].0) {
            let i = choose|i: int| 0 <= i < ls.len() && ls[i] == ps[j].0;
            assert(0 <= i < ls.len() && ls[i] == ps[j].0);
            let x = (ps[j].0, ps[j].1, m[ls[i]], Persistence::Sync);
            lemma_match_rows_has(ls[i], ps, m[ls[i]], j);
            assert(ls[i] == ps[j].0);
            lemma_sync_rows_has(ls, ps, m, i, x);
            assert(a.contains(x));
            let k = choose|k: int| 0 <= k < a.len() && a[k] == x;
            assert((a + b)[k] == x);
            assert((a + b).contains(x));
            assert(x.0 == ps[j].0 && x.1 == ps[j].1);
        } else {
            let x = (ps[j].0, ps[j].1, "N/A"@, Persistence::PlatformOnly);
            lemma_platform_rows_has(ls, ps, j);
            let k = choose|k: int| 0 <= k < b.len() && b[k] == x;
            assert((a + b)[a.len() + k] == x);
            assert((a + b).contains(x));
        }
    }
}

/// Preparing removes exactly the Drive paths that are missing on disk: each path missing on
/// disk is removed, and each path removed is missing on disk.
pub proof fn law_prepare_removes_exactly_missing(paths: Seq<Seq<char>>, on_disk: Seq<bool>)
    requires
        paths.len() == on_disk.len(),
    ensures
        forall|i: int| 0 <= i < paths.len() && !on_disk[i] ==> #[trigger] stale_spec(paths, on_disk).contains(paths[i]),
        forall|x: Seq<char>| #[trigger] stale_spec(paths, on_disk).contains(x)
            ==> exists|i: int| 0 <= i < paths.len() && !on_disk[i] && paths[i] == x,
    decreases paths.len(),
{
    if paths.len() > 0 {
        let front = paths.drop_last();
        let n = paths.len() - 1;
        law_prepare_removes_exactly_missing(front, on_disk.take(n));
        let r = stale_spec(front, on_disk);
        lemma_stale_prefix(front, on_disk, on_disk.take(n));
        assert(stale_spec(front, on_disk.take(n)) == r);
        assert forall|i: int| 0 <= i < paths.len() && !on_disk[i] implies #[trigger] stale_spec(paths, on_disk).contains(paths[i]) by {
            if i < n {
                assert(front[i] == paths[i]);
                assert(on_disk.take(n)[i] == on_disk[i]);
                assert(r.contains(front[i]));
                let k = choose|k: int| 0 <= k < r.len() && r[k] == front[i];
                if on_disk[n] {
                    assert(stale_spec(paths, on_disk)[k] == paths[i]);
                } else {
                    assert(stale_spec(paths, on_disk) == r.push(paths.last()));
                    assert(stale_spec(paths, on_disk)[k] == paths[i]);
                }
            } else {
                assert(stale_spec(paths, on_disk) == r.push(paths.last()));
                assert(stale_spec(paths, on_disk)[r.len() as int] == paths[i]);
            }
        }
        assert forall|x: Seq<char>| #[trigger] stale_spec(paths, on_disk).contains(x)
            implies exists|i: int| 0 <= i < paths.len() && !on_disk[i] && paths[i] == x by {
            let all = stale_spec(paths, on_disk);
            let k = choose|k: int| 0 <= k < all.len() && all[k] == x;
            if k < r.len() {
                assert(r[k] == x);
                assert(r.contains(x));
                let i = choose|i: int| 0 <= i < front.len() && !on_disk.take(n)[i] && front[i] == x;
                assert(paths[i] == x && !on_disk[i]);
            } else {
                assert(!on_disk[n] && paths[n] == x);
            }
        }
    }
}

/// The paths removed depend only on the presence flags of the paths given.
proof fn lemma_stale_prefix(paths: Seq<Seq<char>>, a: Seq<bool>, b: Seq<bool>)
    requires
        paths.len() <= a.len(),
        paths.len() <= b.len(),
        forall|i: int| 0 <= i < paths.len() ==> a[i] == b[i],
    ensures
        stale_spec(paths, a) == stale_spec(paths, b),
    decreases paths.len(),
{
    if paths.len() > 0 {
        lemma_stale_prefix(paths.drop_last(), a, b);
    }
}


/// A Drive with an identifier whose local metadata is the platform's current metadata but
/// whose content root is not the platform's current root (or is missing) has its metadata
/// synced and its files still to rebuild: it is settled as MetadataSynced, and syncing it
/// reconstructs the files.
pub proof fn law_same_metadata_other_content_is_metadata_synced(
    v: OmniDriveView,
    m: Seq<char>,
    r: Seq<char>,
    all: Seq<Seq<char>>,
)
    requires
        id_of(v) is Some,
        v.local is Some,
        v.local.unwrap().metadata_root == Some(m),
        v.local.unwrap().content_root != Some(r),
    ensures
        after_current_spec(v, id_of(v).unwrap(), Some((m, r))) == SyncProbe::Settled(SyncState::MetadataSynced),
        classify(v, Some((m, r)), all) == SyncState::MetadataSynced,
        sync_plan_spec(classify(v, Some((m, r)), all)) == SyncPlan::Reconstruct,
{
}

/// A platform Drive whose identifier is the one a specifier names answers that specifier;
/// so among platform Drives that hold one with that identifier, a Drive is always found,
/// and it is one that answers by identifier or by name.
pub proof fn law_remote_found_by_identifier(rs: Seq<RemoteDriveView>, s: DriveSpecifierView, x: Option<RemoteDriveView>)
    requires
        s.drive_id is Some,
        exists|j: int| 0 <= j < rs.len() && #[trigger] rs[j].id == s.drive_id.unwrap(),
        first_match(rs, |r: RemoteDriveView| remote_matches(r, s), x),
    ensures
        forall|r: RemoteDriveView| r.id == s.drive_id.unwrap() ==> #[trigger] remote_matches(r, s),
        x is Some,
        x.unwrap().id == s.drive_id.unwrap() || Some(x.unwrap().name) == s.name,
{
    let j = choose|j: int| 0 <= j < rs.len() && #[trigger] rs[j].id == s.drive_id.unwrap();
    assert(remote_matches(rs[j], s));
    if x is None {
        assert(!(|r: RemoteDriveView| remote_matches(r, s))(rs[j]));
    }
}

/// The name shown for a fingerprint is the name of the last stored key with that
/// fingerprint; when no stored key has it, the name is "Unknown".
pub proof fn law_shown_name_is_owner_of_fingerprint(named: Seq<(Seq<char>, Seq<char>)>, fp: Seq<char>)
    ensures
        (exists|i: int| 0 <= i < named.len() && #[trigger] named[i].1 == fp) ==> exists|i: int|
            0 <= i < named.len() && #[trigger] named[i].1 == fp && named[i].0 == name_for(named, fp)
            && forall|k: int| i < k < named.len() ==> #[trigger] named[k].1 != fp,
        !(exists|i: int| 0 <= i < named.len() && #[trigger] named[i].1 == fp) ==> name_for(named, fp) == "Unknown"@,
    decreases named.len(),
{
    if named.len() > 0 {
        let front = named.drop_last();
        law_shown_name_is_owner_of_fingerprint(front, fp);
        let n = named.len() - 1;
        if named.last().1 == fp {
            assert(named[n].1 == fp && named[n].0 == name_for(named, fp));
        } else {
            if exists|i: int| 0 <= i < named.len() && #[trigger] named[i].1 == fp {
                let i0 = choose|i: int| 0 <= i < named.len() && #[trigger] named[i].1 == fp;
                assert(i0 < n);
                assert(front[i0].1 == fp);
                let i = choose|i: int| 0 <= i < front.len() && #[trigger] front[i].1 == fp && front[i].0 == name_for(front, fp)
                    && forall|k: int| i < k < front.len() ==> #[trigger] front[k].1 != fp;
                assert(named[i] == front[i]);
                assert forall|k: int| i < k < named.len() implies #[trigger] named[k].1 != fp by {
                    if k < n {
                        assert(named[k] == front[k]);
                    }
                }
            } else {
                assert forall|i: int| 0 <= i < front.len() implies #[trigger] front[i].1 != fp by {
                    assert(front[i] == named[i]);
                }
            }
        }
    }
}

/// The rows listed as kept only on the platform carry a platform key's own fields unchanged.
proof fn lemma_remote_rows_are_remote_keys(ls: Seq<LocalKeyView>, rs: Seq<RemoteKeyView>, all: Seq<RemoteKeyView>, ps: Seq<(int, int)>)
    ensures
        forall|x: KeyRowView| #[trigger] remote_key_rows(ls, rs, all, ps).contains(x) ==> exists|j: int|
            0 <= j < rs.len() && x == (rs[j].0, rs[j].1, rs[j].2, rs[j].3, rs[j].4, KeptAt::RemoteOnly),
    decreases rs.len(),
{
    if rs.len() > 0 {
        let front = rs.drop_last();
        lemma_remote_rows_are_remote_keys(ls, front, all, ps);
        let r0 = remote_key_rows(ls, front, all, ps);
        assert forall|x: KeyRowView| #[trigger] remote_key_rows(ls, rs, all, ps).contains(x) implies exists|j: int|
            0 <= j < rs.len() && x == (rs[j].0, rs[j].1, rs[j].2, rs[j].3, rs[j].4, KeptAt::RemoteOnly) by {
            let rows = remote_key_rows(ls, rs, all, ps);
            let k = choose|k: int| 0 <= k < rows.len() && rows[k] == x;
            if k < r0.len() {
                assert(r0[k] == x);
                assert(r0.contains(x));
                let j = choose|j: int| 0 <= j < front.len() && x == (front[j].0, front[j].1, front[j].2, front[j].3, front[j].4, KeptAt::RemoteOnly);
                assert(rs[j] == front[j]);
            } else {
                let j = rs.len() - 1;
                assert(x == (rs[j].0, rs[j].1, rs[j].2, rs[j].3, rs[j].4, KeptAt::RemoteOnly));
            }
        }
    }
}

/// The rows of keys kept on both sides are all marked Sync.
proof fn lemma_sync_rows_are_sync(ls: Seq<LocalKeyView>, rs: Seq<RemoteKeyView>, ps: Seq<(int, int)>, choices: Seq<bool>)
    ensures
        forall|k: int| 0 <= k < sync_key_rows(ls, rs, ps, choices).len() ==> #[trigger] sync_key_rows(ls, rs, ps, choices)[k].5 == KeptAt::Sync,
    decreases ps.len(),
{
    if ps.len() > 0 {
        let l = ls[ps[0].0];
        let r = rs[ps[0].1];
        if l.0 == r.0 {
            lemma_sync_rows_are_sync(ls, rs, ps.drop_first(), choices);
            let tail = sync_key_rows(ls, rs, ps.drop_first(), choices);
            assert forall|k: int| 0 <= k < sync_key_rows(ls, rs, ps, choices).len() implies #[trigger] sync_key_rows(ls, rs, ps, choices)[k].5 == KeptAt::Sync by {
                if k > 0 {
                    assert(sync_key_rows(ls, rs, ps, choices)[k] == tail[k - 1]);
                }
            }
        } else {
            lemma_sync_rows_are_sync(ls, rs, ps.drop_first(), choices.drop_first());
            let tail = sync_key_rows(ls, rs, ps.drop_first(), choices.drop_first());
            assert forall|k: int| 0 <= k < sync_key_rows(ls, rs, ps, choices).len() implies #[trigger] sync_key_rows(ls, rs, ps, choices)[k].5 == KeptAt::Sync by {
                if k > 0 {
                    assert(sync_key_rows(ls, rs, ps, choices)[k] == tail[k - 1]);
                }
            }
        }
    }
}

/// The rows of keys kept only locally are all marked LocalOnly.
proof fn lemma_local_rows_are_local(ls: Seq<LocalKeyView>, all: Seq<LocalKeyView>, rs: Seq<RemoteKeyView>, ps: Seq<(int, int)>)
    ensures
        forall|k: int| 0 <= k < local_key_rows(ls, all, rs, ps).len() ==> #[trigger] local_key_rows(ls, all, rs, ps)[k].5 == KeptAt::LocalOnly,
    decreases ls.len(),
{
    if ls.len() > 0 {
        lemma_local_rows_are_local(ls.drop_last(), all, rs, ps);
        let r0 = local_key_rows(ls.drop_last(), all, rs, ps);
        assert forall|k: int| 0 <= k < local_key_rows(ls, all, rs, ps).len() implies #[trigger] local_key_rows(ls, all, rs, ps)[k].5 == KeptAt::LocalOnly by {
            if k < r0.len() {
                assert(local_key_rows(ls, all, rs, ps)[k] == r0[k]);
            }
        }
    }
}

/// In the key listing, every row marked as kept only on the platform is a platform key's
/// row: its name, user, fingerprint, API access and public key are that key's own.
pub proof fn law_remote_only_rows_carry_platform_keys(
    ls: Seq<LocalKeyView>,
    rs: Seq<RemoteKeyView>,
    ps: Seq<(int, int)>,
    choices: Seq<bool>,
    x: KeyRowView,
)
    requires
        (sync_key_rows(ls, rs, ps, choices) + local_key_rows(ls, ls, rs, ps) + remote_key_rows(ls, rs, rs, ps)).contains(x),
        x.5 == KeptAt::RemoteOnly,
    ensures
        exists|j: int| 0 <= j < rs.len() && x == (rs[j].0, rs[j].1, rs[j].2, rs[j].3, rs[j].4, KeptAt::RemoteOnly),
{
    let a = sync_key_rows(ls, rs, ps, choices);
    let b = local_key_rows(ls, ls, rs, ps);
    let c = remote_key_rows(ls, rs, rs, ps);
    lemma_sync_rows_are_sync(ls, rs, ps, choices);
    lemma_local_rows_are_local(ls, ls, rs, ps);
    lemma_remote_rows_are_remote_keys(ls, rs, rs, ps);
    let all = a + b + c;
    let k = choose|k: int| 0 <= k < all.len() && all[k] == x;
    if k < a.len() {
        assert(all[k] == a[k]);
    } else if k < a.len() + b.len() {
        assert(all[k] == b[k - a.len()]);
    } else {
        assert(all[k] == c[k - a.len() - b.len()]);
        assert(c.contains(x));
    }
}

/// `piece` stands in `text` starting at position `i`.
pub open spec fn stands_at(text: Seq<char>, piece: Seq<char>, i: int) -> bool {
    0 <= i && i + piece.len() <= text.len() && text.subrange(i, i + piece.len()) == piece
}

/// The report of a Drive known on both sides shows the local Drive's folder as its
/// origin, on the line before the Drive's type.
pub proof fn law_report_shows_local_origin(v: OmniDriveView)
    requires
        v.local is Some,
        v.remote is Some,
    ensures
        exists|k: int, i: int| 0 <= k < info_report_spec(v).len()
            && #[trigger] stands_at(info_report_spec(v)[k].0, "\norigin:\t\t\t"@ + v.local.unwrap().origin + "\ntype:\t\t\t"@, i),
{
    let l = v.local.unwrap();
    let r = v.remote.unwrap();
    let pre = "\nname:\t\t\t"@ + r.name + "\ndrive_id:\t\t"@ + uuid_text(r.id);
    let piece = "\norigin:\t\t\t"@ + l.origin + "\ntype:\t\t\t"@;
    let post = drive_type_label(r.kind) + "\nstorage_class:\t\t"@ + storage_class_label(r.storage_class) + "\nstorage_ticket:\t\t"@;
    let text = info_report_spec(v)[5].0;
    assert(text =~= pre + piece + post);
    assert(text.subrange(pre.len() as int, (pre.len() + piece.len()) as int) =~= piece);
    assert(stands_at(text, piece, pre.len() as int));
}


/// The rows listed as kept only locally carry a local key's name, fingerprint and public key.
proof fn lemma_local_rows_are_local_keys(ls: Seq<LocalKeyView>, all: Seq<LocalKeyView>, rs: Seq<RemoteKeyView>, ps: Seq<(int, int)>)
    ensures
        forall|x: KeyRowView| #[trigger] local_key_rows(ls, all, rs, ps).contains(x) ==> exists|i: int|
            0 <= i < ls.len() && x == (ls[i].0, "N/A"@, ls[i].1, false, ls[i].2.unwrap(), KeptAt::LocalOnly),
    decreases ls.len(),
{
    if ls.len() > 0 {
        let front = ls.drop_last();
        lemma_local_rows_are_local_keys(front, all, rs, ps);
        let r0 = local_key_rows(front, all, rs, ps);
        assert forall|x: KeyRowView| #[trigger] local_key_rows(ls, all, rs, ps).contains(x) implies exists|i: int|
            0 <= i < ls.len() && x == (ls[i].0, "N/A"@, ls[i].1, false, ls[i].2.unwrap(), KeptAt::LocalOnly) by {
            let rows = local_key_rows(ls, all, rs, ps);
            let k = choose|k: int| 0 <= k < rows.len() && rows[k] == x;
            if k < r0.len() {
                assert(r0[k] == x);
                assert(r0.contains(x));
                let i = choose|i: int| 0 <= i < front.len()
                    && x == (front[i].0, "N/A"@, front[i].1, false, front[i].2.unwrap(), KeptAt::LocalOnly);
                assert(ls[i] == front[i]);
            } else {
                let i = ls.len() - 1;
                assert(x == (ls[i].0, "N/A"@, ls[i].1, false, ls[i].2.unwrap(), KeptAt::LocalOnly));
            }
        }
    }
}

/// In the key listing, every row marked as kept only locally is a local key's row: its
/// name, fingerprint and public key are that key's own, with no user and no API access.
pub proof fn law_local_only_rows_carry_local_keys(
    ls: Seq<LocalKeyView>,
    rs: Seq<RemoteKeyView>,
    ps: Seq<(int, int)>,
    choices: Seq<bool>,
    x: KeyRowView,
)
    requires
        (sync_key_rows(ls, rs, ps, choices) + local_key_rows(ls, ls, rs, ps) + remote_key_rows(ls, rs, rs, ps)).contains(x),
        x.5 == KeptAt::LocalOnly,
    ensures
        exists|i: int| 0 <= i < ls.len() && x == (ls[i].0, "N/A"@, ls[i].1, false, ls[i].2.unwrap(), KeptAt::LocalOnly),
{
    let a = sync_key_rows(ls, rs, ps, choices);
    let b = local_key_rows(ls, ls, rs, ps);
    let c = remote_key_rows(ls, rs, rs, ps);
    lemma_sync_rows_are_sync(ls, rs, ps, choices);
    lemma_local_rows_are_local_keys(ls, ls, rs, ps);
    lemma_remote_rows_are_remote_keys(ls, rs, rs, ps);
    let all = a + b + c;
    let k = choose|k: int| 0 <= k < all.len() && all[k] == x;
    if k < a.len() {
        assert(all[k] == a[k]);
    } else if k < a.len() + b.len() {
        assert(all[k] == b[k - a.len()]);
        assert(b.contains(x));
    } else {
        assert(all[k] == c[k - a.len() - b.len()]);
        assert(c.contains(x));
        let j = choose|j: int| 0 <= j < rs.len() && x == (rs[j].0, rs[j].1, rs[j].2, rs[j].3, rs[j].4, KeptAt::RemoteOnly);
    }
}

/// A local Drive answers a specifier that names it by its name, by its folder, or by the
/// platform identifier it records.
pub proof fn law_local_drive_answers_its_names(l: LocalDriveView, s: DriveSpecifierView)
    ensures
        s.name == Some(l.name) ==> local_matches(l, s),
        s.origin == Some(l.origin) ==> local_matches(l, s),
        l.remote_id is Some && s.drive_id == l.remote_id ==> local_matches(l, s),
{
}

} // verus!
