use vstd::prelude::*;
use crate::drive_model::{LocalDrive, LocalDriveView, RemoteDrive, RemoteDriveView};
use crate::native_error::{NativeError, NativeErrorKind};
use crate::sync_state::SyncState;
use crate::specifiers::{DriveSpecifier, DriveSpecifierView};
use crate::paths::{components, same_path};
use crate::omni_ops::{details, info_report_spec, local_lines, remote_lines};
use crate::styled::{push_flag, push_lit, push_text, segments_view, Color, Segment, Style};
use crate::sync_state::{state_color, state_text};
use vstd::string::*;

verus! {

/// The abstract value of an optional local Drive.
pub open spec fn local_view(o: Option<LocalDrive>) -> Option<LocalDriveView> {
    match o {
        Some(l) => Some(l@),
        None => None,
    }
}

/// The abstract value of an optional remote Drive.
pub open spec fn remote_view(o: Option<RemoteDrive>) -> Option<RemoteDriveView> {
    match o {
        Some(r) => Some(r@),
        None => None,
    }
}

/// The abstract value of a Drive seen from both sides.
pub struct OmniDriveView {
    pub local: Option<LocalDriveView>,
    pub remote: Option<RemoteDriveView>,
    pub sync_state: SyncState,
}

/// A Drive known locally, remotely, or both, with how the two copies relate.
#[derive(Debug)]
pub struct OmniDrive {
    /// The local Drive
    local: Option<LocalDrive>,
    /// The remote Drive
    remote: Option<RemoteDrive>,
    /// The sync state
    pub sync_state: SyncState,
}

impl View for OmniDrive {
    type V = OmniDriveView;

    closed spec fn view(&self) -> OmniDriveView {
        OmniDriveView { local: local_view(self.local), remote: remote_view(self.remote), sync_state: self.sync_state }
    }
}

/// A Drive known only locally.
pub open spec fn from_local_spec(l: LocalDriveView) -> OmniDriveView {
    OmniDriveView { local: Some(l), remote: None, sync_state: SyncState::Unpublished }
}

/// A Drive known only remotely.
pub open spec fn from_remote_spec(r: RemoteDriveView) -> OmniDriveView {
    OmniDriveView { local: None, remote: Some(r), sync_state: SyncState::Unlocalized }
}

/// The platform identifier of a Drive: the remote Drive's, else the one the local Drive recorded.
pub open spec fn id_of(v: OmniDriveView) -> Option<u128> {
    match v.remote {
        Some(r) => Some(r.id),
        None => match v.local {
            Some(l) => l.remote_id,
            None => None,
        },
    }
}

/// Copies an optional local Drive.
fn dup_local(o: &Option<LocalDrive>) -> (res: Option<LocalDrive>)
    ensures
        local_view(res) == local_view(*o),
{
    match o {
        Some(l) => Some(l.duplicate()),
        None => None,
    }
}

impl OmniDrive {
    /// Initialize w/ local
    pub fn from_local(drive: &LocalDrive) -> (res: Self)
        ensures
            res@ == from_local_spec(drive@),
    {
        Self { local: Some(drive.duplicate()), remote: None, sync_state: SyncState::Unpublished }
    }

    /// Initialize w/ remote
    pub fn from_remote(drive: &RemoteDrive) -> (res: Self)
        ensures
            res@ == from_remote_spec(drive@),
    {
        Self { local: None, remote: Some(drive.duplicate()), sync_state: SyncState::Unlocalized }
    }

    /// Get the ID from wherever it might be found
    pub fn get_id(&self) -> (res: Result<u128, NativeError>)
        ensures
            match id_of(self@) {
                Some(id) => res == Ok::<u128, NativeError>(id),
                None => res matches Err(e) && e.kind() == NativeErrorKind::MissingIdentifier,
            },
    {
        if let Some(remote) = &self.remote {
            Ok(remote.id)
        } else if let Some(local) = &self.local {
            match local.remote_id {
                Some(id) => Ok(id),
                None => Err(NativeError::missing_identifier()),
            }
        } else {
            Err(NativeError::missing_identifier())
        }
    }

    /// Get the local config
    pub fn get_local(&self) -> (res: Result<LocalDrive, NativeError>)
        ensures
            match self@.local {
                Some(l) => res matches Ok(d) && d@ == l,
                None => res matches Err(e) && e.kind() == NativeErrorKind::MissingLocalDrive,
            },
    {
        match &self.local {
            Some(l) => Ok(l.duplicate()),
            None => Err(NativeError::missing_local_drive()),
        }
    }

    /// Get the remote config
    pub fn get_remote(&self) -> (res: Result<RemoteDrive, NativeError>)
        ensures
            match self@.remote {
                Some(r) => res matches Ok(d) && d@ == r,
                None => res matches Err(e) && e.kind() == NativeErrorKind::MissingRemoteDrive,
            },
    {
        match &self.remote {
            Some(r) => Ok(r.duplicate()),
            None => Err(NativeError::missing_remote_drive()),
        }
    }

    /// Update the LocalDrive
    pub fn set_local(&mut self, local: LocalDrive)
        ensures
            final(self)@ == (OmniDriveView { local: Some(local@), ..old(self)@ }),
    {
        self.local = Some(local);
    }

    /// Update the RemoteDrive
    pub fn set_remote(&mut self, remote: RemoteDrive)
        ensures
            final(self)@ == (OmniDriveView { remote: Some(remote@), ..old(self)@ }),
    {
        self.remote = Some(remote);
    }
}


/// The current metadata of a Drive on the platform: the root identifiers of its
/// metadata and of its content.
#[derive(Debug)]
pub struct RemoteMetadata {
    pub metadata_cid: String,
    pub root_cid: String,
}

/// The next step in working out a Drive's sync state.
#[derive(Debug, PartialEq, Eq, Structural)]
pub enum SyncProbe {
    /// The state is known.
    Settled(SyncState),
    /// Fetch the current platform metadata of the Drive with this identifier.
    FetchCurrent(u128),
    /// Fetch the metadata identifiers that the platform keeps for the Drive with this identifier.
    FetchAll(u128),
}

/// The first step: a Drive without a platform identifier is unpublished.
pub open spec fn begin_probe_spec(v: OmniDriveView) -> SyncProbe {
    match id_of(v) {
        None => SyncProbe::Settled(SyncState::Unpublished),
        Some(id) => SyncProbe::FetchCurrent(id),
    }
}

/// The step after the current metadata was fetched (`None` when fetching failed).
pub open spec fn after_current_spec(v: OmniDriveView, id: u128, current: Option<(Seq<char>, Seq<char>)>) -> SyncProbe {
    match current {
        None => SyncProbe::Settled(SyncState::Unpublished),
        Some((metadata_cid, root_cid)) => match v.local {
            None => SyncProbe::Settled(SyncState::Unlocalized),
            Some(l) => if l.metadata_root == Some(metadata_cid) {
                if l.content_root == Some(root_cid) {
                    SyncProbe::Settled(SyncState::AllSynced)
                } else {
                    SyncProbe::Settled(SyncState::MetadataSynced)
                }
            } else {
                SyncProbe::FetchAll(id)
            },
        },
    }
}

/// The state once all platform metadata identifiers are known: behind when the
/// local metadata is among them, ahead otherwise.
pub open spec fn after_all_spec(l: LocalDriveView, all: Seq<Seq<char>>) -> SyncState {
    if exists|i: int| 0 <= i < all.len() && Some(#[trigger] all[i]) == l.metadata_root {
        SyncState::Behind
    } else {
        SyncState::Ahead
    }
}

/// The sync state of a Drive given what the platform reports: `current` is the current
/// metadata (`None` when it could not be read) and `all` the metadata identifiers it keeps.
pub open spec fn classify(v: OmniDriveView, current: Option<(Seq<char>, Seq<char>)>, all: Seq<Seq<char>>) -> SyncState {
    match begin_probe_spec(v) {
        SyncProbe::Settled(s) => s,
        SyncProbe::FetchCurrent(id) => match after_current_spec(v, id, current) {
            SyncProbe::Settled(s) => s,
            _ => after_all_spec(v.local.unwrap(), all),
        },
        _ => SyncState::Unknown,
    }
}

/// The abstract value of fetched metadata.
pub open spec fn metadata_view(m: Option<RemoteMetadata>) -> Option<(Seq<char>, Seq<char>)> {
    match m {
        Some(m) => Some((m.metadata_cid@, m.root_cid@)),
        None => None,
    }
}

/// Whether two optional strings hold the same text.
fn same_opt(a: &Option<String>, b: &String) -> (res: bool)
    ensures
        res == (crate::drive_model::opt_view(*a) == Some(b@)),
{
    match a {
        Some(x) => *x == *b,
        None => false,
    }
}

impl OmniDrive {
    /// Starts working out the sync state.
    pub fn begin_sync_probe(&self) -> (res: SyncProbe)
        ensures
            res == begin_probe_spec(self@),
    {
        match self.get_id() {
            Ok(id) => SyncProbe::FetchCurrent(id),
            Err(_) => SyncProbe::Settled(SyncState::Unpublished),
        }
    }

    /// Continues once the current platform metadata of the Drive `id` was fetched.
    pub fn after_current_metadata(&self, id: u128, current: &Option<RemoteMetadata>) -> (res: SyncProbe)
        ensures
            res == after_current_spec(self@, id, metadata_view(*current)),
    {
        match current {
            None => SyncProbe::Settled(SyncState::Unpublished),
            Some(cur) => match &self.local {
                None => SyncProbe::Settled(SyncState::Unlocalized),
                Some(l) => {
                    if same_opt(&l.metadata_root, &cur.metadata_cid) {
                        if same_opt(&l.content_root, &cur.root_cid) {
                            SyncProbe::Settled(SyncState::AllSynced)
                        } else {
                            SyncProbe::Settled(SyncState::MetadataSynced)
                        }
                    } else {
                        SyncProbe::FetchAll(id)
                    }
                },
            },
        }
    }

    /// Finishes once the platform's metadata identifiers for the Drive were fetched.
    pub fn after_all_metadata(&self, all: &Vec<String>) -> (res: SyncState)
        requires
            self@.local is Some,
        ensures
            res == after_all_spec(self@.local.unwrap(), all@.map_values(|s: String| s@)),
    {
        let ghost av = all@.map_values(|s: String| s@);
        let l = self.local.as_ref().unwrap();
        let n = all.len();
        for i in 0..n
            invariant
                n == all@.len(),
                av == all@.map_values(|s: String| s@),
                self.local matches Some(x) && x == *l,
                forall|j: int| 0 <= j < i ==> Some(#[trigger] av[j]) != l@.metadata_root,
        {
            if same_opt(&l.metadata_root, &all[i]) {
                assert(Some(av[i as int]) == l@.metadata_root);
                return SyncState::Behind;
            }
        }
        SyncState::Ahead
    }
}

/// The key under which a Drive is listed: its platform identifier.
pub open spec fn entry_key(v: OmniDriveView) -> Option<u128> {
    id_of(v)
}

/// The listing of the local Drives that record a platform identifier, keyed by it; a later
/// Drive with the same identifier is the same Drive and replaces the earlier one.
pub open spec fn merge_locals(ls: Seq<LocalDriveView>) -> Map<Option<u128>, OmniDriveView>
    decreases ls.len(),
{
    if ls.len() == 0 {
        Map::empty()
    } else if ls.last().remote_id is Some {
        merge_locals(ls.drop_last()).insert(ls.last().remote_id, from_local_spec(ls.last()))
    } else {
        merge_locals(ls.drop_last())
    }
}

/// The entries of the local Drives that record no platform identifier, one per Drive, in order.
pub open spec fn unpublished_entries(ls: Seq<LocalDriveView>) -> Seq<OmniDriveView>
    decreases ls.len(),
{
    if ls.len() == 0 {
        Seq::empty()
    } else if ls.last().remote_id is None {
        unpublished_entries(ls.drop_last()).push(from_local_spec(ls.last()))
    } else {
        unpublished_entries(ls.drop_last())
    }
}

/// `v` lists the Drives known locally or remotely: first each Drive with a platform
/// identifier once, as `merged` keys them, then each local Drive without one, in order.
pub open spec fn listing_of(v: Seq<OmniDriveView>, ls: Seq<LocalDriveView>, rs: Seq<RemoteDriveView>) -> bool {
    let u = unpublished_entries(ls);
    &&& v.len() >= u.len()
    &&& lists_exactly(v.take(v.len() - u.len()), merged(ls, rs))
    &&& v.skip(v.len() - u.len()) == u
}

/// Adds the remote Drives to a listing: a remote Drive whose identifier is listed joins
/// that entry's local Drive, with its state still to be worked out; otherwise it is listed alone.
pub open spec fn merge_remotes(m: Map<Option<u128>, OmniDriveView>, rs: Seq<RemoteDriveView>) -> Map<Option<u128>, OmniDriveView>
    decreases rs.len(),
{
    if rs.len() == 0 {
        m
    } else {
        let m0 = merge_remotes(m, rs.drop_last());
        let r = rs.last();
        let k = Some(r.id);
        if m0.contains_key(k) {
            m0.insert(k, OmniDriveView { local: m0[k].local, remote: Some(r), sync_state: SyncState::Unknown })
        } else {
            m0.insert(k, from_remote_spec(r))
        }
    }
}

/// The listing of all Drives known locally or remotely.
pub open spec fn merged(ls: Seq<LocalDriveView>, rs: Seq<RemoteDriveView>) -> Map<Option<u128>, OmniDriveView> {
    merge_remotes(merge_locals(ls), rs)
}

/// The abstract values of a list of Drives.
pub open spec fn omni_views(v: Seq<OmniDrive>) -> Seq<OmniDriveView> {
    v.map_values(|o: OmniDrive| o@)
}

/// A list of Drives that holds exactly the entries of the map `m`, each once.
pub open spec fn lists_exactly(v: Seq<OmniDriveView>, m: Map<Option<u128>, OmniDriveView>) -> bool {
    &&& forall|i: int, j: int| 0 <= i < v.len() && 0 <= j < v.len() && i != j ==> entry_key(#[trigger] v[i]) != entry_key(#[trigger] v[j])
    &&& forall|i: int| 0 <= i < v.len() ==> m.contains_key(entry_key(#[trigger] v[i])) && m[entry_key(v[i])] == v[i]
    &&& forall|k: Option<u128>| #[trigger] m.contains_key(k) ==> exists|i: int| 0 <= i < v.len() && entry_key(#[trigger] v[i]) == k
}

impl OmniDrive {
    /// The key under which this Drive is listed.
    pub fn key(&self) -> (res: Option<u128>)
        ensures
            res == entry_key(self@),
    {
        match self.get_id() {
            Ok(id) => Some(id),
            Err(_) => None,
        }
    }
}

/// The position of the entry with key `k`, if any.
fn find_key(entries: &Vec<OmniDrive>, k: Option<u128>) -> (res: Option<usize>)
    ensures
        match res {
            Some(i) => i < entries@.len() && entry_key(entries@[i as int]@) == k,
            None => forall|i: int| 0 <= i < entries@.len() ==> entry_key(#[trigger] entries@[i]@) != k,
        },
{
    let n = entries.len();
    for i in 0..n
        invariant
            n == entries@.len(),
            forall|j: int| 0 <= j < i ==> entry_key(#[trigger] entries@[j]@) != k,
    {
        if entries[i].key() == k {
            return Some(i);
        }
    }
    None
}

/// Lists every Drive known locally or remotely: each Drive with a platform identifier
/// once, then each local Drive that has none. Drives known on both sides are left in the
/// `Unknown` state, to be worked out from the platform.
pub fn merge_drives(locals: &Vec<LocalDrive>, remotes: &Vec<RemoteDrive>) -> (res: Vec<OmniDrive>)
    ensures
        listing_of(omni_views(res@), locals@.map_values(|l: LocalDrive| l@), remotes@.map_values(|r: RemoteDrive| r@)),
{
    let ghost lv = locals@.map_values(|l: LocalDrive| l@);
    let ghost rv = remotes@.map_values(|r: RemoteDrive| r@);
    let mut entries: Vec<OmniDrive> = Vec::new();
    let mut unpublished: Vec<OmniDrive> = Vec::new();
    let nl = locals.len();
    assert(lists_exactly(omni_views(entries@), merge_locals(lv.take(0)))) by {
        assert(lv.take(0) =~= Seq::<LocalDriveView>::empty());
        assert(merge_locals(lv.take(0)) =~= Map::<Option<u128>, OmniDriveView>::empty());
    }
    assert(omni_views(unpublished@) =~= unpublished_entries(lv.take(0))) by {
        assert(lv.take(0) =~= Seq::<LocalDriveView>::empty());
    }
    for i in 0..nl
        invariant
            nl == locals@.len(),
            lv == locals@.map_values(|l: LocalDrive| l@),
            lists_exactly(omni_views(entries@), merge_locals(lv.take(i as int))),
            omni_views(unpublished@) == unpublished_entries(lv.take(i as int)),
    {
        let ghost m0 = merge_locals(lv.take(i as int));
        let ghost old_v = omni_views(entries@);
        let ghost old_u = omni_views(unpublished@);
        assert(lv.take(i + 1).drop_last() =~= lv.take(i as int));
        let fresh = OmniDrive::from_local(&locals[i]);
        let k = locals[i].remote_id;
        assert(entry_key(fresh@) == k);
        if k.is_none() {
            unpublished.push(fresh);
            assert(omni_views(unpublished@) =~= old_u.push(from_local_spec(lv[i as int])));
            assert(merge_locals(lv.take(i + 1)) == m0);
        } else {
            let ghost m1 = m0.insert(lv[i as int].remote_id, from_local_spec(lv[i as int]));
            assert(merge_locals(lv.take(i + 1)) == m1);
            assert(unpublished_entries(lv.take(i + 1)) == old_u);
            match find_key(&entries, k) {
                Some(j) => {
                    assert(old_v[j as int] == entries@[j as int]@);
                    entries.set(j, fresh);
                    let ghost new_v = omni_views(entries@);
                    assert(new_v =~= old_v.update(j as int, from_local_spec(lv[i as int])));
                    assert forall|x: int| 0 <= x < new_v.len() implies m1.contains_key(entry_key(#[trigger] new_v[x])) && m1[entry_key(new_v[x])] == new_v[x] by {
                        if x != j {
                            assert(entry_key(old_v[x]) != entry_key(old_v[j as int]));
                        }
                    }
                    assert forall|kk: Option<u128>| #[trigger] m1.contains_key(kk) implies exists|x: int| 0 <= x < new_v.len() && entry_key(#[trigger] new_v[x]) == kk by {
                        if kk == k {
                            assert(entry_key(new_v[j as int]) == kk);
                        } else {
                            let x = choose|x: int| 0 <= x < old_v.len() && entry_key(#[trigger] old_v[x]) == kk;
                            assert(entry_key(new_v[x]) == kk);
                        }
                    }
                },
                None => {
                    entries.push(fresh);
                    let ghost new_v = omni_views(entries@);
                    assert(new_v =~= old_v.push(from_local_spec(lv[i as int])));
                    assert forall|x: int| 0 <= x < old_v.len() implies entry_key(#[trigger] old_v[x]) != k by {
                        assert(old_v[x] == entries@[x]@);
                    }
                    assert forall|x: int| 0 <= x < new_v.len() implies m1.contains_key(entry_key(#[trigger] new_v[x])) && m1[entry_key(new_v[x])] == new_v[x] by {
                        if x < old_v.len() {
                            assert(new_v[x] == old_v[x]);
                        }
                    }
                    assert forall|kk: Option<u128>| #[trigger] m1.contains_key(kk) implies exists|x: int| 0 <= x < new_v.len() && entry_key(#[trigger] new_v[x]) == kk by {
                        if kk == k {
                            assert(entry_key(new_v[old_v.len() as int]) == kk);
                        } else {
                            let x = choose|x: int| 0 <= x < old_v.len() && entry_key(#[trigger] old_v[x]) == kk;
                            assert(entry_key(new_v[x]) == kk);
                        }
                    }
                },
            }
        }
    }
    assert(lv.take(nl as int) =~= lv);
    let ghost ml = merge_locals(lv);
    let nr = remotes.len();
    assert(rv.take(0) =~= Seq::<RemoteDriveView>::empty());
    for i in 0..nr
        invariant
            nr == remotes@.len(),
            rv == remotes@.map_values(|r: RemoteDrive| r@),
            lists_exactly(omni_views(entries@), merge_remotes(ml, rv.take(i as int))),
    {
        let ghost m0 = merge_remotes(ml, rv.take(i as int));
        let ghost old_v = omni_views(entries@);
        assert(rv.take(i + 1).drop_last() =~= rv.take(i as int));
        let k = Some(remotes[i].id);
        match find_key(&entries, k) {
            Some(j) => {
                assert(old_v[j as int] == entries@[j as int]@);
                assert(m0.contains_key(k));
                assert(m0[k] == old_v[j as int]);
                let joined = OmniDrive {
                    local: dup_local(&entries[j].local),
                    remote: Some(remotes[i].duplicate()),
                    sync_state: SyncState::Unknown,
                };
                let ghost m1 = m0.insert(k, OmniDriveView { local: m0[k].local, remote: Some(rv[i as int]), sync_state: SyncState::Unknown });
                assert(merge_remotes(ml, rv.take(i + 1)) == m1);
                assert(entry_key(joined@) == k);
                entries.set(j, joined);
                let ghost new_v = omni_views(entries@);
                assert(new_v =~= old_v.update(j as int, m1[k]));
                assert forall|x: int| 0 <= x < new_v.len() implies m1.contains_key(entry_key(#[trigger] new_v[x])) && m1[entry_key(new_v[x])] == new_v[x] by {
                    if x != j {
                        assert(entry_key(old_v[x]) != entry_key(old_v[j as int]));
                    }
                }
                assert forall|kk: Option<u128>| #[trigger] m1.contains_key(kk) implies exists|x: int| 0 <= x < new_v.len() && entry_key(#[trigger] new_v[x]) == kk by {
                    if kk == k {
                        assert(entry_key(new_v[j as int]) == kk);
                    } else {
                        let x = choose|x: int| 0 <= x < old_v.len() && entry_key(#[trigger] old_v[x]) == kk;
                        assert(entry_key(new_v[x]) == kk);
                    }
                }
            },
            None => {
                assert(!m0.contains_key(k)) by {
                    if m0.contains_key(k) {
                        let x = choose|x: int| 0 <= x < old_v.len() && entry_key(#[trigger] old_v[x]) == k;
                        assert(entry_key(entries@[x]@) != k);
                    }
                }
                let fresh = OmniDrive::from_remote(&remotes[i]);
                let ghost m1 = m0.insert(k, from_remote_spec(rv[i as int]));
                assert(merge_remotes(ml, rv.take(i + 1)) == m1);
                entries.push(fresh);
                let ghost new_v = omni_views(entries@);
                assert(new_v =~= old_v.push(from_remote_spec(rv[i as int])));
                assert forall|x: int| 0 <= x < old_v.len() implies entry_key(#[trigger] old_v[x]) != k by {
                    assert(old_v[x] == entries@[x]@);
                }
                assert forall|x: int| 0 <= x < new_v.len() implies m1.contains_key(entry_key(#[trigger] new_v[x])) && m1[entry_key(new_v[x])] == new_v[x] by {
                    if x < old_v.len() {
                        assert(new_v[x] == old_v[x]);
                    }
                }
                assert forall|kk: Option<u128>| #[trigger] m1.contains_key(kk) implies exists|x: int| 0 <= x < new_v.len() && entry_key(#[trigger] new_v[x]) == kk by {
                    if kk == k {
                        assert(entry_key(new_v[old_v.len() as int]) == kk);
                    } else {
                        let x = choose|x: int| 0 <= x < old_v.len() && entry_key(#[trigger] old_v[x]) == kk;
                        assert(entry_key(new_v[x]) == kk);
                    }
                }
            },
        }
    }
    assert(rv.take(nr as int) =~= rv);
    let ghost ev = omni_views(entries@);
    let ghost uv = omni_views(unpublished@);
    let mut rest = unpublished;
    entries.append(&mut rest);
    proof {
        let v = omni_views(entries@);
        assert(v =~= ev + uv);
        assert(v.take(v.len() - uv.len()) =~= ev);
        assert(v.skip(v.len() - uv.len()) =~= uv);
    }
    entries
}

impl OmniDrive {
    /// The Drive's sync state.
    pub fn current_sync_state(&self) -> (res: SyncState)
        ensures
            res == self@.sync_state,
    {
        self.sync_state
    }

    /// Records the end of a download: once the platform's metadata is pulled down
    /// (`pulled`), the Drive's metadata is synced while its files are not yet rebuilt;
    /// a failed download leaves the Drive as it was.
    pub fn finish_download(&mut self, pulled: bool)
        ensures
            final(self)@ == (if pulled {
                OmniDriveView { sync_state: SyncState::MetadataSynced, ..old(self)@ }
            } else {
                old(self)@
            }),
    {
        if pulled {
            self.sync_state = SyncState::MetadataSynced;
        }
    }

    /// Records the end of an upload: the Drive is all synced exactly when its content
    /// reached the storage host (`uploaded`); otherwise it stays as it was.
    pub fn finish_upload(&mut self, uploaded: bool)
        ensures
            final(self)@ == (if uploaded {
                OmniDriveView { sync_state: SyncState::AllSynced, ..old(self)@ }
            } else {
                old(self)@
            }),
    {
        if uploaded {
            self.sync_state = SyncState::AllSynced;
        }
    }

    /// Records the end of a reconstruction: once the files are restored (`restored`), the
    /// metadata root becomes the content root too and the Drive is all synced; a failed
    /// restore leaves the Drive as it was. Fails, changing nothing, without a local Drive
    /// or without a metadata root.
    pub fn finish_reconstruct(&mut self, restored: bool) -> (res: Result<(), NativeError>)
        ensures
            match old(self)@.local {
                None => (res matches Err(e) && e.kind() == NativeErrorKind::MissingLocalDrive) && final(self)@ == old(self)@,
                Some(l) => match l.metadata_root {
                    None => (res matches Err(e) && e.kind() matches NativeErrorKind::Filesystem(m) && m@ == "root cid"@)
                        && final(self)@ == old(self)@,
                    Some(m) => res is Ok && final(self)@ == (if restored {
                        OmniDriveView {
                            local: Some(LocalDriveView { content_root: Some(m), ..l }),
                            sync_state: SyncState::AllSynced,
                            ..old(self)@
                        }
                    } else {
                        old(self)@
                    }),
                },
            },
    {
        let root = match &self.local {
            None => return Err(NativeError::missing_local_drive()),
            Some(l) => match &l.metadata_root {
                None => return Err(NativeError::filesytem(String::from_str("root cid"))),
                Some(m) => m.clone(),
            },
        };
        if restored {
            let mut local = self.local.take().unwrap();
            local.content_root = Some(root);
            self.local = Some(local);
            self.sync_state = SyncState::AllSynced;
        }
        Ok(())
    }

    /// Works out the Drive's sync state from what the platform holds: its current metadata
    /// (none when it cannot be read) and all its metadata roots. The copies stay as they are.
    pub fn refresh_sync_state(&mut self, current: &Option<RemoteMetadata>, all: &Vec<String>)
        ensures
            final(self)@ == (OmniDriveView {
                sync_state: classify(old(self)@, metadata_view(*current), all@.map_values(|s: String| s@)),
                ..old(self)@
            }),
    {
        let state = match self.begin_sync_probe() {
            SyncProbe::FetchCurrent(id) => match self.after_current_metadata(id, current) {
                SyncProbe::Settled(s) => s,
                _ => self.after_all_metadata(all),
            },
            SyncProbe::Settled(s) => s,
            SyncProbe::FetchAll(_) => SyncState::Unknown,
        };
        self.sync_state = state;
    }
}

/// Whether two optional paths are both absent or both present with the same components.
pub open spec fn same_opt_path(a: Option<Seq<char>>, b: Option<Seq<char>>) -> bool {
    match (a, b) {
        (None, None) => true,
        (Some(x), Some(y)) => components(x) == components(y),
        _ => false,
    }
}

/// A local Drive answers a specifier when its recorded identifier equals the specified one
/// (both may be absent), when its folder is the specified folder, or when its name is the
/// specified name.
pub open spec fn local_matches(l: LocalDriveView, s: DriveSpecifierView) -> bool {
    ||| l.remote_id == s.drive_id
    ||| same_opt_path(Some(l.origin), s.origin)
    ||| Some(l.name) == s.name
}

/// A remote Drive answers a specifier when its identifier or its name is the specified one.
pub open spec fn remote_matches(r: RemoteDriveView, s: DriveSpecifierView) -> bool {
    ||| Some(r.id) == s.drive_id
    ||| Some(r.name) == s.name
}

/// Whether `x` is the first element of `s` that satisfies `p`, or there is none and `x` is `None`.
pub open spec fn first_match<A>(s: Seq<A>, p: spec_fn(A) -> bool, x: Option<A>) -> bool {
    match x {
        Some(v) => exists|i: int| 0 <= i < s.len() && s[i] == v && p(s[i]) && forall|j: int| 0 <= j < i ==> !p(#[trigger] s[j]),
        None => forall|j: int| 0 <= j < s.len() ==> !p(#[trigger] s[j]),
    }
}

/// Whether the optional name equals a string.
fn name_is(a: &Option<String>, b: &String) -> (res: bool)
    ensures
        res == (crate::drive_model::opt_view(*a) == Some(b@)),
{
    same_opt(a, b)
}

/// Whether a local Drive answers a specifier.
pub fn local_answers(l: &LocalDrive, s: &DriveSpecifier) -> (res: bool)
    ensures
        res == local_matches(l@, s@),
{
    if l.remote_id == s.drive_id {
        return true;
    }
    let by_origin = match &s.origin {
        Some(o) => same_path(l.origin.as_str(), o.as_str()),
        None => false,
    };
    by_origin || name_is(&s.name, &l.name)
}

/// Whether a remote Drive answers a specifier.
pub fn remote_answers(r: &RemoteDrive, s: &DriveSpecifier) -> (res: bool)
    ensures
        res == remote_matches(r@, s@),
{
    let by_id = match s.drive_id {
        Some(id) => id == r.id,
        None => false,
    };
    by_id || name_is(&s.name, &r.name)
}

/// The first local Drive that answers the specifier.
pub fn find_local(drives: &Vec<LocalDrive>, s: &DriveSpecifier) -> (res: Option<LocalDrive>)
    ensures
        first_match(drives@.map_values(|l: LocalDrive| l@), |l: LocalDriveView| local_matches(l, s@), local_view(res)),
{
    let ghost dv = drives@.map_values(|l: LocalDrive| l@);
    let n = drives.len();
    for i in 0..n
        invariant
            n == drives@.len(),
            dv == drives@.map_values(|l: LocalDrive| l@),
            forall|j: int| 0 <= j < i ==> !local_matches(#[trigger] dv[j], s@),
    {
        if local_answers(&drives[i], s) {
            let found = drives[i].duplicate();
            assert(dv[i as int] == found@);
            return Some(found);
        }
    }
    None
}

/// The first remote Drive that answers the specifier.
pub fn find_remote(drives: &Vec<RemoteDrive>, s: &DriveSpecifier) -> (res: Option<RemoteDrive>)
    ensures
        first_match(drives@.map_values(|r: RemoteDrive| r@), |r: RemoteDriveView| remote_matches(r, s@), remote_view(res)),
{
    let ghost dv = drives@.map_values(|r: RemoteDrive| r@);
    let n = drives.len();
    for i in 0..n
        invariant
            n == drives@.len(),
            dv == drives@.map_values(|r: RemoteDrive| r@),
            forall|j: int| 0 <= j < i ==> !remote_matches(#[trigger] dv[j], s@),
    {
        if remote_answers(&drives[i], s) {
            let found = drives[i].duplicate();
            assert(dv[i as int] == found@);
            return Some(found);
        }
    }
    None
}

/// The Drive named by a specifier, from what was found on each side: a local Drive that
/// has a remote counterpart records the counterpart's identifier.
pub open spec fn paired(l: Option<LocalDriveView>, r: Option<RemoteDriveView>) -> OmniDriveView {
    match (l, r) {
        (Some(l), Some(r)) => OmniDriveView {
            local: Some(LocalDriveView { remote_id: Some(r.id), ..l }),
            remote: Some(r),
            sync_state: SyncState::Unknown,
        },
        _ => OmniDriveView { local: l, remote: r, sync_state: SyncState::Unknown },
    }
}

impl OmniDrive {
    /// The Drive that a specifier names, from the local Drives of the configuration
    /// (`None` when the configuration could not be read) and the remote Drives of the
    /// platform (`None` when no client could be made). Its sync state is left `Unknown`;
    /// it is worked out with the probe functions when a client is available.
    pub fn from_specifier(
        drive_specifier: &DriveSpecifier,
        local_drives: Option<&Vec<LocalDrive>>,
        remote_drives: Option<&Vec<RemoteDrive>>,
    ) -> (res: Self)
        ensures
            match local_drives {
                None => res@ == paired(None, None),
                Some(ls) => exists|l: Option<LocalDriveView>, r: Option<RemoteDriveView>|
                    first_match(ls@.map_values(|x: LocalDrive| x@), |x: LocalDriveView| local_matches(x, drive_specifier@), l)
                    && match remote_drives {
                        None => r is None,
                        Some(rs) => first_match(rs@.map_values(|x: RemoteDrive| x@), |x: RemoteDriveView| remote_matches(x, drive_specifier@), r),
                    }
                    && res@ == paired(l, r),
            },
    {
        let mut omni = Self { local: None, remote: None, sync_state: SyncState::Unknown };
        if let Some(ls) = local_drives {
            omni.local = find_local(ls, drive_specifier);
            if let Some(rs) = remote_drives {
                omni.remote = find_remote(rs, drive_specifier);
            }
            let ghost l0 = local_view(omni.local);
            let ghost r0 = remote_view(omni.remote);
            if omni.local.is_some() && omni.remote.is_some() {
                let id = omni.remote.as_ref().unwrap().id;
                let mut local = omni.local.take().unwrap();
                local.remote_id = Some(id);
                omni.local = Some(local);
            }
            assert(omni@ == paired(l0, r0));
        }
        omni
    }
}

impl OmniDrive {
    /// The Drive made by `create`: the local Drive that was set up (if any) records the
    /// identifier of the remote Drive that was created (if any).
    pub fn from_created(local: Option<LocalDrive>, remote: Option<RemoteDrive>) -> (res: Self)
        ensures
            res@ == paired(local_view(local), remote_view(remote)),
    {
        let mut local = local;
        if let Some(r) = &remote {
            if let Some(l) = &mut local {
                l.remote_id = Some(r.id);
            }
        }
        Self { local, remote, sync_state: SyncState::Unknown }
    }

    /// Takes on a remote Drive just created for this Drive: the local Drive records its
    /// identifier. Returns the updated local Drive, to be saved in the configuration.
    pub fn adopt_remote(&mut self, remote: RemoteDrive) -> (res: LocalDrive)
        requires
            old(self)@.local is Some,
        ensures
            res@ == (LocalDriveView { remote_id: Some(remote@.id), ..old(self)@.local.unwrap() }),
            final(self)@ == (OmniDriveView { local: Some(res@), remote: Some(remote@), ..old(self)@ }),
    {
        let id = remote.id;
        self.remote = Some(remote);
        let mut local = self.local.take().unwrap();
        local.remote_id = Some(id);
        let saved = local.duplicate();
        self.local = Some(local);
        saved
    }

    /// Takes on a local Drive just set up for this remote Drive: it records the remote identifier.
    pub fn adopt_local(&mut self, local: LocalDrive)
        requires
            old(self)@.remote is Some,
        ensures
            final(self)@ == (OmniDriveView {
                local: Some(LocalDriveView { remote_id: Some(old(self)@.remote.unwrap().id), ..local@ }),
                ..old(self)@
            }),
    {
        let mut local = local;
        local.remote_id = Some(self.remote.as_ref().unwrap().id);
        self.local = Some(local);
    }
}

impl OmniDrive {
    /// Describes a Drive: which copies exist, its attributes and its sync state.
    pub fn report(&self) -> (res: Vec<Segment>)
        ensures
            segments_view(res@) == info_report_spec(self@),
    {
        let mut v: Vec<Segment> = Vec::new();
        let local = self.get_local();
        let remote = self.get_remote();
        push_lit(&mut v, "| DRIVE INFO |", Style::Colored(Color::Yellow));
        push_lit(&mut v, "\nlocally tracked:\t", Style::Plain);
        push_flag(&mut v, local.is_ok());
        push_lit(&mut v, "\nremotely tracked:\t", Style::Plain);
        push_flag(&mut v, remote.is_ok());
        let ghost head = segments_view(v@);
        match (local, remote) {
            (Ok(l), Ok(r)) => {
                let mut s = String::from_str("\nname:\t\t\t");
                s.append(r.name.as_str());
                s.append("\ndrive_id:\t\t");
                let id = crate::specifiers::uuid_to_string(r.id);
                s.append(id.as_str());
                s.append("\norigin:\t\t\t");
                s.append(l.origin.as_str());
                s.append("\ntype:\t\t\t");
                crate::omni_ops::append_type(&mut s, r.kind);
                s.append("\nstorage_class:\t\t");
                crate::omni_ops::append_class(&mut s, r.storage_class);
                s.append("\nstorage_ticket:\t\t");
                push_text(&mut v, &s, Style::Plain);
                match &l.storage_ticket {
                    Some(t) => push_text(&mut v, &t.host, Style::Plain),
                    None => push_lit(&mut v, "None", Style::Colored(Color::Yellow)),
                }
                assert(segments_view(v@) =~= head + details(self@));
            },
            (Ok(l), Err(_)) => {
                let mut s = String::from_str("\nname:\t\t\t");
                s.append(l.name.as_str());
                s.append("\norigin:\t\t\t");
                s.append(l.origin.as_str());
                push_text(&mut v, &s, Style::Plain);
                assert(s@ =~= "\n"@ + local_lines(l@)) by {
                    reveal_strlit("\nname:\t\t\t");
                    reveal_strlit("name:\t\t\t");
                    reveal_strlit("\n");
                }
                assert(segments_view(v@) =~= head + details(self@));
            },
            (Err(_), Ok(r)) => {
                let mut s = String::from_str("\nname:\t\t\t");
                s.append(r.name.as_str());
                s.append("\ndrive_id:\t\t");
                let id = crate::specifiers::uuid_to_string(r.id);
                s.append(id.as_str());
                s.append("\ntype:\t\t\t");
                crate::omni_ops::append_type(&mut s, r.kind);
                s.append("\nstorage_class:\t\t");
                crate::omni_ops::append_class(&mut s, r.storage_class);
                push_text(&mut v, &s, Style::Plain);
                assert(s@ =~= "\n"@ + remote_lines(r@)) by {
                    reveal_strlit("\nname:\t\t\t");
                    reveal_strlit("name:\t\t\t");
                    reveal_strlit("\n");
                }
                assert(segments_view(v@) =~= head + details(self@));
            },
            (Err(_), Err(_)) => {
                assert(segments_view(v@) =~= head + details(self@));
            },
        }
        let ghost mid = segments_view(v@);
        push_lit(&mut v, "\nsync_status:\t\t", Style::Plain);
        let d = self.sync_state.description();
        let ghost before = segments_view(v@);
        v.push(d);
        assert(segments_view(v@) =~= before.push((state_text(self@.sync_state), Style::Colored(state_color(self@.sync_state)))));
        push_lit(&mut v, "\n", Style::Plain);
        assert(segments_view(v@) =~= info_report_spec(self@));
        v
    }
}


/// What a sync does, by sync state.
#[derive(Debug, PartialEq, Eq, Structural)]
pub enum SyncPlan {
    /// Pull the platform's metadata down.
    Download,
    /// Push the local metadata and content up.
    Upload,
    /// Rebuild the Drive's files from synced metadata.
    Reconstruct,
    /// Nothing to do.
    AlreadySynced,
    /// Work out the sync state first.
    Refresh,
}

/// The sync step for each state.
pub open spec fn sync_plan_spec(s: SyncState) -> SyncPlan {
    match s {
        SyncState::Unlocalized | SyncState::Behind => SyncPlan::Download,
        SyncState::Unpublished | SyncState::Ahead => SyncPlan::Upload,
        SyncState::MetadataSynced => SyncPlan::Reconstruct,
        SyncState::AllSynced => SyncPlan::AlreadySynced,
        SyncState::Unknown => SyncPlan::Refresh,
    }
}

/// What a metadata push sends about a Drive.
#[derive(Debug)]
pub struct PushRequest {
    pub drive_id: u128,
    pub root_cid: String,
    pub metadata_cid: String,
    pub previous_cid: Option<String>,
    pub deleted_block_cids: Vec<String>,
}

/// Where a Drive's files are put when it is pulled.
#[derive(Debug)]
pub enum OriginPlan {
    /// The local Drive's folder.
    Existing(String),
    /// A new folder for the remote Drive `name`.
    Create { path: String, name: String },
}

impl OmniDrive {
    /// The sync step for this Drive's state.
    pub fn sync_plan(&self) -> (res: SyncPlan)
        ensures
            res == sync_plan_spec(self@.sync_state),
    {
        match self.sync_state {
            SyncState::Unlocalized | SyncState::Behind => SyncPlan::Download,
            SyncState::Unpublished | SyncState::Ahead => SyncPlan::Upload,
            SyncState::MetadataSynced => SyncPlan::Reconstruct,
            SyncState::AllSynced => SyncPlan::AlreadySynced,
            SyncState::Unknown => SyncPlan::Refresh,
        }
    }

    /// What to push: the Drive's identifier and the local roots, previous push and
    /// deleted blocks. Fails without a local Drive, without an identifier, or without
    /// a content or a metadata root.
    pub fn push_request(&self) -> (res: Result<PushRequest, NativeError>)
        ensures
            match (self@.local, id_of(self@)) {
                (None, _) => res matches Err(e) && e.kind() == NativeErrorKind::MissingLocalDrive,
                (Some(_), None) => res matches Err(e) && e.kind() == NativeErrorKind::MissingIdentifier,
                (Some(l), Some(id)) => match (l.content_root, l.metadata_root) {
                    (None, _) => res matches Err(e) && e.kind() matches NativeErrorKind::Filesystem(m) && m@ == "root cid"@,
                    (Some(_), None) => res matches Err(e) && e.kind() matches NativeErrorKind::Filesystem(m) && m@ == "metdata cid"@,
                    (Some(root), Some(meta)) => res matches Ok(p) && p.drive_id == id && p.root_cid@ == root
                        && p.metadata_cid@ == meta && crate::drive_model::opt_view(p.previous_cid) == l.previous_cid
                        && p.deleted_block_cids@.map_values(|s: String| s@) == l.deleted_block_cids,
                },
            },
    {
        let local = match &self.local {
            Some(l) => l,
            None => return Err(NativeError::missing_local_drive()),
        };
        let drive_id = match self.get_id() {
            Ok(id) => id,
            Err(e) => return Err(e),
        };
        let root_cid = match &local.content_root {
            Some(c) => c.clone(),
            None => return Err(NativeError::filesytem(String::from_str("root cid"))),
        };
        let metadata_cid = match &local.metadata_root {
            Some(c) => c.clone(),
            None => return Err(NativeError::filesytem(String::from_str("metdata cid"))),
        };
        Ok(PushRequest {
            drive_id,
            root_cid,
            metadata_cid,
            previous_cid: crate::drive_model::clone_opt(&local.previous_cid),
            deleted_block_cids: crate::drive_model::clone_strings(&local.deleted_block_cids),
        })
    }

    /// Where the Drive's files go when it is pulled: the local folder when there is a local
    /// Drive, else the folder named after the remote Drive under `tomb` in `home`.
    pub fn origin_plan(&self, home: &str) -> (res: Result<OriginPlan, NativeError>)
        ensures
            match (self@.local, self@.remote) {
                (Some(l), _) => res matches Ok(OriginPlan::Existing(p)) && p@ == l.origin,
                (None, None) => res matches Err(e) && e.kind() == NativeErrorKind::MissingRemoteDrive,
                (None, Some(r)) => res matches Ok(OriginPlan::Create { path, name }) && name@ == r.name
                    && path@ == crate::paths::join(crate::paths::join(home@, "tomb"@), r.name),
            },
    {
        if let Some(l) = &self.local {
            return Ok(OriginPlan::Existing(l.origin.clone()));
        }
        match &self.remote {
            None => Err(NativeError::missing_remote_drive()),
            Some(r) => {
                let base = crate::paths::join_path(home, "tomb");
                let path = crate::paths::join_path(base.as_str(), r.name.as_str());
                Ok(OriginPlan::Create { path, name: r.name.clone() })
            },
        }
    }
}
} // verus!
