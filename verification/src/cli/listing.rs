use vstd::prelude::*;
use vstd::string::*;
use crate::cli::Persistence;
use crate::config::GlobalConfig;
use crate::error::ConfigStateError;
use crate::cli::display::Persistence as KeptAt;
use crate::paths::{file_name, name_of};

verus! {

/// A Drive as the platform lists it.
#[derive(Debug)]
pub struct PlatformDrive {
    pub id: String,
    pub name: String,
}

/// One row of the Drive listing.
#[derive(Debug)]
pub struct DriveRow {
    pub name: String,
    pub id: String,
    pub path: String,
    pub persistence: Persistence,
}

/// The abstract value of a listing row.
pub type RowView = (Seq<char>, Seq<char>, Seq<char>, Persistence);

impl DriveRow {
    pub open spec fn view(&self) -> RowView {
        (self.name@, self.id@, self.path@, self.persistence)
    }
}

/// The abstract value of a platform Drive: its name and identifier.
pub open spec fn pd_view(p: PlatformDrive) -> (Seq<char>, Seq<char>) {
    (p.name@, p.id@)
}

/// The views of a list of rows.
pub open spec fn rows_view(v: Seq<DriveRow>) -> Seq<RowView> {
    v.map_values(|r: DriveRow| r.view())
}

/// Whether the platform lists a Drive named `l`.
pub open spec fn on_platform(l: Seq<char>, ps: Seq<(Seq<char>, Seq<char>)>) -> bool {
    exists|j: int| 0 <= j < ps.len() && #[trigger] ps[j].0 == l
}

/// The rows for the local Drive `l` and each platform Drive of the same name.
pub open spec fn match_rows(l: Seq<char>, ps: Seq<(Seq<char>, Seq<char>)>, path: Seq<char>) -> Seq<RowView>
    decreases ps.len(),
{
    if ps.len() == 0 {
        Seq::empty()
    } else {
        let r = match_rows(l, ps.drop_last(), path);
        if ps.last().0 == l {
            r.push((ps.last().0, ps.last().1, path, Persistence::Sync))
        } else {
            r
        }
    }
}

/// The rows of Drives kept both locally and on the platform.
pub open spec fn sync_rows(ls: Seq<Seq<char>>, ps: Seq<(Seq<char>, Seq<char>)>, m: Map<Seq<char>, Seq<char>>) -> Seq<RowView>
    decreases ls.len(),
{
    if ls.len() == 0 {
        Seq::empty()
    } else {
        sync_rows(ls.drop_last(), ps, m) + match_rows(ls.last(), ps, m[ls.last()])
    }
}

/// The rows of Drives kept only locally.
pub open spec fn local_rows(ls: Seq<Seq<char>>, ps: Seq<(Seq<char>, Seq<char>)>, m: Map<Seq<char>, Seq<char>>) -> Seq<RowView>
    decreases ls.len(),
{
    if ls.len() == 0 {
        Seq::empty()
    } else {
        let r = local_rows(ls.drop_last(), ps, m);
        if on_platform(ls.last(), ps) {
            r
        } else {
            r.push((ls.last(), "N/A"@, m[ls.last()], Persistence::LocalOnly))
        }
    }
}

/// The rows of Drives kept only on the platform.
pub open spec fn platform_rows(ls: Seq<Seq<char>>, ps: Seq<(Seq<char>, Seq<char>)>) -> Seq<RowView>
    decreases ps.len(),
{
    if ps.len() == 0 {
        Seq::empty()
    } else {
        let r = platform_rows(ls, ps.drop_last());
        if ls.contains(ps.last().0) {
            r
        } else {
            r.push((ps.last().0, ps.last().1, "N/A"@, Persistence::PlatformOnly))
        }
    }
}

/// Every local Drive whose name satisfies `sel`, among the first `k`, has a folder.
pub open spec fn folders_known(ls: Seq<Seq<char>>, k: int, sel: spec_fn(Seq<char>) -> bool, m: Map<Seq<char>, Seq<char>>) -> bool {
    forall|j: int| 0 <= j < k && j < ls.len() && sel(#[trigger] ls[j]) ==> m.contains_key(ls[j])
}

/// The local Drives listed on the platform.
pub open spec fn synced_sel(ps: Seq<(Seq<char>, Seq<char>)>) -> spec_fn(Seq<char>) -> bool {
    |l: Seq<char>| on_platform(l, ps)
}

/// The local Drives not listed on the platform.
pub open spec fn local_sel(ps: Seq<(Seq<char>, Seq<char>)>) -> spec_fn(Seq<char>) -> bool {
    |l: Seq<char>| !on_platform(l, ps)
}

/// Whether `x` is the first local Drive, in the listing's order of lookups, whose folder is unknown:
/// Drives on the platform are looked up first, then the others.
pub open spec fn first_lost(ls: Seq<Seq<char>>, ps: Seq<(Seq<char>, Seq<char>)>, m: Map<Seq<char>, Seq<char>>, x: Seq<char>) -> bool {
    exists|i: int| 0 <= i < ls.len() && #[trigger] ls[i] == x && !m.contains_key(ls[i]) && {
        ||| on_platform(ls[i], ps) && folders_known(ls, i, synced_sel(ps), m)
        ||| !on_platform(ls[i], ps) && folders_known(ls, ls.len() as int, synced_sel(ps), m) && folders_known(ls, i, local_sel(ps), m)
    }
}

/// Whether a platform Drive named `name` is listed.
fn platform_has(ps: &Vec<PlatformDrive>, name: &String) -> (res: bool)
    ensures
        res == on_platform(name@, ps@.map_values(|p: PlatformDrive| pd_view(p))),
{
    let ghost pv = ps@.map_values(|p: PlatformDrive| pd_view(p));
    let n = ps.len();
    for j in 0..n
        invariant
            n == ps@.len(),
            pv == ps@.map_values(|p: PlatformDrive| pd_view(p)),
            forall|k: int| 0 <= k < j ==> #[trigger] pv[k].0 != name@,
    {
        if ps[j].name == *name {
            assert(pv[j as int].0 == name@);
            return true;
        }
    }
    false
}

/// Whether the list holds the name.
fn names_contain(ls: &Vec<String>, name: &String) -> (res: bool)
    ensures
        res == ls@.map_values(|s: String| s@).contains(name@),
{
    let ghost lv = ls@.map_values(|s: String| s@);
    let n = ls.len();
    for j in 0..n
        invariant
            n == ls@.len(),
            lv == ls@.map_values(|s: String| s@),
            forall|k: int| 0 <= k < j ==> #[trigger] lv[k] != name@,
    {
        if ls[j] == *name {
            assert(lv[j as int] == name@);
            return true;
        }
    }
    false
}

/// Lists the Drives: first those kept both locally and on the platform (one row per
/// platform Drive of a local Drive's name), then those kept only locally, then those kept
/// only on the platform. Fails on the first local Drive whose folder is not recorded.
pub fn drive_rows(local_names: &Vec<String>, platform_drives: &Vec<PlatformDrive>, global: &GlobalConfig) -> (res: Result<Vec<DriveRow>, ConfigStateError>)
    ensures
        ({
            let ls = local_names@.map_values(|s: String| s@);
            let ps = platform_drives@.map_values(|p: PlatformDrive| pd_view(p));
            let m = global.paths();
            match res {
                Ok(rows) => folders_known(ls, ls.len() as int, |l: Seq<char>| true, m)
                    && rows_view(rows@) == sync_rows(ls, ps, m) + local_rows(ls, ps, m) + platform_rows(ls, ps),
                Err(ConfigStateError::LostPath(x)) => first_lost(ls, ps, m, x@),
                Err(_) => false,
            }
        }),
{
    let ghost ls = local_names@.map_values(|s: String| s@);
    let ghost ps = platform_drives@.map_values(|p: PlatformDrive| pd_view(p));
    let ghost m = global.paths();
    let mut rows: Vec<DriveRow> = Vec::new();
    let nl = local_names.len();
    let np = platform_drives.len();
    assert(ls.take(0) =~= Seq::<Seq<char>>::empty());
    for i in 0..nl
        invariant
            nl == local_names@.len(),
            np == platform_drives@.len(),
            ls == local_names@.map_values(|s: String| s@),
            ps == platform_drives@.map_values(|p: PlatformDrive| pd_view(p)),
            m == global.paths(),
            rows_view(rows@) == sync_rows(ls.take(i as int), ps, m),
            folders_known(ls, i as int, synced_sel(ps), m),
    {
        let ghost l = ls[i as int];
        let ghost before = rows_view(rows@);
        assert(ls.take(i + 1).drop_last() =~= ls.take(i as int));
        assert(ps.take(0) =~= Seq::<(Seq<char>, Seq<char>)>::empty());
        for j in 0..np
            invariant
                nl == local_names@.len(),
                np == platform_drives@.len(),
                i < nl,
                l == ls[i as int],
                ls == local_names@.map_values(|s: String| s@),
                ps == platform_drives@.map_values(|p: PlatformDrive| pd_view(p)),
                m == global.paths(),
                    rows_view(rows@) == before + match_rows(l, ps.take(j as int), m[l]),
                folders_known(ls, i as int, synced_sel(ps), m),
                (exists|k: int| 0 <= k < j && #[trigger] ps[k].0 == l) ==> m.contains_key(l),
        {
            assert(ps.take(j + 1).drop_last() =~= ps.take(j as int));
            if local_names[i] == platform_drives[j].name {
                assert(ps[j as int].0 == l);
                let path = match global.get_path(&local_names[i]) {
                    Ok(p) => p,
                    Err(e) => {
                        assert(on_platform(l, ps));
                        assert(first_lost(ls, ps, m, l));
                        return Err(e);
                    },
                };
                let ghost r0 = rows_view(rows@);
                rows.push(DriveRow {
                    name: platform_drives[j].name.clone(),
                    id: platform_drives[j].id.clone(),
                    path,
                    persistence: Persistence::Sync,
                });
                assert(rows_view(rows@) =~= r0.push((ps[j as int].0, ps[j as int].1, m[l], Persistence::Sync)));
            }
        }
        assert(ps.take(np as int) =~= ps);
        assert(rows_view(rows@) == sync_rows(ls.take(i + 1), ps, m));
        assert(folders_known(ls, i + 1, synced_sel(ps), m)) by {
            if on_platform(l, ps) {
                let k = choose|k: int| 0 <= k < ps.len() && #[trigger] ps[k].0 == l;
                assert(ps[k].0 == l);
            }
        }
    }
    assert(ls.take(nl as int) =~= ls);
    let ghost after_sync = rows_view(rows@);
    for i in 0..nl
        invariant
            nl == local_names@.len(),
            ls == local_names@.map_values(|s: String| s@),
            ps == platform_drives@.map_values(|p: PlatformDrive| pd_view(p)),
            m == global.paths(),
            after_sync == sync_rows(ls, ps, m),
            rows_view(rows@) == after_sync + local_rows(ls.take(i as int), ps, m),
            folders_known(ls, nl as int, synced_sel(ps), m),
            folders_known(ls, i as int, local_sel(ps), m),
    {
        let ghost l = ls[i as int];
        assert(ls.take(i + 1).drop_last() =~= ls.take(i as int));
        assert(ls.take(i + 1).last() == l);
        if !platform_has(platform_drives, &local_names[i]) {
            let path = match global.get_path(&local_names[i]) {
                Ok(p) => p,
                Err(e) => {
                    assert(first_lost(ls, ps, m, l));
                    return Err(e);
                },
            };
            let ghost r0 = rows_view(rows@);
            rows.push(DriveRow {
                name: local_names[i].clone(),
                id: String::from_str("N/A"),
                path,
                persistence: Persistence::LocalOnly,
            });
            assert(rows_view(rows@) =~= r0.push((l, "N/A"@, m[l], Persistence::LocalOnly)));
        }
        assert(rows_view(rows@) =~= after_sync + local_rows(ls.take(i + 1), ps, m));
    }
    let ghost after_local = rows_view(rows@);
    assert(ps.take(0) =~= Seq::<(Seq<char>, Seq<char>)>::empty());
    for j in 0..np
        invariant
            np == platform_drives@.len(),
            ls == local_names@.map_values(|s: String| s@),
            ps == platform_drives@.map_values(|p: PlatformDrive| pd_view(p)),
            rows_view(rows@) == after_local + platform_rows(ls, ps.take(j as int)),
    {
        assert(ps.take(j + 1).drop_last() =~= ps.take(j as int));
        assert(ps.take(j + 1).last() == ps[j as int]);
        if !names_contain(local_names, &platform_drives[j].name) {
            let ghost r0 = rows_view(rows@);
            rows.push(DriveRow {
                name: platform_drives[j].name.clone(),
                id: platform_drives[j].id.clone(),
                path: String::from_str("N/A"),
                persistence: Persistence::PlatformOnly,
            });
            assert(rows_view(rows@) =~= r0.push((ps[j as int].0, ps[j as int].1, "N/A"@, Persistence::PlatformOnly)));
        }
        assert(rows_view(rows@) =~= after_local + platform_rows(ls, ps.take(j + 1)));
    }
    assert(ps.take(np as int) =~= ps);
    assert(rows_view(rows@) =~= sync_rows(ls, ps, m) + local_rows(ls, ps, m) + platform_rows(ls, ps));
    assert(folders_known(ls, ls.len() as int, |l: Seq<char>| true, m)) by {
        assert forall|j: int| 0 <= j < ls.len() implies m.contains_key(#[trigger] ls[j]) by {
            if on_platform(ls[j], ps) {
                assert(synced_sel(ps)(ls[j]));
            } else {
                assert(local_sel(ps)(ls[j]));
            }
        }
    }
    Ok(rows)
}


/// The first platform Drive named `name`.
pub fn platform_drive_with_name(drives: &Vec<PlatformDrive>, name: &str) -> (res: Option<PlatformDrive>)
    ensures
        match res {
            Some(d) => exists|i: int| 0 <= i < drives@.len() && pd_view(drives@[i]) == pd_view(d) && d.name@ == name@
                && forall|j: int| 0 <= j < i ==> #[trigger] drives@[j].name@ != name@,
            None => forall|j: int| 0 <= j < drives@.len() ==> #[trigger] drives@[j].name@ != name@,
        },
{
    let target = name.to_owned();
    let n = drives.len();
    for i in 0..n
        invariant
            n == drives@.len(),
            target@ == name@,
            forall|j: int| 0 <= j < i ==> #[trigger] drives@[j].name@ != name@,
    {
        if drives[i].name == target {
            return Some(PlatformDrive { id: drives[i].id.clone(), name: drives[i].name.clone() });
        }
    }
    None
}

/// The row that describes one Drive, from the platform Drive of its name and the folder
/// of its local copy, if they exist.
#[derive(Debug)]
pub struct InfoRow {
    pub name: String,
    pub id: String,
    pub path: String,
    pub persistence: KeptAt,
}

impl InfoRow {
    pub open spec fn view(&self) -> (Seq<char>, Seq<char>, Seq<char>, KeptAt) {
        (self.name@, self.id@, self.path@, self.persistence)
    }
}

/// Describes the Drive `drive_id`. A Drive known nowhere is missing.
pub fn info_row(drive_id: &String, platform: Option<&PlatformDrive>, local_path: Option<&String>) -> (res: Result<InfoRow, ConfigStateError>)
    ensures
        match (platform, local_path) {
            (Some(p), Some(l)) => res matches Ok(r) && r.view() == (p.name@, p.id@, l@, KeptAt::Sync),
            (Some(p), None) => res matches Ok(r) && r.view() == (p.name@, p.id@, "N/A"@, KeptAt::RemoteOnly),
            (None, Some(l)) => res matches Ok(r) && r.view() == (drive_id@, "N/A"@, l@, KeptAt::RemoteOnly),
            (None, None) => res matches Err(ConfigStateError::MissingDrive(d)) && d@ == drive_id@,
        },
{
    match (platform, local_path) {
        (Some(p), Some(l)) => Ok(InfoRow { name: p.name.clone(), id: p.id.clone(), path: l.clone(), persistence: KeptAt::Sync }),
        (Some(p), None) => Ok(InfoRow { name: p.name.clone(), id: p.id.clone(), path: String::from_str("N/A"), persistence: KeptAt::RemoteOnly }),
        (None, Some(l)) => Ok(InfoRow { name: drive_id.clone(), id: String::from_str("N/A"), path: l.clone(), persistence: KeptAt::RemoteOnly }),
        (None, None) => Err(ConfigStateError::MissingDrive(drive_id.clone())),
    }
}

/// Whether a Drive may be created from the folder `path`: its name is the folder's final
/// component (a folder without one is refused), and no local or platform Drive may have
/// that name already (`Ok(None)`).
pub fn creation_name(path: &String, local_names: &Vec<String>, platform_drives: &Vec<PlatformDrive>) -> (res: Result<Option<String>, ConfigStateError>)
    ensures
        match file_name(path@) {
            None => res matches Err(ConfigStateError::ExpectedPath(p)) && p@ == path@,
            Some(n) => if local_names@.map_values(|s: String| s@).contains(n)
                || exists|j: int| 0 <= j < platform_drives@.len() && #[trigger] platform_drives@[j].name@ == n {
                res matches Ok(None)
            } else {
                res matches Ok(Some(s)) && s@ == n
            },
        },
{
    let name = match name_of(path.as_str()) {
        Some(n) => n,
        None => return Err(ConfigStateError::ExpectedPath(path.clone())),
    };
    if names_contain(local_names, &name) {
        return Ok(None);
    }
    match platform_drive_with_name(platform_drives, name.as_str()) {
        Some(_) => Ok(None),
        None => Ok(Some(name)),
    }
}
} // verus!
