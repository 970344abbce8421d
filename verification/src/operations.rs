use vstd::prelude::*;
use vstd::string::*;
use crate::error::NativeError;
use crate::paths::{components, join, join_path, path_components};

verus! {

/// The texts of a list of strings.
pub open spec fn strings_view(v: Seq<String>) -> Seq<Seq<char>> {
    v.map_values(|s: String| s@)
}

/// `a` is an initial run of `b`.
pub open spec fn starts_with(b: Seq<Seq<char>>, a: Seq<Seq<char>>) -> bool {
    a.len() <= b.len() && b.take(a.len() as int) == a
}

/// The message of a path that does not lie under the folder it was taken from.
pub open spec fn outside_prefix() -> Seq<char> {
    "Strip Prefix: prefix not found"@
}

fn outside_prefix_error() -> (res: NativeError)
    ensures
        res matches NativeError::Custom(m) && m@ == outside_prefix(),
{
    let e = NativeError::strip_prefix_failure("prefix not found");
    proof {
        reveal_strlit("prefix not found");
        reveal_strlit("Strip Prefix: ");
        reveal_strlit("Strip Prefix: prefix not found");
    }
    e
}

/// The Drive path of a file found under `origin`: the components of `path` after those of
/// `origin`. A path that does not lie under `origin` is an error.
pub fn relative_components(origin: &str, path: &str) -> (res: Result<Vec<String>, NativeError>)
    ensures
        match res {
            Ok(v) => {
                &&& starts_with(components(path@), components(origin@))
                &&& strings_view(v@) == components(path@).skip(components(origin@).len() as int)
            },
            Err(e) => !starts_with(components(path@), components(origin@))
                && (e matches NativeError::Custom(m) && m@ == outside_prefix()),
        },
{
    let base = path_components(origin);
    let full = path_components(path);
    let ghost bv = strings_view(base@);
    let ghost fv = strings_view(full@);
    let k = base.len();
    let n = full.len();
    if k > n {
        return Err(outside_prefix_error());
    }
    for i in 0..k
        invariant
            k == base@.len(),
            n == full@.len(),
            k <= n,
            bv == strings_view(base@),
            fv == strings_view(full@),
            bv == components(origin@),
            fv == components(path@),
            forall|j: int| 0 <= j < i ==> #[trigger] fv[j] == bv[j],
    {
        if base[i] != full[i] {
            proof {
                assert(fv[i as int] == full@[i as int]@);
                assert(bv[i as int] == base@[i as int]@);
                assert(fv.take(k as int)[i as int] != bv[i as int]);
                assert(fv.take(k as int) != bv);
            }
            return Err(outside_prefix_error());
        }
    }
    assert(fv.take(k as int) =~= bv);
    let mut rest: Vec<String> = Vec::new();
    for i in k..n
        invariant
            k <= n,
            n == full@.len(),
            fv == strings_view(full@),
            strings_view(rest@) =~= fv.subrange(k as int, i as int),
    {
        let ghost before = strings_view(rest@);
        rest.push(full[i].clone());
        assert(strings_view(rest@) =~= before.push(fv[i as int]));
    }
    assert(fv.subrange(k as int, n as int) =~= fv.skip(k as int));
    Ok(rest)
}

/// Whether two byte strings are equal.
pub fn same_bytes(a: &Vec<u8>, b: &Vec<u8>) -> (res: bool)
    ensures
        res <==> a@ == b@,
{
    if a.len() != b.len() {
        return false;
    }
    let n = a.len();
    for i in 0..n
        invariant
            n == a@.len(),
            n == b@.len(),
            forall|j: int| 0 <= j < i ==> a@[j] == b@[j],
    {
        if a[i] != b[i] {
            return false;
        }
    }
    assert(a@ =~= b@);
    true
}

/// What preparing does with a file found on disk.
#[derive(PartialEq, Eq, Structural, Debug)]
pub enum FileStep {
    /// The Drive has no file there yet: write it.
    WriteNew,
    /// The Drive holds other content there: remove it and write the file again.
    Rewrite,
    /// The Drive already holds this content.
    Unchanged,
}

/// Decides what to do with a file on disk, from the content identifier the Drive holds
/// at its path (none when the Drive has no file there) and the identifier of its content.
pub fn file_step(stored_cid: &Option<Vec<u8>>, content_cid: &Vec<u8>) -> (res: FileStep)
    ensures
        res == match stored_cid {
            None => FileStep::WriteNew,
            Some(c) => if c@ == content_cid@ { FileStep::Unchanged } else { FileStep::Rewrite },
        },
{
    match stored_cid {
        None => FileStep::WriteNew,
        Some(c) => if same_bytes(c, content_cid) {
            FileStep::Unchanged
        } else {
            FileStep::Rewrite
        },
    }
}

/// The Drive paths that are no longer on disk, in the order given.
pub open spec fn stale_spec(paths: Seq<Seq<char>>, on_disk: Seq<bool>) -> Seq<Seq<char>>
    decreases paths.len(),
{
    if paths.len() == 0 {
        Seq::<Seq<char>>::empty()
    } else {
        let rest = stale_spec(paths.drop_last(), on_disk);
        if on_disk[paths.len() - 1] {
            rest
        } else {
            rest.push(paths.last())
        }
    }
}

/// The paths of the Drive that are missing from disk, which preparing removes; `on_disk`
/// tells for each path whether it exists under the Drive's folder.
pub fn stale_paths(paths: &Vec<String>, on_disk: &Vec<bool>) -> (res: Vec<String>)
    requires
        paths@.len() == on_disk@.len(),
    ensures
        strings_view(res@) == stale_spec(strings_view(paths@), on_disk@),
{
    let mut res: Vec<String> = Vec::new();
    let n = paths.len();
    for i in 0..n
        invariant
            n == paths@.len(),
            n == on_disk@.len(),
            strings_view(res@) == stale_spec(strings_view(paths@.take(i as int)), on_disk@),
    {
        let ghost before = strings_view(res@);
        proof {
            assert(strings_view(paths@.take(i + 1)).drop_last() =~= strings_view(paths@.take(i as int)));
        }
        if !on_disk[i] {
            res.push(paths[i].clone());
            assert(strings_view(res@) =~= before.push(paths@[i as int]@));
        }
    }
    assert(paths@.take(n as int) =~= paths@);
    res
}

/// What reading a Drive path gave.
pub enum ReadOutcome {
    /// The file's content.
    Data,
    /// The path is not a file: a directory.
    NotReadable,
    /// Any other failure, with its message.
    Failed(String),
}

/// What restoring does with one Drive path.
pub enum RestoreStep {
    /// Write the content read to this file.
    WriteFile(String),
    /// Create this directory.
    MakeDirectory(String),
    /// The directory is already there.
    Nothing,
    /// Stop with this error.
    Fail(NativeError),
}

/// Decides what restoring does with the Drive path `path` under the folder `output`, from
/// what reading it gave and whether its place on disk already exists.
pub fn restore_step(output: &str, path: &str, outcome: ReadOutcome, exists: bool) -> (res: RestoreStep)
    ensures
        match outcome {
            ReadOutcome::Data => res matches RestoreStep::WriteFile(t) && t@ == join(output@, path@),
            ReadOutcome::NotReadable => if exists {
                res is Nothing
            } else {
                res matches RestoreStep::MakeDirectory(t) && t@ == join(output@, path@)
            },
            ReadOutcome::Failed(m) => res matches RestoreStep::Fail(e)
                && (e matches NativeError::Operation(f) && f@ == m@),
        },
{
    match outcome {
        ReadOutcome::Data => RestoreStep::WriteFile(join_path(output, path)),
        ReadOutcome::NotReadable => if exists {
            RestoreStep::Nothing
        } else {
            RestoreStep::MakeDirectory(join_path(output, path))
        },
        ReadOutcome::Failed(m) => RestoreStep::Fail(NativeError::Operation(m)),
    }
}

/// An entry of a Drive's directory tree as the filesystem lists it: a file, a directory
/// with its entries, or another kind of node, each under its name.
pub enum DriveNode {
    File(String),
    Directory(String, Vec<DriveNode>),
    Other(String),
}

/// The file paths under one entry, each the entry's path below `prefix`.
pub open spec fn node_paths(prefix: Seq<char>, node: DriveNode) -> Seq<Seq<char>>
    decreases node,
{
    match node {
        DriveNode::File(name) => seq![join(prefix, name@)],
        DriveNode::Directory(name, children) => list_paths(join(prefix, name@), children@),
        DriveNode::Other(_) => Seq::<Seq<char>>::empty(),
    }
}

/// The file paths under a list of entries, entry after entry.
pub open spec fn list_paths(prefix: Seq<char>, nodes: Seq<DriveNode>) -> Seq<Seq<char>>
    decreases nodes,
{
    if nodes.len() == 0 {
        Seq::<Seq<char>>::empty()
    } else {
        list_paths(prefix, nodes.subrange(0, nodes.len() - 1)) + node_paths(prefix, nodes[nodes.len() - 1])
    }
}

fn walk_nodes(prefix: &str, nodes: &Vec<DriveNode>, out: &mut Vec<String>)
    ensures
        strings_view(final(out)@) == strings_view(old(out)@) + list_paths(prefix@, nodes@),
    decreases nodes@,
{
    let ghost start = strings_view(out@);
    let n = nodes.len();
    for i in 0..n
        invariant
            n == nodes@.len(),
            strings_view(out@) == start + list_paths(prefix@, nodes@.take(i as int)),
    {
        let ghost before = strings_view(out@);
        proof {
            assert(nodes@.take(i + 1).subrange(0, i as int) =~= nodes@.take(i as int));
            assert(nodes@.take(i + 1)[i as int] == nodes@[i as int]);
        }
        match &nodes[i] {
            DriveNode::File(name) => {
                out.push(join_path(prefix, name.as_str()));
                assert(strings_view(out@) =~= before + node_paths(prefix@, nodes@[i as int]));
            },
            DriveNode::Directory(name, children) => {
                let inner = join_path(prefix, name.as_str());
                proof {
                    assert(decreases_to!(nodes@ => nodes@[i as int]));
                }
                walk_nodes(inner.as_str(), children, out);
            },
            DriveNode::Other(_) => {
                assert(strings_view(out@) =~= before + node_paths(prefix@, nodes@[i as int]));
            },
        }
        assert(start + list_paths(prefix@, nodes@.take(i + 1)) =~= before + node_paths(prefix@, nodes@[i as int]));
    }
    assert(nodes@.take(n as int) =~= nodes@);
}

/// The paths of all files in a Drive's tree, depth first in listing order, each joined
/// below `prefix` (empty for the Drive's root).
pub fn enumerate_paths(prefix: &str, nodes: &Vec<DriveNode>) -> (res: Vec<String>)
    ensures
        strings_view(res@) == list_paths(prefix@, nodes@),
{
    let mut out: Vec<String> = Vec::new();
    walk_nodes(prefix, nodes, &mut out);
    assert(strings_view(out@) =~= list_paths(prefix@, nodes@));
    out
}

/// What follows a metadata push for a Drive's data store: the storage host to sync blocks
/// to, and the grant to record for that host.
#[derive(Debug)]
pub struct PushFollowUp {
    pub sync_host: Option<String>,
    pub grant: Option<(String, String)>,
}

/// Decides what follows a metadata push from the storage host and authorization in the
/// platform's answer: a named host becomes the sync host, and an authorization is recorded
/// as that host's grant; an authorization without a host is ignored.
pub fn push_follow_up(host: Option<String>, authorization: Option<String>) -> (res: PushFollowUp)
    ensures
        crate::drive_model::opt_view(res.sync_host) == crate::drive_model::opt_view(host),
        match (host, authorization) {
            (Some(h), Some(a)) => res.grant matches Some((gh, ga)) && gh@ == h@ && ga@ == a@,
            _ => res.grant is None,
        },
{
    match host {
        Some(h) => {
            let grant = match authorization {
                Some(a) => Some((h.clone(), a)),
                None => None,
            };
            PushFollowUp { sync_host: Some(h), grant }
        },
        None => PushFollowUp { sync_host: None, grant: None },
    }
}

/// The message when the data store could not be synced to the platform.
pub open spec fn store_sync_failed() -> Seq<char> {
    "failed to sync data store to remotes"@
}

/// The outcome of a Drive sync, from whether its data store reached the platform.
pub fn sync_outcome(store_synced: bool) -> (res: Result<(), NativeError>)
    ensures
        store_synced <==> res is Ok,
        res matches Err(e) ==> (e matches NativeError::Custom(m) && m@ == store_sync_failed()),
{
    if store_synced {
        Ok(())
    } else {
        Err(NativeError::Custom(String::from_str("failed to sync data store to remotes")))
    }
}

} // verus!
