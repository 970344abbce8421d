use vstd::prelude::*;

verus! {

/// The text of an optional string.
pub open spec fn opt_view(o: Option<String>) -> Option<Seq<char>> {
    match o {
        Some(s) => Some(s@),
        None => None,
    }
}

/// Copies an optional string.
pub fn clone_opt(o: &Option<String>) -> (res: Option<String>)
    ensures
        opt_view(res) == opt_view(*o),
{
    match o {
        Some(s) => Some(s.clone()),
        None => None,
    }
}

/// Copies a list of strings.
pub fn clone_strings(v: &Vec<String>) -> (res: Vec<String>)
    ensures
        res@.map_values(|s: String| s@) == v@.map_values(|s: String| s@),
{
    let mut res: Vec<String> = Vec::new();
    let n = v.len();
    for i in 0..n
        invariant
            n == v@.len(),
            res@.len() == i,
            forall|j: int| 0 <= j < i ==> #[trigger] res@[j]@ == v@[j]@,
    {
        res.push(v[i].clone());
    }
    assert(res@.map_values(|s: String| s@) =~= v@.map_values(|s: String| s@));
    res
}

/// Where a Drive's content is uploaded, and the grant that allows it.
#[derive(Debug)]
pub struct StorageTicket {
    pub host: String,
    pub authorization: String,
}

impl StorageTicket {
    pub open spec fn view(&self) -> (Seq<char>, Seq<char>) {
        (self.host@, self.authorization@)
    }

    pub fn duplicate(&self) -> (res: StorageTicket)
        ensures
            res.view() == self.view(),
    {
        StorageTicket { host: self.host.clone(), authorization: self.authorization.clone() }
    }
}

/// The kind of a remote Drive.
#[derive(Clone, Copy, Debug, PartialEq, Eq, Structural)]
pub enum DriveType {
    Interactive,
    Backup,
}

/// The storage class of a remote Drive.
#[derive(Clone, Copy, Debug, PartialEq, Eq, Structural)]
pub enum StorageClass {
    Hot,
    Warm,
    Cold,
}

/// A Drive as the platform knows it.
#[derive(Debug)]
pub struct RemoteDrive {
    pub id: u128,
    pub name: String,
    pub kind: DriveType,
    pub storage_class: StorageClass,
}

/// The abstract value of a remote Drive.
pub struct RemoteDriveView {
    pub id: u128,
    pub name: Seq<char>,
    pub kind: DriveType,
    pub storage_class: StorageClass,
}

impl View for RemoteDrive {
    type V = RemoteDriveView;

    open spec fn view(&self) -> RemoteDriveView {
        RemoteDriveView { id: self.id, name: self.name@, kind: self.kind, storage_class: self.storage_class }
    }
}

impl RemoteDrive {
    pub fn duplicate(&self) -> (res: RemoteDrive)
        ensures
            res@ == self@,
    {
        RemoteDrive { id: self.id, name: self.name.clone(), kind: self.kind, storage_class: self.storage_class }
    }
}

/// A Drive as this machine knows it.
#[derive(Debug)]
pub struct LocalDrive {
    /// Name of the Drive
    pub name: String,
    /// Where the Drive's files live on disk
    pub origin: String,
    /// The platform's identifier of the Drive, once it is known
    pub remote_id: Option<u128>,
    /// Root identifier of the metadata store
    pub metadata_root: Option<String>,
    /// Root identifier of the content store
    pub content_root: Option<String>,
    /// Identifier of the metadata pushed last
    pub previous_cid: Option<String>,
    /// Blocks deleted locally and not yet deleted on the platform
    pub deleted_block_cids: Vec<String>,
    /// Where content is uploaded
    pub storage_ticket: Option<StorageTicket>,
}

/// The abstract value of a local Drive.
pub struct LocalDriveView {
    pub name: Seq<char>,
    pub origin: Seq<char>,
    pub remote_id: Option<u128>,
    pub metadata_root: Option<Seq<char>>,
    pub content_root: Option<Seq<char>>,
    pub previous_cid: Option<Seq<char>>,
    pub deleted_block_cids: Seq<Seq<char>>,
    pub storage_ticket: Option<(Seq<char>, Seq<char>)>,
}

/// The abstract value of an optional storage ticket.
pub open spec fn ticket_view(t: Option<StorageTicket>) -> Option<(Seq<char>, Seq<char>)> {
    match t {
        Some(t) => Some(t.view()),
        None => None,
    }
}

impl View for LocalDrive {
    type V = LocalDriveView;

    open spec fn view(&self) -> LocalDriveView {
        LocalDriveView {
            name: self.name@,
            origin: self.origin@,
            remote_id: self.remote_id,
            metadata_root: opt_view(self.metadata_root),
            content_root: opt_view(self.content_root),
            previous_cid: opt_view(self.previous_cid),
            deleted_block_cids: self.deleted_block_cids@.map_values(|s: String| s@),
            storage_ticket: ticket_view(self.storage_ticket),
        }
    }
}

impl LocalDrive {
    pub fn duplicate(&self) -> (res: LocalDrive)
        ensures
            res@ == self@,
    {
        let ticket = match &self.storage_ticket {
            Some(t) => Some(t.duplicate()),
            None => None,
        };
        LocalDrive {
            name: self.name.clone(),
            origin: self.origin.clone(),
            remote_id: self.remote_id,
            metadata_root: clone_opt(&self.metadata_root),
            content_root: clone_opt(&self.content_root),
            previous_cid: clone_opt(&self.previous_cid),
            deleted_block_cids: clone_strings(&self.deleted_block_cids),
            storage_ticket: ticket,
        }
    }
}

} // verus!
