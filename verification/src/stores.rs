use vstd::prelude::*;
use vstd::string::*;

verus! {

/// The object path under which a block store keeps a block: its encoded identifier with
/// the `.bin` extension, at the store's root.
pub fn cid_as_path(encoded_cid: &str) -> (res: String)
    ensures
        res@ == "/"@ + encoded_cid@ + ".bin"@,
{
    let mut s = String::from_str("/");
    s.append(encoded_cid);
    s.append(".bin");
    s
}

/// The object path under which a Drive's data store keeps a block: the Drive's folder,
/// then the block's encoded identifier.
pub fn drive_cid_path(drive_name: &str, encoded_cid: &str) -> (res: String)
    ensures
        res@ == "/"@ + drive_name@ + "/"@ + encoded_cid@,
{
    let mut s = String::from_str("/");
    s.append(drive_name);
    s.append("/");
    s.append(encoded_cid);
    s
}

/// The Content-Length of a content upload: the content plus the fixed size of the
/// multipart envelope around it.
pub fn upload_content_length(content_len: u64) -> (res: u64)
    requires
        content_len + 546 <= u64::MAX,
    ensures
        res == content_len + 546,
{
    content_len + 546
}

/// What asking the object store about a block's object gave.
#[derive(Clone, Copy, PartialEq, Eq, Structural, Debug)]
pub enum StoreLookup {
    Found,
    NotFound,
    Failed,
}

/// The failures of a block store.
#[derive(Clone, Copy, PartialEq, Eq, Structural, Debug)]
pub enum DataStoreFailure {
    LookupFailure,
    RetrievalFailure,
    StoreFailure,
}

/// Whether a block store holds a block, from what the object store said of its object: a
/// missing object is an answer, any other failure is a failed lookup.
pub fn contains_from_lookup(lookup: StoreLookup) -> (res: Result<bool, DataStoreFailure>)
    ensures
        res == match lookup {
            StoreLookup::Found => Ok::<bool, DataStoreFailure>(true),
            StoreLookup::NotFound => Ok(false),
            StoreLookup::Failed => Err(DataStoreFailure::LookupFailure),
        },
{
    match lookup {
        StoreLookup::Found => Ok(true),
        StoreLookup::NotFound => Ok(false),
        StoreLookup::Failed => Err(DataStoreFailure::LookupFailure),
    }
}

} // verus!
