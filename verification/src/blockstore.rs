use vstd::prelude::*;

verus! {

/// A block store with a root block identifier that can be read and set.
pub trait RootedBlockStore {
    /// Get the root CID
    fn get_root(&self) -> Option<String>;
    /// Set the root CID
    fn set_root(&self, root: &String);
}

} // verus!
