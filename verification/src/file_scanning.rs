use vstd::prelude::*;
use crate::operations::{relative_components, starts_with, strings_view};
use crate::paths::components;

verus! {

/// The kinds of file that a scan of the file system can meet.
#[derive(Clone, Copy, Debug, PartialEq, Eq, Structural)]
pub enum FileType {
    /// Directories are files that show us where to find other files.
    Directory,
    /// Symlinks are a special kind of directory.
    Symlink,
    /// Files are just files.
    File,
}

/// What a scan of the file system records of an entry.
pub struct SpiderMetadata {
    /// Relative path to root for banyanfs
    pub bfs_path: Vec<String>,
    /// canonicalized path
    pub canonicalized_path: String,
}

impl SpiderMetadata {
    /// The record of the entry at `entry_path` found under the scanned root `path_root`:
    /// its components below the root, and its canonical path (the entry's own path for a
    /// symbolic link, which is not resolved).
    pub fn new(path_root: &str, entry_path: &str, canonicalized_path: String) -> (res: SpiderMetadata)
        requires
            starts_with(components(entry_path@), components(path_root@)),
        ensures
            strings_view(res.bfs_path@) == components(entry_path@).skip(components(path_root@).len() as int),
            res.canonicalized_path@ == canonicalized_path@,
    {
        let bfs_path = match relative_components(path_root, entry_path) {
            Ok(v) => v,
            Err(_) => Vec::new(),
        };
        SpiderMetadata { bfs_path, canonicalized_path }
    }
}

} // verus!
