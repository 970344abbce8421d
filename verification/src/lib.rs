//! Drive management logic of the Banyan command line client: sync-state
//! classification, drive bookkeeping, configuration state, block tracking,
//! listings and path handling, each with a contract checked by Verus.

pub mod blockstore;
pub mod cli;
pub mod config;
pub mod drive_model;
pub mod error;
pub mod file_scanning;
pub mod fs_compression_encryption;
pub mod laws;
pub mod metadata_ops;
pub mod styled;
pub mod sync_state;
pub mod tracker;
pub mod unpack;
pub mod usage;
pub mod native_error;
pub mod omni;
pub mod omni_ops;
pub mod operations;
pub mod paths;
pub mod push;
pub mod specifiers;
pub mod stores;
pub mod xdg;

pub use error::{ConfigStateError, NativeError};
