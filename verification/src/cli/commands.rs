use vstd::prelude::*;
use crate::specifiers::{AccessSpecifier, DriveSpecifier};

verus! {

/// Subcommand for endpoint configuration
#[derive(Debug)]
pub enum PlatformCommand {
    /// Display the current platform endpoint
    Display,
    /// Set the endpoint to a new value
    SetEndpoint {
        /// Server address
        address: String,
    },
}

/// Subcommand for endpoint configuration
#[derive(Debug)]
pub enum ApiCommand {
    /// Display the current remote endpoint
    Display,
    /// Set the endpoint to a new value
    SetEndpoint {
        /// Server address
        address: String,
    },
}

/// Subcommand for Authentication
#[derive(Clone, Copy, Debug, PartialEq, Eq, Structural)]
pub enum AccountCommand {
    /// Display current platform account status
    Info,
    /// Add Device API Key using browser session
    Login,
    /// Log out from this device
    Logout,
    /// Get info about Account usage
    Usage,
}

/// Subcommand for key management
#[derive(Debug)]
pub enum KeysCommand {
    /// List User Keys on disk and show which is selected
    Ls,
    /// Create a new Key
    Create,
    /// Delete a key
    Rm {
        /// Key name
        name: String,
    },
    /// Select a key for use
    Select {
        /// Key name
        name: String,
    },
    /// Display the currently selected key
    Selected,
}

/// Subcommand for Drive access management
#[derive(Debug)]
pub enum DriveAccessCommand {
    /// List drive actors
    Ls,
    /// Grant access to a known key
    Grant {
        /// Name of the key
        name: String,
    },
    /// Revoke access from a known key
    Revoke {
        /// Name of the key
        name: String,
    },
}

/// Operations on one Drive
#[derive(Debug)]
pub enum DriveOperationCommand {
    Info,
    /// Prepare a Drive for Pushing by encrypting new data
    Prepare {
        /// Follow symbolic links
        follow_links: bool,
    },
    /// Reconstruct a Drive filesystem locally
    Restore,
    /// Delete a Drive
    Delete,
    /// Sync Drive data to or from remote
    Sync,
    /// Change the name of a Drive
    Rename {
        new_name: String,
    },
}

/// Subcommand for Drive Management
#[derive(Debug)]
pub enum DrivesCommand {
    /// Information about a specific drive
    Info {
        /// Drive name
        name: String,
    },
    /// List all Drives
    Ls,
    /// Initialize a new Drive
    Create {
        /// Unencrypted source location
        path: String,
    },
    /// Prepare a Drive for Pushing by encrypting new data
    Prepare {
        /// Drive name
        name: String,
    },
    /// Reconstruct a Drive filesystem locally
    Restore {
        /// Drive name
        name: String,
    },
    /// Delete a Drive
    Rm {
        /// Drive name
        name: String,
    },
    /// Change the name of a Drive
    Rename {
        /// Drive name
        name: String,
        /// New Drive name
        new_name: String,
    },
    /// Drive Key management
    Access {
        name: String,
        /// Subcommand
        subcommand: DriveAccessCommand,
    },
}

/// The operation on a single Drive that a Drive command comes to, if it is one.
pub open spec fn drive_operation_spec(c: DrivesCommand) -> Option<(Seq<char>, DriveOperationCommand)> {
    match c {
        DrivesCommand::Info { name } => Some((name@, DriveOperationCommand::Info)),
        DrivesCommand::Prepare { name } => Some((name@, DriveOperationCommand::Prepare { follow_links: false })),
        DrivesCommand::Restore { name } => Some((name@, DriveOperationCommand::Restore)),
        DrivesCommand::Rm { name } => Some((name@, DriveOperationCommand::Delete)),
        _ => None,
    }
}

impl DrivesCommand {
    /// The Drive and the operation that this command runs on it; `None` for the commands
    /// that are not operations on one Drive. A rename names its new name.
    pub fn drive_operation(self) -> (res: Option<(String, DriveOperationCommand)>)
        ensures
            match self {
                DrivesCommand::Rename { name, new_name } => res matches Some((n, DriveOperationCommand::Rename { new_name: m }))
                    && n@ == name@ && m@ == new_name@,
                _ => match drive_operation_spec(self) {
                    Some((n, op)) => res matches Some((x, y)) && x@ == n && y == op,
                    None => res is None,
                },
            },
    {
        match self {
            DrivesCommand::Info { name } => Some((name, DriveOperationCommand::Info)),
            DrivesCommand::Prepare { name } => Some((name, DriveOperationCommand::Prepare { follow_links: false })),
            DrivesCommand::Restore { name } => Some((name, DriveOperationCommand::Restore)),
            DrivesCommand::Rm { name } => Some((name, DriveOperationCommand::Delete)),
            DrivesCommand::Rename { name, new_name } => Some((name, DriveOperationCommand::Rename { new_name })),
            _ => None,
        }
    }
}

/// Subcommand for Drive Keys
#[derive(Debug)]
pub enum KeyCommand {
    /// Request Access to a Drive if you dont already have it
    RequestAccess(DriveSpecifier),
    /// List all users with Drive access
    Ls(DriveSpecifier),
    /// Revoke a User's ability to access a Drive
    Revoke(AccessSpecifier),
}

/// A Drive together with one of its metadata versions.
#[derive(Debug)]
pub struct MetadataSpecifier {
    pub drive_specifier: DriveSpecifier,
    pub metadata_id: u128,
}

/// Subcommand for Bucket Metadata
#[derive(Debug)]
pub enum MetadataCommand {
    /// List all Metadatas associated with Bucket
    Ls(DriveSpecifier),
    /// Read an individual Metadata Id
    Read(MetadataSpecifier),
    /// Read the currently active Metadata
    ReadCurrent(DriveSpecifier),
    /// Grab Snapshot
    Snapshot(MetadataSpecifier),
}

/// Defines the types of commands that can be executed from the CLI.
#[derive(Debug)]
pub enum BanyanCommand {
    /// Manually configure platform endpoints
    Api {
        /// Subcommand
        command: PlatformCommand,
    },
    /// Account Login and Details
    Account {
        /// Subcommand
        command: AccountCommand,
    },
    /// Drive management
    Drives {
        /// Subcommand
        command: DrivesCommand,
    },
    /// Key management
    Keys {
        /// Subcommand
        command: KeysCommand,
    },
}

/// CLI Args
#[derive(Debug)]
pub struct Args {
    /// Command passed
    pub command: BanyanCommand,
}

} // verus!
