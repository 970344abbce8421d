use vstd::prelude::*;
use vstd::string::*;

pub mod access;
pub mod commands;
pub mod display;
pub mod helpers;
pub mod keys;
pub mod listing;

verus! {

/// Where a Drive is kept, as the Drive listing shows it.
#[derive(Clone, Copy, Debug, PartialEq, Eq, Structural)]
pub enum Persistence {
    LocalOnly,
    PlatformOnly,
    Sync,
}

/// The label of a persistence.
pub open spec fn persistence_label(p: Persistence) -> Seq<char> {
    match p {
        Persistence::LocalOnly => "Local Only"@,
        Persistence::PlatformOnly => "Platform Only"@,
        Persistence::Sync => "Sync"@,
    }
}

impl Persistence {
    /// The label shown in listings.
    pub fn label(&self) -> (res: String)
        ensures
            res@ == persistence_label(*self),
    {
        match self {
            Persistence::LocalOnly => String::from_str("Local Only"),
            Persistence::PlatformOnly => String::from_str("Platform Only"),
            Persistence::Sync => String::from_str("Sync"),
        }
    }
}

} // verus!
