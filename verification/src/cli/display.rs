use vstd::prelude::*;
use vstd::string::*;

verus! {

/// Where a Drive or key is kept, as the Drive and key listings show it.
#[derive(Clone, Copy, Debug, PartialEq, Eq, Structural)]
pub enum Persistence {
    LocalOnly,
    RemoteOnly,
    Sync,
}

/// The label of a persistence.
pub open spec fn persistence_label(p: Persistence) -> Seq<char> {
    match p {
        Persistence::LocalOnly => "Local Only"@,
        Persistence::RemoteOnly => "Remote Only"@,
        Persistence::Sync => "Sync"@,
    }
}

impl Persistence {
    /// The label shown in listings.
    pub fn label(&self) -> (res: String)
        ensures
            res@ == persistence_label(*self),
    {
        match self {
            Persistence::LocalOnly => String::from_str("Local Only"),
            Persistence::RemoteOnly => String::from_str("Remote Only"),
            Persistence::Sync => String::from_str("Sync"),
        }
    }
}

} // verus!
