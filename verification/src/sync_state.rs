use vstd::prelude::*;
use crate::styled::{Color, Segment, Style};

verus! {

/// How the local and the remote copy of a Drive relate.
#[derive(Clone, Copy, Debug, PartialEq, Eq, Structural)]
pub enum SyncState {
    /// Initial / Default state
    Unknown,
    /// There is no remote correlate
    Unpublished,
    /// There is no local correlate
    Unlocalized,
    /// Local bucket is behind the remote
    Behind,
    /// Local and remote are congruent
    MetadataSynced,
    /// Local and remote are congruent
    AllSynced,
    /// Local bucket is ahead of the remote
    Ahead,
}

/// The text that describes a sync state to the user.
pub open spec fn state_text(s: SyncState) -> Seq<char> {
    match s {
        SyncState::Unknown => "Unknown"@,
        SyncState::Unpublished => "Drive does not exist remotely"@,
        SyncState::Unlocalized => "Drive does not exist locally"@,
        SyncState::Behind => "Drive is behind remote"@,
        SyncState::MetadataSynced => "Metadata Synced; File System not reconstructed"@,
        SyncState::AllSynced => "Drive is in sync with remote"@,
        SyncState::Ahead => "Drive is ahead of remote"@,
    }
}

/// The color in which a sync state is shown.
pub open spec fn state_color(s: SyncState) -> Color {
    match s {
        SyncState::MetadataSynced => Color::Blue,
        SyncState::AllSynced => Color::Green,
        _ => Color::Red,
    }
}

impl SyncState {
    /// The colored description of this state.
    pub fn description(&self) -> (res: Segment)
        ensures
            res.text@ == state_text(*self),
            res.style == Style::Colored(state_color(*self)),
    {
        match self {
            SyncState::Unknown => Segment::new("Unknown", Style::Colored(Color::Red)),
            SyncState::Unpublished => Segment::new("Drive does not exist remotely", Style::Colored(Color::Red)),
            SyncState::Unlocalized => Segment::new("Drive does not exist locally", Style::Colored(Color::Red)),
            SyncState::Behind => Segment::new("Drive is behind remote", Style::Colored(Color::Red)),
            SyncState::MetadataSynced => Segment::new("Metadata Synced; File System not reconstructed", Style::Colored(Color::Blue)),
            SyncState::AllSynced => Segment::new("Drive is in sync with remote", Style::Colored(Color::Green)),
            SyncState::Ahead => Segment::new("Drive is ahead of remote", Style::Colored(Color::Red)),
        }
    }
}

} // verus!
