use vstd::prelude::*;
use vstd::string::*;
use crate::drive_model::{
    clone_opt, clone_strings, opt_view, DriveType, LocalDrive, LocalDriveView, RemoteDriveView,
    StorageClass, StorageTicket,
};
use crate::native_error::{NativeError, NativeErrorKind};
use crate::omni::{id_of, OmniDrive, OmniDriveView};
use crate::paths::{join, join_path};
use crate::specifiers::{uuid_text, uuid_to_string};
use crate::styled::{
    push_flag, push_lit, push_text, segments_view, yes_no, Color, Segment, Style,
};
use crate::sync_state::{state_color, state_text, SyncState};

verus! {

/// The report of a Drive deletion.
pub open spec fn deletion_report_spec(local: bool, remote: bool) -> Seq<(Seq<char>, Style)> {
    seq![
        ("<< BUCKET DELETION >>"@, Style::Colored(Color::Blue)),
        ("\ndeleted locally:\t"@, Style::Plain),
        yes_no(local),
        ("\ndeleted remotely:\t"@, Style::Plain),
        yes_no(remote),
    ]
}

/// Reports which copies of a Drive were deleted.
pub fn deletion_report(local_deletion: bool, remote_deletion: bool) -> (res: Vec<Segment>)
    ensures
        segments_view(res@) == deletion_report_spec(local_deletion, remote_deletion),
{
    let mut v: Vec<Segment> = Vec::new();
    push_lit(&mut v, "<< BUCKET DELETION >>", Style::Colored(Color::Blue));
    push_lit(&mut v, "\ndeleted locally:\t", Style::Plain);
    push_flag(&mut v, local_deletion);
    push_lit(&mut v, "\ndeleted remotely:\t", Style::Plain);
    push_flag(&mut v, remote_deletion);
    assert(segments_view(v@) =~= deletion_report_spec(local_deletion, remote_deletion));
    v
}

/// The name under which a Drive kind is shown.
pub open spec fn drive_type_label(t: DriveType) -> Seq<char> {
    match t {
        DriveType::Interactive => "interactive"@,
        DriveType::Backup => "backup"@,
    }
}

/// The name under which a storage class is shown.
pub open spec fn storage_class_label(c: StorageClass) -> Seq<char> {
    match c {
        StorageClass::Hot => "hot"@,
        StorageClass::Warm => "warm"@,
        StorageClass::Cold => "cold"@,
    }
}

/// Appends the name of a Drive kind.
pub(crate) fn append_type(s: &mut String, t: DriveType)
    ensures
        final(s)@ == old(s)@ + drive_type_label(t),
{
    match t {
        DriveType::Interactive => s.append("interactive"),
        DriveType::Backup => s.append("backup"),
    }
}

/// Appends the name of a storage class.
pub(crate) fn append_class(s: &mut String, c: StorageClass)
    ensures
        final(s)@ == old(s)@ + storage_class_label(c),
{
    match c {
        StorageClass::Hot => s.append("hot"),
        StorageClass::Warm => s.append("warm"),
        StorageClass::Cold => s.append("cold"),
    }
}

/// The lines that describe a remote Drive.
pub open spec fn remote_lines(r: RemoteDriveView) -> Seq<char> {
    "name:\t\t\t"@ + r.name + "\ndrive_id:\t\t"@ + uuid_text(r.id) + "\ntype:\t\t\t"@
        + drive_type_label(r.kind) + "\nstorage_class:\t\t"@ + storage_class_label(r.storage_class)
}

/// The lines that describe a local Drive.
pub open spec fn local_lines(l: LocalDriveView) -> Seq<char> {
    "name:\t\t\t"@ + l.name + "\norigin:\t\t\t"@ + l.origin
}

/// The part of a Drive's report that depends on which copies exist.
pub open spec fn details(v: OmniDriveView) -> Seq<(Seq<char>, Style)> {
    match (v.local, v.remote) {
        (Some(l), Some(r)) => seq![(
            "\nname:\t\t\t"@ + r.name + "\ndrive_id:\t\t"@ + uuid_text(r.id) + "\norigin:\t\t\t"@ + l.origin
                + "\ntype:\t\t\t"@ + drive_type_label(r.kind) + "\nstorage_class:\t\t"@
                + storage_class_label(r.storage_class) + "\nstorage_ticket:\t\t"@,
            Style::Plain,
        )] + match l.storage_ticket {
            Some(t) => seq![(t.0, Style::Plain)],
            None => seq![("None"@, Style::Colored(Color::Yellow))],
        },
        (Some(l), None) => seq![("\n"@ + local_lines(l), Style::Plain)],
        (None, Some(r)) => seq![("\n"@ + remote_lines(r), Style::Plain)],
        (None, None) => Seq::empty(),
    }
}

/// The report that describes a Drive.
pub open spec fn info_report_spec(v: OmniDriveView) -> Seq<(Seq<char>, Style)> {
    seq![
        ("| DRIVE INFO |"@, Style::Colored(Color::Yellow)),
        ("\nlocally tracked:\t"@, Style::Plain),
        yes_no(v.local is Some),
        ("\nremotely tracked:\t"@, Style::Plain),
        yes_no(v.remote is Some),
    ] + details(v) + seq![
        ("\nsync_status:\t\t"@, Style::Plain),
        (state_text(v.sync_state), Style::Colored(state_color(v.sync_state))),
        ("\n"@, Style::Plain),
    ]
}


/// How content is uploaded after a metadata push.
#[derive(Debug)]
pub enum ContentUpload {
    /// The platform issued a new storage ticket: record its grant, then upload to its host.
    WithNewTicket(StorageTicket),
    /// Upload to this host, which already holds a grant.
    ToHost(String),
    /// No content upload is needed.
    NotNeeded,
}

/// The abstract value of an upload decision.
pub enum ContentUploadView {
    WithNewTicket((Seq<char>, Seq<char>)),
    ToHost(Seq<char>),
    NotNeeded,
}

/// The abstract value of an upload decision.
pub open spec fn upload_view(u: ContentUpload) -> ContentUploadView {
    match u {
        ContentUpload::WithNewTicket(t) => ContentUploadView::WithNewTicket(t.view()),
        ContentUpload::ToHost(h) => ContentUploadView::ToHost(h@),
        ContentUpload::NotNeeded => ContentUploadView::NotNeeded,
    }
}

/// The upload that follows a push answered with an optional host and authorization.
pub open spec fn upload_spec(host: Option<Seq<char>>, authorization: Option<Seq<char>>) -> ContentUploadView {
    match (host, authorization) {
        (Some(h), Some(a)) => ContentUploadView::WithNewTicket((h, a)),
        (Some(h), None) => ContentUploadView::ToHost(h),
        _ => ContentUploadView::NotNeeded,
    }
}

/// The storage ticket a local Drive keeps after a push: the new ticket, none when the
/// platform named neither host nor authorization, else the one it had.
pub open spec fn ticket_after_push(
    old: Option<(Seq<char>, Seq<char>)>,
    host: Option<Seq<char>>,
    authorization: Option<Seq<char>>,
) -> Option<(Seq<char>, Seq<char>)> {
    match (host, authorization) {
        (Some(h), Some(a)) => Some((h, a)),
        (None, None) => None,
        _ => old,
    }
}

/// Records a metadata push in the local Drive: its deleted blocks are now the platform's
/// concern, and its storage ticket follows the platform's answer. Returns how content is uploaded.
pub fn record_push(local: &mut LocalDrive, host: Option<String>, authorization: Option<String>) -> (res: ContentUpload)
    ensures
        upload_view(res) == upload_spec(opt_view(host), opt_view(authorization)),
        final(local)@ == (LocalDriveView {
            deleted_block_cids: Seq::empty(),
            storage_ticket: ticket_after_push(old(local)@.storage_ticket, opt_view(host), opt_view(authorization)),
            ..old(local)@
        }),
{
    local.deleted_block_cids = Vec::new();
    let ghost cleared = local@;
    assert(cleared.deleted_block_cids =~= Seq::<Seq<char>>::empty());
    match (host, authorization) {
        (Some(h), Some(a)) => {
            let ticket = StorageTicket { host: h, authorization: a };
            local.storage_ticket = Some(ticket.duplicate());
            ContentUpload::WithNewTicket(ticket)
        },
        (Some(h), None) => ContentUpload::ToHost(h),
        (None, None) => {
            local.storage_ticket = None;
            ContentUpload::NotNeeded
        },
        (None, Some(_)) => ContentUpload::NotNeeded,
    }
}

/// The message when a push needed no content upload.
pub fn no_content_push_message() -> (res: String)
    ensures
        res@ == "METADATA PUSHED; NO CONTENT PUSH NEEDED"@,
{
    String::from_str("METADATA PUSHED; NO CONTENT PUSH NEEDED")
}

/// The report of a content upload; `metadata` is how the pushed metadata is shown.
pub open spec fn upload_report_spec(succeeded: bool, metadata: Seq<char>) -> Seq<(Seq<char>, Style)> {
    if succeeded {
        seq![
            ("<< SUCCESSFULLY UPLOADED METADATA & CONTENT >>"@, Style::Colored(Color::Green)),
            ("
"@ + metadata, Style::Plain),
        ]
    } else {
        seq![
            ("<< FAILED TO PUSH CONTENT >>"@, Style::Colored(Color::Red)),
            ("
"@, Style::Plain),
            ("<< SUCCESSFULLY PUSHED PENDING METADATA >>"@, Style::Colored(Color::Green)),
            ("
"@ + metadata + "
"@, Style::Plain),
        ]
    }
}

/// Reports a content upload.
pub fn upload_report(succeeded: bool, metadata: &str) -> (res: Vec<Segment>)
    ensures
        segments_view(res@) == upload_report_spec(succeeded, metadata@),
{
    let mut v: Vec<Segment> = Vec::new();
    if succeeded {
        push_lit(&mut v, "<< SUCCESSFULLY UPLOADED METADATA & CONTENT >>", Style::Colored(Color::Green));
        let mut t = String::from_str("
");
        t.append(metadata);
        push_text(&mut v, &t, Style::Plain);
    } else {
        push_lit(&mut v, "<< FAILED TO PUSH CONTENT >>", Style::Colored(Color::Red));
        push_lit(&mut v, "
", Style::Plain);
        push_lit(&mut v, "<< SUCCESSFULLY PUSHED PENDING METADATA >>", Style::Colored(Color::Green));
        let mut t = String::from_str("
");
        t.append(metadata);
        t.append("
");
        push_text(&mut v, &t, Style::Plain);
    }
    assert(segments_view(v@) =~= upload_report_spec(succeeded, metadata@));
    v
}

/// The report after pulling metadata down.
pub fn download_report() -> (res: Segment)
    ensures
        res.view() == ("<< DATA STILL NOT DOWNLOADED; SYNC AGAIN >>"@, Style::Colored(Color::Blue)),
{
    Segment::new("<< DATA STILL NOT DOWNLOADED; SYNC AGAIN >>", Style::Colored(Color::Blue))
}

/// The report for a Drive that is already in sync.
pub fn already_synced_report() -> (res: Segment)
    ensures
        res.view() == ("This Bucket data is already synced :)"@, Style::Colored(Color::Green)),
{
    Segment::new("This Bucket data is already synced :)", Style::Colored(Color::Green))
}

/// The name of a sync state in debug output.
pub open spec fn state_name(s: SyncState) -> Seq<char> {
    match s {
        SyncState::Unknown => "Unknown"@,
        SyncState::Unpublished => "Unpublished"@,
        SyncState::Unlocalized => "Unlocalized"@,
        SyncState::Behind => "Behind"@,
        SyncState::MetadataSynced => "MetadataSynced"@,
        SyncState::AllSynced => "AllSynced"@,
        SyncState::Ahead => "Ahead"@,
    }
}

/// Appends the debug name of a sync state.
fn append_state_name(s: &mut String, st: SyncState)
    ensures
        final(s)@ == old(s)@ + state_name(st),
{
    match st {
        SyncState::Unknown => s.append("Unknown"),
        SyncState::Unpublished => s.append("Unpublished"),
        SyncState::Unlocalized => s.append("Unlocalized"),
        SyncState::Behind => s.append("Behind"),
        SyncState::MetadataSynced => s.append("MetadataSynced"),
        SyncState::AllSynced => s.append("AllSynced"),
        SyncState::Ahead => s.append("Ahead"),
    }
}

/// The report after the sync state was worked out.
pub fn refresh_report(state: SyncState) -> (res: Segment)
    ensures
        res.view() == ("<< SYNC STATE UPDATED TO "@ + state_name(state) + " >>"@, Style::Colored(Color::Blue)),
{
    let mut t = String::from_str("<< SYNC STATE UPDATED TO ");
    append_state_name(&mut t, state);
    t.append(" >>");
    Segment { text: t, style: Style::Colored(Color::Blue) }
}

/// The host that stores a Drive's content, from its storage ticket.
pub fn storage_host(local: &LocalDrive) -> (res: Result<String, NativeError>)
    ensures
        match local@.storage_ticket {
            Some(t) => res matches Ok(h) && h@ == t.0,
            None => res matches Err(e) && e.kind() matches NativeErrorKind::Custom(m) && m@ == "unable to determine storage host"@,
        },
{
    match &local.storage_ticket {
        Some(t) => Ok(t.host.clone()),
        None => Err(NativeError::custom_error("unable to determine storage host")),
    }
}

/// Whether a Drive may be created for a folder, given the local Drive already kept for it:
/// not when that Drive is already on the platform.
pub fn may_create(existing: &Option<LocalDrive>) -> (res: Result<(), NativeError>)
    ensures
        match existing {
            Some(l) if l.remote_id is Some => res matches Err(e) && e.kind() == NativeErrorKind::UniqueDriveError,
            _ => res is Ok,
        },
{
    if let Some(l) = existing {
        if l.remote_id.is_some() {
            return Err(NativeError::unique_error());
        }
    }
    Ok(())
}
} // verus!
