use vstd::prelude::*;
use vstd::string::*;
use crate::specifiers::DriveSpecifier;
use crate::styled::{Segment, Style};

verus! {

/// What went wrong in a Drive operation. Outside errors are carried as their messages.
#[derive(Debug)]
pub enum NativeErrorKind {
    MissingCredentials,
    MissingIdentifier,
    MissingLocalDrive,
    MissingRemoteDrive,
    UniqueDriveError,
    BadData,
    Custom(String),
    Cryptographic(String),
    Filesystem(String),
    Api(String),
    Io(String),
    UnknownDrive(DriveSpecifier),
}

/// The error of a Drive operation.
#[derive(Debug)]
pub struct NativeError {
    kind: NativeErrorKind,
}

/// The styled message of an error of the given kind.
pub open spec fn kind_message(k: NativeErrorKind) -> Seq<(Seq<char>, Style)> {
    match k {
        NativeErrorKind::MissingCredentials => seq![("Expected local Authorization Credentials but failed to find them"@, Style::Plain)],
        NativeErrorKind::MissingIdentifier => seq![("Unable to find a remote Identifier associated with that Drive"@, Style::Plain)],
        NativeErrorKind::MissingLocalDrive => seq![("Unable to find a local Drive with that query"@, Style::Plain)],
        NativeErrorKind::MissingRemoteDrive => seq![("Unable to find a remote Drive with that query"@, Style::Plain)],
        NativeErrorKind::UniqueDriveError => seq![("There is already a unique Drive with these specs"@, Style::Plain)],
        NativeErrorKind::BadData => seq![("bad data"@, Style::Plain)],
        NativeErrorKind::Custom(m) => seq![(m@, Style::Plain)],
        NativeErrorKind::Cryptographic(m) => seq![("CRYPTOGRAPHIC ERROR:"@, Style::Underline), (" "@ + m@, Style::Plain)],
        NativeErrorKind::Filesystem(m) => seq![("FILESYSTEM ERROR:"@, Style::Underline), (" "@ + m@, Style::Plain)],
        NativeErrorKind::Api(m) => seq![("CLIENT ERROR:"@, Style::Underline), (" "@ + m@, Style::Plain)],
        NativeErrorKind::Io(m) => seq![("IO ERROR:"@, Style::Underline), (" "@ + m@, Style::Plain)],
        NativeErrorKind::UnknownDrive(_) => seq![("No known Drive with that specification"@, Style::Plain)],
    }
}

/// A plain segment from a literal.
fn plain(text: &str) -> (res: Vec<Segment>)
    ensures
        res@.len() == 1,
        res@[0].text@ == text@,
        res@[0].style == Style::Plain,
{
    let mut v: Vec<Segment> = Vec::new();
    v.push(Segment::new(text, Style::Plain));
    v
}

/// An underlined heading followed by a message.
fn headed(head: &str, msg: &String) -> (res: Vec<Segment>)
    ensures
        res@.len() == 2,
        res@[0].text@ == head@,
        res@[0].style == Style::Underline,
        res@[1].text@ == " "@ + msg@,
        res@[1].style == Style::Plain,
{
    let mut v: Vec<Segment> = Vec::new();
    v.push(Segment::new(head, Style::Underline));
    let mut tail = String::from_str(" ");
    tail.append(msg.as_str());
    v.push(Segment { text: tail, style: Style::Plain });
    v
}

impl NativeError {
    /// The kind of this error.
    pub closed spec fn kind(&self) -> NativeErrorKind {
        self.kind
    }

    /// The styled message of this error.
    pub fn message(&self) -> (res: Vec<Segment>)
        ensures
            res@.map_values(|s: Segment| s.view()) == kind_message(self.kind()),
    {
        let res = match &self.kind {
            NativeErrorKind::MissingCredentials => plain("Expected local Authorization Credentials but failed to find them"),
            NativeErrorKind::MissingIdentifier => plain("Unable to find a remote Identifier associated with that Drive"),
            NativeErrorKind::MissingLocalDrive => plain("Unable to find a local Drive with that query"),
            NativeErrorKind::MissingRemoteDrive => plain("Unable to find a remote Drive with that query"),
            NativeErrorKind::UniqueDriveError => plain("There is already a unique Drive with these specs"),
            NativeErrorKind::BadData => plain("bad data"),
            NativeErrorKind::Custom(m) => {
                let mut v: Vec<Segment> = Vec::new();
                v.push(Segment { text: m.clone(), style: Style::Plain });
                v
            },
            NativeErrorKind::Cryptographic(m) => headed("CRYPTOGRAPHIC ERROR:", m),
            NativeErrorKind::Filesystem(m) => headed("FILESYSTEM ERROR:", m),
            NativeErrorKind::Api(m) => headed("CLIENT ERROR:", m),
            NativeErrorKind::Io(m) => headed("IO ERROR:", m),
            NativeErrorKind::UnknownDrive(_) => plain("No known Drive with that specification"),
        };
        assert(res@.map_values(|s: Segment| s.view()) =~= kind_message(self.kind()));
        res
    }

    pub fn missing_credentials() -> (res: Self)
        ensures
            res.kind() == NativeErrorKind::MissingCredentials,
    {
        Self { kind: NativeErrorKind::MissingCredentials }
    }

    pub fn missing_identifier() -> (res: Self)
        ensures
            res.kind() == NativeErrorKind::MissingIdentifier,
    {
        Self { kind: NativeErrorKind::MissingIdentifier }
    }

    pub fn missing_local_drive() -> (res: Self)
        ensures
            res.kind() == NativeErrorKind::MissingLocalDrive,
    {
        Self { kind: NativeErrorKind::MissingLocalDrive }
    }

    pub fn missing_remote_drive() -> (res: Self)
        ensures
            res.kind() == NativeErrorKind::MissingRemoteDrive,
    {
        Self { kind: NativeErrorKind::MissingRemoteDrive }
    }

    pub fn unique_error() -> (res: Self)
        ensures
            res.kind() == NativeErrorKind::UniqueDriveError,
    {
        Self { kind: NativeErrorKind::UniqueDriveError }
    }

    pub fn bad_data() -> (res: Self)
        ensures
            res.kind() == NativeErrorKind::BadData,
    {
        Self { kind: NativeErrorKind::BadData }
    }

    pub fn custom_error(msg: &str) -> (res: Self)
        ensures
            res.kind() matches NativeErrorKind::Custom(m) && m@ == msg@,
    {
        Self { kind: NativeErrorKind::Custom(msg.to_owned()) }
    }

    pub fn cryptographic(err: String) -> (res: Self)
        ensures
            res.kind() == NativeErrorKind::Cryptographic(err),
    {
        Self { kind: NativeErrorKind::Cryptographic(err) }
    }

    pub fn filesytem(err: String) -> (res: Self)
        ensures
            res.kind() == NativeErrorKind::Filesystem(err),
    {
        Self { kind: NativeErrorKind::Filesystem(err) }
    }

    pub fn api(err: String) -> (res: Self)
        ensures
            res.kind() == NativeErrorKind::Api(err),
    {
        Self { kind: NativeErrorKind::Api(err) }
    }

    pub fn io(err: String) -> (res: Self)
        ensures
            res.kind() == NativeErrorKind::Io(err),
    {
        Self { kind: NativeErrorKind::Io(err) }
    }

    /// Unknown Drive path
    pub fn unknown_path(path: &str) -> (res: Self)
        ensures
            res.kind() matches NativeErrorKind::UnknownDrive(s) && s@ == (crate::specifiers::DriveSpecifierView {
                drive_id: None, name: None, origin: Some(path@) }),
    {
        Self { kind: NativeErrorKind::UnknownDrive(DriveSpecifier::with_origin(path)) }
    }

    /// Unknown Drive identifier
    pub fn unknown_id(id: u128) -> (res: Self)
        ensures
            res.kind() matches NativeErrorKind::UnknownDrive(s) && s@ == (crate::specifiers::DriveSpecifierView {
                drive_id: Some(id), name: None, origin: None }),
    {
        Self { kind: NativeErrorKind::UnknownDrive(DriveSpecifier::with_id(id)) }
    }
}

} // verus!
