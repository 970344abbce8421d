use vstd::prelude::*;
use vstd::string::*;
use vstd::arithmetic::power::pow;
use crate::drive_model::opt_view;
use crate::error::{ConfigStateError, NativeError};
use crate::paths::{file_name, name_of};
use crate::config::GlobalConfig;

verus! {

/// The lowercase hexadecimal digit of a value below 16.
pub open spec fn hex_digit(d: int) -> char {
    seq!['0', '1', '2', '3', '4', '5', '6', '7', '8', '9', 'a', 'b', 'c', 'd', 'e', 'f'][d]
}

/// The 32 hexadecimal digits of a 128-bit value, most significant first.
pub open spec fn hex_digits(id: u128) -> Seq<char> {
    Seq::new(32, |i: int| hex_digit((id as int / pow(16, (31 - i) as nat)) % 16))
}

/// The text of an identifier: its hexadecimal digits in groups of 8, 4, 4, 4 and 12,
/// joined by hyphens.
pub open spec fn uuid_text(id: u128) -> Seq<char> {
    let h = hex_digits(id);
    h.subrange(0, 8) + seq!['-'] + h.subrange(8, 12) + seq!['-'] + h.subrange(12, 16) + seq!['-']
        + h.subrange(16, 20) + seq!['-'] + h.subrange(20, 32)
}

/// Prints an identifier with `uuid::Uuid`'s `Display`, which writes the identifier's bytes,
/// most significant first, as lowercase hexadecimal digits in the hyphenated 8-4-4-4-12 form.
#[verifier::external_body]
pub(crate) fn uuid_to_string(id: u128) -> (res: String)
    ensures
        res@ == uuid_text(id),
{
    uuid::Uuid::from_u128(id).to_string()
}

/// A unified way of naming a Drive: by its identifier, its name or its folder on disk.
#[derive(Debug)]
pub struct DriveSpecifier {
    /// Drive Id
    pub drive_id: Option<u128>,
    /// Bucket name
    pub name: Option<String>,
    /// Bucket Root on disk
    pub origin: Option<String>,
}

/// The abstract value of a Drive specifier.
pub struct DriveSpecifierView {
    pub drive_id: Option<u128>,
    pub name: Option<Seq<char>>,
    pub origin: Option<Seq<char>>,
}

impl View for DriveSpecifier {
    type V = DriveSpecifierView;

    open spec fn view(&self) -> DriveSpecifierView {
        DriveSpecifierView { drive_id: self.drive_id, name: opt_view(self.name), origin: opt_view(self.origin) }
    }
}

impl DriveSpecifier {
    /// A specifier that names a Drive by its folder.
    pub fn with_origin(path: &str) -> (res: DriveSpecifier)
        ensures
            res@ == (DriveSpecifierView { drive_id: None, name: None, origin: Some(path@) }),
    {
        DriveSpecifier { drive_id: None, name: None, origin: Some(path.to_owned()) }
    }

    /// A specifier that names a Drive by its identifier.
    pub fn with_id(id: u128) -> (res: DriveSpecifier)
        ensures
            res@ == (DriveSpecifierView { drive_id: Some(id), name: None, origin: None }),
    {
        DriveSpecifier { drive_id: Some(id), name: None, origin: None }
    }
}

/// A unified way of naming a user key's access to a Drive.
#[derive(Debug)]
pub struct AccessSpecifier {
    pub drive_specifier: DriveSpecifier,
    /// User Key fingerprint
    pub fingerprint: String,
}

/// How a Drive is named in one command.
#[derive(Debug)]
pub enum DriveId {
    DriveId(String),
    Name(String),
    Origin(String),
}

/// The abstract value of a Drive name.
pub enum DriveIdView {
    DriveId(Seq<char>),
    Name(Seq<char>),
    Origin(Seq<char>),
}

impl View for DriveId {
    type V = DriveIdView;

    open spec fn view(&self) -> DriveIdView {
        match self {
            DriveId::DriveId(s) => DriveIdView::DriveId(s@),
            DriveId::Name(s) => DriveIdView::Name(s@),
            DriveId::Origin(s) => DriveIdView::Origin(s@),
        }
    }
}

/// The Drive name that a specifier gives: its identifier first, then its name, then its folder.
pub open spec fn drive_id_of(s: DriveSpecifierView) -> DriveIdView {
    if let Some(id) = s.drive_id {
        DriveIdView::DriveId(uuid_text(id))
    } else if let Some(name) = s.name {
        DriveIdView::Name(name)
    } else {
        DriveIdView::Origin(s.origin.unwrap())
    }
}

/// What `get_id` finds for a Drive name: an identifier is not resolved, a name is
/// itself, a folder gives its final component.
pub open spec fn resolved_id(d: DriveIdView) -> Result<Seq<char>, Seq<char>> {
    match d {
        DriveIdView::DriveId(id) => Err(id),
        DriveIdView::Name(name) => Ok(name),
        DriveIdView::Origin(origin) => match file_name(origin) {
            Some(n) => Ok(n),
            None => Err(origin),
        },
    }
}

impl DriveId {
    /// The Drive name that a specifier gives; a specifier names a Drive in at least one way.
    pub fn from_specifier(value: DriveSpecifier) -> (res: DriveId)
        requires
            value.drive_id is Some || value.name is Some || value.origin is Some,
        ensures
            res@ == drive_id_of(value@),
    {
        if let Some(drive_id) = value.drive_id {
            return DriveId::DriveId(uuid_to_string(drive_id));
        }
        if let Some(name) = value.name {
            return DriveId::Name(name);
        }
        DriveId::Origin(value.origin.unwrap())
    }

    /// Resolves the name of the Drive. An identifier is reported as a missing Drive;
    /// a folder without a final name is reported with its path.
    pub fn get_id(&self, _global: &GlobalConfig) -> (res: Result<String, NativeError>)
        ensures
            match resolved_id(self@) {
                Ok(n) => res matches Ok(s) && s@ == n,
                Err(m) => res matches Err(NativeError::ConfigState(ConfigStateError::MissingDrive(s))) && s@ == m,
            },
    {
        match self {
            DriveId::DriveId(drive_id) => Err(NativeError::ConfigState(ConfigStateError::MissingDrive(drive_id.clone()))),
            DriveId::Name(name) => Ok(name.clone()),
            DriveId::Origin(origin) => match name_of(origin.as_str()) {
                Some(n) => Ok(n),
                None => Err(NativeError::ConfigState(ConfigStateError::MissingDrive(origin.clone()))),
            },
        }
    }
}

} // verus!
