use vstd::prelude::*;
use vstd::string::*;

verus! {

/// Ways in which the client's configuration can fail to hold what an operation needs.
#[derive(Debug)]
pub enum ConfigStateError {
    ExpectedPath(String),
    NoKey,
    NoKeySelected,
    NoAccountId,
    MissingKey(String),
    MissingDrive(String),
    LostPath(String),
}

/// The message shown for a configuration error.
pub open spec fn config_error_text(e: ConfigStateError) -> Seq<char> {
    match e {
        ConfigStateError::ExpectedPath(p) => "EXPECTED PATH TO EXIST BUT DIDN'T "@ + p@,
        ConfigStateError::NoKey => "Please create a user key first."@,
        ConfigStateError::NoKeySelected => "Please select a user key first."@,
        ConfigStateError::NoAccountId => "Please log in first."@,
        ConfigStateError::MissingKey(name) => "Key with name `"@ + name@ + "` is not persisted locally."@,
        ConfigStateError::MissingDrive(id) => "MISSING DRIVE WITH ID "@ + id@,
        ConfigStateError::LostPath(id) => "UNKNOWN PATH OF DRIVE W ID "@ + id@,
    }
}

/// `lit` followed by `tail`.
fn concat(lit: &str, tail: &str) -> (res: String)
    ensures
        res@ == lit@ + tail@,
{
    let mut s = lit.to_owned();
    s.append(tail);
    s
}

impl ConfigStateError {
    /// The message shown for this error.
    pub fn message(&self) -> (res: String)
        ensures
            res@ == config_error_text(*self),
    {
        match self {
            ConfigStateError::ExpectedPath(p) => concat("EXPECTED PATH TO EXIST BUT DIDN'T ", p.as_str()),
            ConfigStateError::NoKey => String::from_str("Please create a user key first."),
            ConfigStateError::NoKeySelected => String::from_str("Please select a user key first."),
            ConfigStateError::NoAccountId => String::from_str("Please log in first."),
            ConfigStateError::MissingKey(name) => {
                let mut s = concat("Key with name `", name.as_str());
                s.append("` is not persisted locally.");
                s
            },
            ConfigStateError::MissingDrive(id) => concat("MISSING DRIVE WITH ID ", id.as_str()),
            ConfigStateError::LostPath(id) => concat("UNKNOWN PATH OF DRIVE W ID ", id.as_str()),
        }
    }
}

/// Errors of the client's operations. The outside errors that the operations meet
/// are carried as their messages.
#[derive(Debug)]
pub enum NativeError {
    Api(String),
    Disk(String),
    Store(String),
    Drive(String),
    DriveLoader(String),
    DriveAccess(String),
    AccessMask(String),
    ConfigState(ConfigStateError),
    Operation(String),
    Custom(String),
}

/// The message shown for an error.
pub open spec fn native_error_text(e: NativeError) -> Seq<char> {
    match e {
        NativeError::Api(m) => m@,
        NativeError::Disk(m) => m@,
        NativeError::Store(m) => m@,
        NativeError::Drive(m) => m@,
        NativeError::DriveLoader(m) => m@,
        NativeError::DriveAccess(m) => m@,
        NativeError::AccessMask(m) => m@,
        NativeError::ConfigState(c) => config_error_text(c),
        NativeError::Operation(m) => m@,
        NativeError::Custom(m) => m@,
    }
}

impl NativeError {
    /// The message shown for this error.
    pub fn message(&self) -> (res: String)
        ensures
            res@ == native_error_text(*self),
    {
        match self {
            NativeError::Api(m) => m.clone(),
            NativeError::Disk(m) => m.clone(),
            NativeError::Store(m) => m.clone(),
            NativeError::Drive(m) => m.clone(),
            NativeError::DriveLoader(m) => m.clone(),
            NativeError::DriveAccess(m) => m.clone(),
            NativeError::AccessMask(m) => m.clone(),
            NativeError::ConfigState(c) => c.message(),
            NativeError::Operation(m) => m.clone(),
            NativeError::Custom(m) => m.clone(),
        }
    }

    /// A configuration error as an operation error.
    pub fn from_config(err: ConfigStateError) -> (res: NativeError)
        ensures
            res == NativeError::ConfigState(err),
    {
        NativeError::ConfigState(err)
    }

    /// A failed UTF-8 decoding, with its message.
    pub fn from_utf8_failure(msg: &str) -> (res: NativeError)
        ensures
            res matches NativeError::Custom(m) && m@ == "From UTF8: "@ + msg@,
    {
        NativeError::Custom(concat("From UTF8: ", msg))
    }

    /// A path that does not lie under the expected prefix, with its message.
    pub fn strip_prefix_failure(msg: &str) -> (res: NativeError)
        ensures
            res matches NativeError::Custom(m) && m@ == "Strip Prefix: "@ + msg@,
    {
        NativeError::Custom(concat("Strip Prefix: ", msg))
    }

    /// An identifier that failed to parse, with its message.
    pub fn uuid_failure(msg: &str) -> (res: NativeError)
        ensures
            res matches NativeError::Custom(m) && m@ == "UUID parsing: "@ + msg@,
    {
        NativeError::Custom(concat("UUID parsing: ", msg))
    }
}

} // verus!
