use vstd::prelude::*;
use vstd::string::*;
use crate::drive_model::opt_view;
use crate::specifiers::{hex_digit, uuid_text, uuid_to_string};

verus! {

/// How a JSON string carries one character: quote, backslash and the control characters
/// are escaped (with their short escape where JSON has one, else as `\u00` and two
/// lowercase hexadecimal digits); every other character stands as it is.
pub open spec fn json_char(c: char) -> Seq<char> {
    if c == '"' {
        seq!['\\', '"']
    } else if c == '\\' {
        seq!['\\', '\\']
    } else if c == '\x08' {
        seq!['\\', 'b']
    } else if c == '\t' {
        seq!['\\', 't']
    } else if c == '\n' {
        seq!['\\', 'n']
    } else if c == '\x0C' {
        seq!['\\', 'f']
    } else if c == '\r' {
        seq!['\\', 'r']
    } else if (c as int) < 0x20 {
        seq!['\\', 'u', '0', '0', hex_digit(c as int / 16), hex_digit(c as int % 16)]
    } else {
        seq![c]
    }
}

/// The characters of a string as a JSON string carries them.
pub open spec fn json_escaped(s: Seq<char>) -> Seq<char>
    decreases s.len(),
{
    if s.len() == 0 {
        Seq::<char>::empty()
    } else {
        json_escaped(s.drop_last()) + json_char(s.last())
    }
}

/// A string as a JSON string value: its escaped characters between double quotes.
pub open spec fn json_string_text(s: Seq<char>) -> Seq<char> {
    seq!['"'] + json_escaped(s) + seq!['"']
}

/// Writes a string as a JSON string value with `serde_json::to_string`, which escapes
/// quote, backslash and the control characters as `json_char` states. Writing a string
/// value does not fail.
#[verifier::external_body]
fn json_string(s: &str) -> (res: String)
    ensures
        res@ == json_string_text(s@),
{
    serde_json::to_string(s).unwrap_or_default()
}

/// Names the URL that the url crate gives when `path` is joined to the URL `base`, none
/// when `base` is not a URL or the join fails.
pub uninterp spec fn url_join_text(base: Seq<char>, path: Seq<char>) -> Option<Seq<char>>;

/// Parses `base` with `url::Url::parse` and joins `path` to it with `Url::join`, giving the
/// resulting URL's text. The contract names the result; URL parsing is not stated.
#[verifier::external_body]
fn url_join(base: &str, path: &str) -> (res: Option<String>)
    ensures
        opt_view(res) == url_join_text(base@, path@),
{
    match url::Url::parse(base) {
        Ok(u) => match u.join(path) {
            Ok(j) => Some(j.to_string()),
            Err(_) => None,
        },
        Err(_) => None,
    }
}

/// An upload of a Drive's content to a storage host, for one metadata version.
#[derive(Debug)]
pub struct PushContent {
    pub host_url: String,
    pub metadata_id: u128,
    pub content_len: u64,
    pub content_hash: String,
}

/// The JSON part of an upload: the metadata identifier and the content's hash.
pub open spec fn request_data_text(metadata_id: u128, content_hash: Seq<char>) -> Seq<char> {
    "{\"metadata_id\":\""@ + uuid_text(metadata_id) + "\",\"content_hash\":"@ + json_string_text(content_hash) + "}"@
}

impl PushContent {
    /// The storage host's upload endpoint; none when the host's URL cannot be parsed.
    pub fn upload_url(&self) -> (res: Option<String>)
        ensures
            opt_view(res) == url_join_text(self.host_url@, "/api/v1/upload"@),
    {
        url_join(self.host_url.as_str(), "/api/v1/upload")
    }

    /// The JSON request data sent beside the content.
    pub fn request_data(&self) -> (res: String)
        ensures
            res@ == request_data_text(self.metadata_id, self.content_hash@),
    {
        let mut s = String::from_str("{\"metadata_id\":\"");
        let id = uuid_to_string(self.metadata_id);
        s.append(id.as_str());
        s.append("\",\"content_hash\":");
        let hash = json_string(self.content_hash.as_str());
        s.append(hash.as_str());
        s.append("}");
        s
    }

    /// The Content-Length of the upload: the content plus the multipart envelope.
    pub fn content_length(&self) -> (res: u64)
        requires
            self.content_len + 546 <= u64::MAX,
        ensures
            res == self.content_len + 546,
    {
        crate::stores::upload_content_length(self.content_len)
    }

    /// Uploads go to the platform only with credentials.
    pub fn requires_authentication(&self) -> (res: bool)
        ensures
            res,
    {
        true
    }
}

/// The platform's answer to a content upload.
#[derive(Debug)]
pub struct PushContentResponse {}

/// The platform's error for a content upload: its message.
#[derive(Debug)]
pub struct PushContentError {
    message: String,
}

impl PushContentError {
    /// An error with the platform's message.
    pub fn new(message: String) -> (res: PushContentError)
        ensures
            res.text() == message@,
    {
        PushContentError { message }
    }

    /// The platform's message.
    pub closed spec fn text(&self) -> Seq<char> {
        self.message@
    }

    /// The message shown for this error: the platform's message.
    pub fn message(&self) -> (res: String)
        ensures
            res@ == self.text(),
    {
        self.message.clone()
    }
}

} // verus!
