//! The values that travel on a connection: the upload request as it arrives,
//! the upload it asks for, and the reply that carries the download link.

use vstd::prelude::*;
use crate::fault::Fault;
use crate::storage::{is_plain_name, plain_name};
use crate::text::same_text;
use crate::token::Token;

verus! {

/// The host prefix of every download link.
pub const HOSTNAME: &'static str = "https://remakeaon.com/";

/// The `type` of an upload whose message is the content itself.
pub const TYPE_TEXT: &'static str = "text";

/// The `type` of an upload whose message is the address of the content.
pub const TYPE_PICTURE: &'static str = "pic";

/// The fields of an upload request, as decoded from the wire.
#[derive(Clone, Debug, PartialEq, Eq)]
pub struct RawAction {
    pub file_type: String,
    pub name: String,
    pub msg: String,
}

/// The kinds of upload.
#[derive(Clone, Copy, Debug, PartialEq, Eq, Structural)]
pub enum Kind {
    /// The payload is the content.
    Text,
    /// The payload is a URL from which the content is fetched.
    Picture,
}

/// A request to store something under a file name.
#[derive(Clone, Debug, PartialEq, Eq)]
pub struct UploadAction {
    pub kind: Kind,
    pub name: String,
    pub payload: String,
}

/// An upload request by its contents.
pub struct UploadActionView {
    pub kind: Kind,
    pub name: Seq<char>,
    pub payload: Seq<char>,
}

impl View for UploadAction {
    type V = UploadActionView;

    open spec fn view(&self) -> UploadActionView {
        UploadActionView { kind: self.kind, name: self.name@, payload: self.payload@ }
    }
}

/// The reply to a successful upload.
#[derive(Clone, Debug, PartialEq, Eq)]
pub struct DownloadReply {
    pub download: String,
}

/// The kind that a `type` field names, if any.
pub open spec fn kind_named(file_type: Seq<char>) -> Option<Kind> {
    if file_type == TYPE_TEXT@ {
        Some(Kind::Text)
    } else if file_type == TYPE_PICTURE@ {
        Some(Kind::Picture)
    } else {
        None
    }
}

/// The upload that a decoded request asks for. A request of unknown `type`
/// is refused as such, whatever its name; one of a known `type` is refused
/// where its name is no plain file name.
pub open spec fn decoded(file_type: Seq<char>, name: Seq<char>, msg: Seq<char>) -> Result<
    UploadActionView,
    Fault,
> {
    match kind_named(file_type) {
        Some(kind) => if is_plain_name(name) {
            Ok(UploadActionView { kind, name, payload: msg })
        } else {
            Err(Fault::InvalidName)
        },
        None => Err(Fault::UnknownKind),
    }
}

/// What a data frame asks for: `content` holds the fields of its request, or
/// nothing where the frame could not be decoded.
pub open spec fn asked_by(content: Option<RawAction>) -> Result<UploadActionView, Fault> {
    match content {
        Some(raw) => decoded(raw.file_type@, raw.name@, raw.msg@),
        None => Err(Fault::Malformed),
    }
}

/// The link under which the artifact of `token` is retrieved: the host
/// prefix, the token's text and a slash.
pub open spec fn download_url(token: Token) -> Seq<char> {
    HOSTNAME@ + token@ + seq!['/']
}

/// The kind that a `type` field names.
pub fn classify(file_type: &str) -> (kind: Option<Kind>)
    ensures
        kind == kind_named(file_type@),
{
    if same_text(file_type, TYPE_TEXT) {
        Some(Kind::Text)
    } else if same_text(file_type, TYPE_PICTURE) {
        Some(Kind::Picture)
    } else {
        None
    }
}

impl UploadAction {
    /// Turns the fields of a request into the upload it asks for. Fails on
    /// the requests whose `type` is neither `text` nor `pic`, and on those
    /// whose name is empty, is `.` or `..`, or holds a slash.
    pub fn decode(raw: RawAction) -> (r: Result<UploadAction, Fault>)
        ensures
            match r {
                Ok(action) => Ok::<UploadActionView, Fault>(action@) == decoded(
                    raw.file_type@,
                    raw.name@,
                    raw.msg@,
                ),
                Err(fault) => Err::<UploadActionView, Fault>(fault) == decoded(
                    raw.file_type@,
                    raw.name@,
                    raw.msg@,
                ),
            },
    {
        match classify(raw.file_type.as_str()) {
            Some(kind) => {
                if plain_name(raw.name.as_str()) {
                    Ok(UploadAction { kind, name: raw.name, payload: raw.msg })
                } else {
                    Err(Fault::InvalidName)
                }
            },
            None => Err(Fault::UnknownKind),
        }
    }

    /// The upload that a data frame asks for: `content` holds the fields of
    /// its request, or nothing where the frame could not be decoded.
    pub fn from_frame(content: Option<RawAction>) -> (r: Result<UploadAction, Fault>)
        ensures
            match r {
                Ok(action) => Ok::<UploadActionView, Fault>(action@) == asked_by(content),
                Err(fault) => Err::<UploadActionView, Fault>(fault) == asked_by(content),
            },
    {
        match content {
            Some(raw) => UploadAction::decode(raw),
            None => Err(Fault::Malformed),
        }
    }
}

impl DownloadReply {
    /// The reply that hands out the link for `token`.
    pub fn for_token(token: &Token) -> (reply: DownloadReply)
        ensures
            reply.download@ == download_url(*token),
    {
        let mut url = String::from_str(HOSTNAME);
        let text = token.text();
        url.append(text.as_str());
        url.append("/");
        proof {
            reveal_strlit("/");
            assert("/"@ =~= seq!['/']);
        }
        DownloadReply { download: url }
    }
}

} // verus!
