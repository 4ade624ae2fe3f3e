//! One upload, from the request to the entry in the registry.
//!
//! The library plans and settles; the caller does the storage work between
//! the two. For a text upload that work is to create the file and write the
//! content; the upload is then recorded as ready. For a picture it is to
//! create the file only: the reply goes out at once and asks for the fetch,
//! the content is fetched in the background, and the upload is recorded when
//! the fetch has ended, as ready or as failed.

use vstd::prelude::*;
use vstd::utf8::encode_utf8;
use crate::fault::{Fault, STORAGE_FAILED};
use crate::message::{download_url, DownloadReply, Kind, UploadAction, UploadActionView};
use crate::registry::{RecordView, Registry, Status};
use crate::storage::{
    accept_fetched,
    is_plain_name,
    plain_name,
    reserve_fault,
    reserve_path,
    storage_path,
    MAX_FETCH_BYTES,
};
use crate::token::Token;

verus! {

/// An upload with the token and the storage path set aside for it.
#[derive(Clone, Debug, PartialEq, Eq)]
pub struct UploadPlan {
    pub token: Token,
    pub path: String,
    pub kind: Kind,
    pub payload: String,
}

/// A plan by its contents.
pub struct UploadPlanView {
    pub token: Token,
    pub path: Seq<char>,
    pub kind: Kind,
    pub payload: Seq<char>,
}

impl View for UploadPlan {
    type V = UploadPlanView;

    open spec fn view(&self) -> UploadPlanView {
        UploadPlanView {
            token: self.token,
            path: self.path@,
            kind: self.kind,
            payload: self.payload@,
        }
    }
}

/// What the caller does when an upload is settled.
#[derive(Clone, Debug, PartialEq, Eq)]
pub enum Reply {
    /// Send the download link. The upload is done.
    Download(DownloadReply),
    /// Send the download link, then fetch the content from the given address
    /// in the background and report how the fetch ended.
    DownloadThenFetch(DownloadReply, String),
    /// Send a notice that the upload failed.
    Notice(&'static str),
}

/// A reply by its contents.
pub enum ReplyView {
    Download(Seq<char>),
    DownloadThenFetch(Seq<char>, Seq<char>),
    Notice(Seq<char>),
}

impl View for Reply {
    type V = ReplyView;

    open spec fn view(&self) -> ReplyView {
        match *self {
            Reply::Download(reply) => ReplyView::Download(reply.download@),
            Reply::DownloadThenFetch(reply, source) => ReplyView::DownloadThenFetch(
                reply.download@,
                source@,
            ),
            Reply::Notice(text) => ReplyView::Notice(text@),
        }
    }
}

/// The plan for `action` under `token`: the artifact goes to the token's
/// directory under the name that the request gives.
pub open spec fn planned(action: UploadActionView, token: Token) -> UploadPlanView {
    UploadPlanView {
        token,
        path: storage_path(token, action.name),
        kind: action.kind,
        payload: action.payload,
    }
}

/// How the fetch of a picture's content ended.
#[derive(Clone, Copy, Debug, PartialEq, Eq, Structural)]
pub enum FetchEnd {
    /// The content came and was written to the storage path; the number of
    /// its bytes.
    Stored(usize),
    /// Nothing came, or the source sent more than is accepted.
    FetchFailed,
    /// The content came, but it could not be written to the storage path.
    WriteFailed,
}

/// The fault that a fetch ended with, if any: a fetch fault where nothing
/// came or more than `MAX_FETCH_BYTES`, a storage fault where the content
/// could not be written.
pub open spec fn fetch_fault(end: FetchEnd) -> Option<Fault> {
    match end {
        FetchEnd::Stored(len) => if len > MAX_FETCH_BYTES {
            Some(Fault::Fetch)
        } else {
            None
        },
        FetchEnd::FetchFailed => Some(Fault::Fetch),
        FetchEnd::WriteFailed => Some(Fault::Storage),
    }
}

/// How an upload ended whose fetch ended with `end`: failed exactly where
/// the fetch ended with a fault.
pub open spec fn fetch_status(end: FetchEnd) -> Status {
    if fetch_fault(end).is_some() {
        Status::Failed
    } else {
        Status::Ready
    }
}

impl UploadPlanView {
    /// The bytes to write at once: the payload of a text upload. A picture
    /// has none; its content is fetched.
    pub open spec fn inline_content(&self) -> Option<Seq<u8>> {
        match self.kind {
            Kind::Text => Some(encode_utf8(self.payload)),
            Kind::Picture => None,
        }
    }

    /// Whether settling may succeed: the storage work went well and the
    /// token has no record yet.
    pub open spec fn accepted(&self, entries: Map<u128, RecordView>, stored: bool) -> bool {
        stored && !entries.contains_key(self.token.bits)
    }

    /// The records after the plan was settled. Only an accepted text upload
    /// is recorded at this point, as ready.
    pub open spec fn settled(&self, entries: Map<u128, RecordView>, stored: bool) -> Map<
        u128,
        RecordView,
    > {
        if self.accepted(entries, stored) && self.kind == Kind::Text {
            entries.insert(self.token.bits, RecordView { path: self.path, status: Status::Ready })
        } else {
            entries
        }
    }

    /// The reply when the plan is settled.
    pub open spec fn reply(&self, entries: Map<u128, RecordView>, stored: bool) -> ReplyView {
        if !self.accepted(entries, stored) {
            ReplyView::Notice(STORAGE_FAILED@)
        } else {
            match self.kind {
                Kind::Text => ReplyView::Download(download_url(self.token)),
                Kind::Picture => ReplyView::DownloadThenFetch(
                    download_url(self.token),
                    self.payload,
                ),
            }
        }
    }

    /// The records after the fetch for the plan has ended with `end`: the
    /// upload is recorded as ready or as failed, unless the token has a
    /// record already.
    pub open spec fn registered(&self, entries: Map<u128, RecordView>, end: FetchEnd) -> Map<
        u128,
        RecordView,
    > {
        if entries.contains_key(self.token.bits) {
            entries
        } else {
            entries.insert(
                self.token.bits,
                RecordView { path: self.path, status: fetch_status(end) },
            )
        }
    }
}

/// The plan for `action` under `token`. Refused for an upload whose name is
/// no plain file name.
pub fn plan_upload(action: UploadAction, token: Token) -> (r: Result<UploadPlan, Fault>)
    ensures
        match r {
            Ok(plan) => is_plain_name(action.name@) && plan@ == planned(action@, token),
            Err(fault) => !is_plain_name(action.name@) && fault == Fault::InvalidName,
        },
{
    match reserve_path(&token, action.name.as_str()) {
        Ok(path) => Ok(UploadPlan { token, path, kind: action.kind, payload: action.payload }),
        Err(fault) => Err(fault),
    }
}

/// The plan for `action` under the drawn token. Refused for an upload whose
/// name is no plain file name, and as a storage fault where the draw gave no
/// token.
pub fn plan_drawn(action: UploadAction, drawn: Option<Token>) -> (r: Result<UploadPlan, Fault>)
    ensures
        match r {
            Ok(plan) => {
                &&& reserve_fault(action.name@, drawn).is_none()
                &&& Some(plan.token) == drawn
                &&& plan@ == planned(action@, plan.token)
            },
            Err(fault) => reserve_fault(action.name@, drawn) == Some(fault),
        },
{
    if !plain_name(action.name.as_str()) {
        return Err(Fault::InvalidName);
    }
    match drawn {
        Some(token) => plan_upload(action, token),
        None => Err(Fault::Storage),
    }
}

/// The plan for `action` under a freshly drawn token. Refused for an upload
/// whose name is no plain file name; no token is drawn then. For a plain
/// name either a token comes, and the plan is the one for it, or the
/// machine's random source failed: a storage fault.
pub fn begin(action: UploadAction) -> (r: Result<UploadPlan, Fault>)
    ensures
        match r {
            Ok(plan) => {
                &&& is_plain_name(action.name@)
                &&& plan.token.is_random()
                &&& plan@ == planned(action@, plan.token)
            },
            Err(fault) => fault == if is_plain_name(action.name@) {
                Fault::Storage
            } else {
                Fault::InvalidName
            },
        },
{
    if !plain_name(action.name.as_str()) {
        return Err(Fault::InvalidName);
    }
    plan_drawn(action, Token::generate())
}

impl UploadPlan {
    /// The bytes to write to the storage path at once, if any.
    pub fn inline_content(&self) -> (content: Option<Vec<u8>>)
        ensures
            content.is_some() == self@.inline_content().is_some(),
            content matches Some(bytes) ==> Some(bytes@) == self@.inline_content(),
    {
        match self.kind {
            Kind::Text => Some(self.payload.as_str().as_bytes_vec()),
            Kind::Picture => None,
        }
    }

    /// Settles the plan once its storage work is done; `stored` says whether
    /// the work succeeded. On success the peer gets the download link; a
    /// text upload is recorded as ready, and for a picture the reply asks
    /// for the fetch. Where the work failed, or the token has a record
    /// already, the peer gets a notice and nothing is recorded.
    pub fn settle(&self, registry: &mut Registry, stored: bool) -> (reply: Reply)
        ensures
            final(registry)@ == self@.settled(old(registry)@, stored),
            reply@ == self@.reply(old(registry)@, stored),
    {
        if !stored {
            return Reply::Notice(STORAGE_FAILED);
        }
        match self.kind {
            Kind::Text => {
                if registry.insert(self.token, self.path.clone(), Status::Ready) {
                    Reply::Download(DownloadReply::for_token(&self.token))
                } else {
                    Reply::Notice(STORAGE_FAILED)
                }
            },
            Kind::Picture => {
                if registry.lookup(&self.token).is_some() {
                    Reply::Notice(STORAGE_FAILED)
                } else {
                    Reply::DownloadThenFetch(
                        DownloadReply::for_token(&self.token),
                        self.payload.clone(),
                    )
                }
            },
        }
    }

    /// The fetch for the plan has ended with `end`. Unless the token has a
    /// record already, the upload is recorded: as ready where the content
    /// came, was no more than `MAX_FETCH_BYTES` and was written, as failed
    /// otherwise. Reports the fault that the fetch ended with, else a
    /// storage fault where the token was taken.
    pub fn complete_fetch(&self, registry: &mut Registry, end: FetchEnd) -> (r: Result<(), Fault>)
        ensures
            final(registry)@ == self@.registered(old(registry)@, end),
            r == match fetch_fault(end) {
                Some(fault) => Err::<(), Fault>(fault),
                None => if old(registry).holds(self.token) {
                    Err::<(), Fault>(Fault::Storage)
                } else {
                    Ok::<(), Fault>(())
                },
            },
    {
        let fault = match end {
            FetchEnd::Stored(len) => if accept_fetched(len) {
                None
            } else {
                Some(Fault::Fetch)
            },
            FetchEnd::FetchFailed => Some(Fault::Fetch),
            FetchEnd::WriteFailed => Some(Fault::Storage),
        };
        let status = match fault {
            Some(_) => Status::Failed,
            None => Status::Ready,
        };
        let entered = registry.insert(self.token, self.path.clone(), status);
        match fault {
            Some(fault) => Err(fault),
            None => if entered {
                Ok(())
            } else {
                Err(Fault::Storage)
            },
        }
    }
}

} // verus!
