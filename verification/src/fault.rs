//! What can go wrong while a client is served, and what the client is told.

use vstd::prelude::*;

verus! {

/// The notice sent for a message that could not be decoded.
pub const INVALID_MESSAGE: &'static str = "Invalid message!";

/// The notice sent for a message of an unrecognised kind.
pub const INVALID_TYPE: &'static str = "Invalid type!";

/// The notice sent for an upload under a name that is no plain file name.
pub const INVALID_NAME: &'static str = "Invalid name!";

/// The notice sent when an upload could not be stored.
pub const STORAGE_FAILED: &'static str = "Storage failed!";

/// A failure of one request or one connection. None of them ends the
/// process.
#[derive(Clone, Copy, Debug, PartialEq, Eq, Structural)]
pub enum Fault {
    /// An inbound message could not be decoded.
    Malformed,
    /// An inbound message was decoded but names no known kind of upload.
    UnknownKind,
    /// An upload asks for a name that is empty, is `.` or `..`, or holds a
    /// slash: a file of that name would not lie in its token's directory.
    InvalidName,
    /// The file system refused to reserve or write a storage location.
    Storage,
    /// A remote source could not be fetched, or sent more than is accepted.
    Fetch,
    /// The peer gave no sign of life for longer than the timeout.
    HeartbeatTimeout,
    /// A retrieval named no registered token, or its file is gone.
    NotFound,
}

impl Fault {
    /// The text that the client is sent on the connection, for the faults
    /// that are reported there.
    pub open spec fn notice_text(&self) -> Option<Seq<char>> {
        match *self {
            Fault::Malformed => Some(INVALID_MESSAGE@),
            Fault::UnknownKind => Some(INVALID_TYPE@),
            Fault::InvalidName => Some(INVALID_NAME@),
            Fault::Storage => Some(STORAGE_FAILED@),
            Fault::Fetch => None,
            Fault::HeartbeatTimeout => None,
            Fault::NotFound => None,
        }
    }

    /// The text that the client is sent on the connection. A failed fetch
    /// happens in the background, a timeout ends the connection silently and
    /// a missing artifact is answered on the retrieval path: these have none.
    pub fn notice(&self) -> (text: Option<&'static str>)
        ensures
            text.is_some() == self.notice_text().is_some(),
            text matches Some(t) ==> Some(t@) == self.notice_text(),
    {
        match self {
            Fault::Malformed => Some(INVALID_MESSAGE),
            Fault::UnknownKind => Some(INVALID_TYPE),
            Fault::InvalidName => Some(INVALID_NAME),
            Fault::Storage => Some(STORAGE_FAILED),
            Fault::Fetch => None,
            Fault::HeartbeatTimeout => None,
            Fault::NotFound => None,
        }
    }
}

} // verus!
