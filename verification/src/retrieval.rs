//! Retrieval: from a token, as the request names it, to the stored artifact.
//!
//! The registry says where the artifact lies and how its upload ended; the
//! caller reads the file and hands over what it found. Whatever lies at a
//! recorded path is served in full, and how the upload ended is handed on
//! with it, so that a caller can tell a failed upload apart. An upload whose
//! fetch has not ended has no record yet. Nothing here changes the registry.

use vstd::prelude::*;
use crate::fault::Fault;
use crate::registry::{entry_by_text, RecordView, Registry, Status};
use crate::storage::{file_name, final_segment};

verus! {

/// What stands before the file name in the disposition hint of a response.
pub const DISPOSITION_PREFIX: &'static str = "form-data; filename=";

/// Where a registered artifact lies, and the file name it was uploaded under.
#[derive(Clone, Debug, PartialEq, Eq)]
pub struct Located {
    pub path: String,
    pub name: String,
    /// How the upload ended.
    pub status: Status,
}

/// A location by its contents.
pub struct LocatedView {
    pub path: Seq<char>,
    pub name: Seq<char>,
    pub status: Status,
}

impl View for Located {
    type V = LocatedView;

    open spec fn view(&self) -> LocatedView {
        LocatedView { path: self.path@, name: self.name@, status: self.status }
    }
}

/// A stored artifact, ready to be sent.
#[derive(Clone, Debug, PartialEq, Eq)]
pub struct Artifact {
    /// The file name, taken from the final segment of the storage path.
    pub name: String,
    /// The disposition hint that names the file.
    pub disposition: String,
    pub content: Vec<u8>,
    /// How the upload ended: where it failed, the content is what was left
    /// at the storage path.
    pub status: Status,
}

/// An artifact by its contents.
pub struct ArtifactView {
    pub name: Seq<char>,
    pub disposition: Seq<char>,
    pub content: Seq<u8>,
    pub status: Status,
}

impl View for Artifact {
    type V = ArtifactView;

    open spec fn view(&self) -> ArtifactView {
        ArtifactView {
            name: self.name@,
            disposition: self.disposition@,
            content: self.content@,
            status: self.status,
        }
    }
}

/// Where the artifact of the token written as `text` lies, if the text names
/// a recorded token, however its upload ended. The file name is the final
/// segment of the path.
pub open spec fn located_in(entries: Map<u128, RecordView>, text: Seq<char>) -> Option<
    LocatedView,
> {
    match entry_by_text(entries, text) {
        Some(record) => Some(
            LocatedView {
                path: record.path,
                name: final_segment(record.path),
                status: record.status,
            },
        ),
        None => None,
    }
}

/// The response for a located artifact, where reading its path gave
/// `on_disk` (`None`: no file is there).
pub open spec fn delivered(located: LocatedView, on_disk: Option<Seq<u8>>) -> Result<
    ArtifactView,
    Fault,
> {
    match on_disk {
        Some(content) => Ok(
            ArtifactView {
                name: located.name,
                disposition: DISPOSITION_PREFIX@ + located.name,
                content,
                status: located.status,
            },
        ),
        None => Err(Fault::NotFound),
    }
}

/// What a retrieval by `text` gives over the given entries, where reading
/// the recorded path gave `on_disk`. Not found where the text names no
/// recorded token or the file is missing; else the whole content under the
/// file's name.
pub open spec fn retrieved(
    entries: Map<u128, RecordView>,
    text: Seq<char>,
    on_disk: Option<Seq<u8>>,
) -> Result<ArtifactView, Fault> {
    match located_in(entries, text) {
        Some(located) => delivered(located, on_disk),
        None => Err(Fault::NotFound),
    }
}

/// Finds where the artifact of the token written as `token` lies. Not found
/// on exactly the texts that name no recorded token.
pub fn locate(registry: &Registry, token: &str) -> (r: Result<Located, Fault>)
    ensures
        match r {
            Ok(located) => Some(located@) == located_in(registry@, token@),
            Err(fault) => fault == Fault::NotFound && located_in(registry@, token@).is_none(),
        },
{
    match registry.resolve(token) {
        Some(record) => {
            let name = file_name(record.path.as_str());
            Ok(Located { path: record.path, name, status: record.status })
        },
        None => Err(Fault::NotFound),
    }
}

/// Makes the response from what reading the located path gave: `None` where
/// no file is there, else all its bytes. The bytes are passed on unchanged.
pub fn deliver(located: Located, content: Option<Vec<u8>>) -> (r: Result<Artifact, Fault>)
    ensures
        match r {
            Ok(artifact) => content.is_some() && Ok::<ArtifactView, Fault>(artifact@) == delivered(
                located@,
                Some(content.unwrap()@),
            ),
            Err(fault) => content.is_none() && Err::<ArtifactView, Fault>(fault) == delivered(
                located@,
                None,
            ),
        },
{
    match content {
        Some(bytes) => {
            let mut disposition = String::from_str(DISPOSITION_PREFIX);
            disposition.append(located.name.as_str());
            Ok(
                Artifact {
                    name: located.name,
                    disposition,
                    content: bytes,
                    status: located.status,
                },
            )
        },
        None => Err(Fault::NotFound),
    }
}

} // verus!
