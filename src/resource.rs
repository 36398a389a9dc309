use vstd::prelude::*;

use crate::error::TtyError;
use crate::mode::{ModeSnapshot, PlatformHandle};

verus! {

/// What the registry keeps beside an open file's handle.
#[derive(Debug, Clone, PartialEq, Eq)]
pub struct FileMetadata {
    /// The mode seen just before the file's terminal last entered raw mode;
    /// `Some` exactly while it is in raw mode.
    pub saved_mode: Option<ModeSnapshot>,
}

/// A stream registered under an identifier.
#[derive(Debug, Clone, PartialEq, Eq)]
pub enum StreamResource {
    /// The process's standard input.
    StandardInput { saved_mode: Option<ModeSnapshot> },
    /// An open file. The slot is `None` while an in-flight operation holds
    /// the handle.
    OpenFile { handle_slot: Option<(PlatformHandle, FileMetadata)> },
    /// Any stream that cannot be a terminal.
    Other,
}

/// The saved mode of a resource, where it has a reachable one.
pub open spec fn saved_of(r: StreamResource) -> Option<ModeSnapshot> {
    match r {
        StreamResource::StandardInput { saved_mode } => saved_mode,
        StreamResource::OpenFile { handle_slot: Some((_, meta)) } => meta.saved_mode,
        _ => None,
    }
}

/// The resource with its saved mode replaced; kinds without a reachable
/// saved mode are returned as they are.
pub open spec fn with_saved(r: StreamResource, m: Option<ModeSnapshot>) -> StreamResource {
    match r {
        StreamResource::StandardInput { .. } => StreamResource::StandardInput { saved_mode: m },
        StreamResource::OpenFile { handle_slot: Some((h, _)) } => StreamResource::OpenFile {
            handle_slot: Some((h, FileMetadata { saved_mode: m })),
        },
        _ => r,
    }
}

/// The resource under an identifier, if one is registered.
pub open spec fn lookup(s: Seq<Option<StreamResource>>, id: u32) -> Option<StreamResource> {
    if id < s.len() {
        s[id as int]
    } else {
        None
    }
}

/// What resolving an identifier gives: the handle and the saved mode, or the
/// reason there is none.
pub open spec fn resolve_spec(
    s: Seq<Option<StreamResource>>,
    stdin: PlatformHandle,
    id: u32,
) -> Result<(PlatformHandle, Option<ModeSnapshot>), TtyError> {
    match lookup(s, id) {
        None => Err(TtyError::UnknownResource),
        Some(StreamResource::StandardInput { saved_mode }) => Ok((stdin, saved_mode)),
        Some(StreamResource::OpenFile { handle_slot: None }) => Err(TtyError::ResourceUnavailable),
        Some(StreamResource::OpenFile { handle_slot: Some((h, meta)) }) => Ok((h, meta.saved_mode)),
        Some(StreamResource::Other) => Err(TtyError::UnsupportedResourceKind),
    }
}

} // verus!
