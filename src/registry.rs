use vstd::prelude::*;

use crate::control::{
    commit_raw, console_size_plan, isatty_plan, plan_set_raw, RawPlan, TtyProbe,
};
use crate::error::TtyError;
use crate::mode::{handle_valid, ModeSnapshot, PlatformHandle};
use crate::resource::{lookup, FileMetadata, StreamResource};

verus! {

/// The shared table of streams, keyed by small integers that are never
/// reused.
pub struct Registry {
    stdin: PlatformHandle,
    slots: Vec<Option<StreamResource>>,
}

impl Registry {
    /// The registered resources, indexed by identifier.
    pub closed spec fn entries(&self) -> Seq<Option<StreamResource>> {
        self.slots@
    }

    /// The handle that standard input resolves to.
    pub closed spec fn stdin_handle(&self) -> PlatformHandle {
        self.stdin
    }

    /// An empty registry whose standard input is `stdin`.
    pub fn new(stdin: PlatformHandle) -> (r: Registry)
        ensures
            r.entries() == Seq::<Option<StreamResource>>::empty(),
            r.stdin_handle() == stdin,
    {
        Registry { stdin, slots: Vec::new() }
    }

    /// Registers a resource and returns its identifier.
    pub fn add(&mut self, res: StreamResource) -> (id: u32)
        requires
            old(self).entries().len() < u32::MAX,
        ensures
            id == old(self).entries().len(),
            final(self).entries() == old(self).entries().push(Some(res)),
            final(self).stdin_handle() == old(self).stdin_handle(),
    {
        let id = self.slots.len() as u32;
        self.slots.push(Some(res));
        id
    }

    /// The resource under `id`.
    pub fn get(&self, id: u32) -> (r: Option<&StreamResource>)
        ensures
            match r {
                Some(x) => lookup(self.entries(), id) == Some(*x),
                None => lookup(self.entries(), id) == None::<StreamResource>,
            },
    {
        if (id as usize) < self.slots.len() {
            match &self.slots[id as usize] {
                Some(x) => Some(x),
                None => None,
            }
        } else {
            None
        }
    }

    /// Hands an open file's handle out to an operation that needs it alone,
    /// leaving the slot vacated until `put_handle`. `None`, with nothing
    /// changed, where `id` is no open file or its slot is already vacated.
    pub fn take_handle(&mut self, id: u32) -> (r: Option<(PlatformHandle, FileMetadata)>)
        ensures
            final(self).stdin_handle() == old(self).stdin_handle(),
            match lookup(old(self).entries(), id) {
                Some(StreamResource::OpenFile { handle_slot: Some(pair) }) => {
                    &&& r == Some(pair)
                    &&& final(self).entries() == old(self).entries().update(
                        id as int,
                        Some(StreamResource::OpenFile { handle_slot: None }),
                    )
                },
                _ => r is None && final(self).entries() == old(self).entries(),
            },
    {
        if (id as usize) < self.slots.len() {
            let slot = &mut self.slots[id as usize];
            match slot {
                Some(StreamResource::OpenFile { handle_slot }) => handle_slot.take(),
                _ => None,
            }
        } else {
            None
        }
    }

    /// Puts a handle back into the vacated slot of an open file. Where `id`
    /// has no vacated slot, nothing changes and the pair is handed back.
    pub fn put_handle(&mut self, id: u32, h: PlatformHandle, meta: FileMetadata) -> (r: Result<
        (),
        (PlatformHandle, FileMetadata),
    >)
        ensures
            final(self).stdin_handle() == old(self).stdin_handle(),
            match lookup(old(self).entries(), id) {
                Some(StreamResource::OpenFile { handle_slot: None }) => {
                    &&& r is Ok
                    &&& final(self).entries() == old(self).entries().update(
                        id as int,
                        Some(StreamResource::OpenFile { handle_slot: Some((h, meta)) }),
                    )
                },
                _ => r == Err::<(), _>((h, meta)) && final(self).entries() == old(self).entries(),
            },
    {
        if (id as usize) < self.slots.len() {
            let slot = &mut self.slots[id as usize];
            match slot {
                Some(StreamResource::OpenFile { handle_slot }) => {
                    if handle_slot.is_none() {
                        *handle_slot = Some((h, meta));
                        Ok(())
                    } else {
                        Err((h, meta))
                    }
                },
                _ => Err((h, meta)),
            }
        } else {
            Err((h, meta))
        }
    }
}


/// One raw-mode step on a saved-mode slot that resolved to handle `h`.
fn step_saved(h: PlatformHandle, saved: &mut Option<ModeSnapshot>, enable: bool) -> (r: Result<
    RawPlan,
    TtyError,
>)
    ensures
        enable ==> *final(saved) == *old(saved) && r == (if *old(saved) is Some {
            Ok::<_, TtyError>(RawPlan::Unchanged)
        } else if handle_valid(h) {
            Ok(RawPlan::Capture(h))
        } else {
            Err(TtyError::InvalidHandle)
        }),
        !enable ==> *final(saved) is None && r == (match *old(saved) {
            None => Ok::<_, TtyError>(RawPlan::Unchanged),
            Some(m) => if handle_valid(h) {
                Ok(RawPlan::Restore(h, m))
            } else {
                Err(TtyError::InvalidHandle)
            },
        }),
{
    if enable {
        if saved.is_some() {
            Ok(RawPlan::Unchanged)
        } else if h.is_valid() {
            Ok(RawPlan::Capture(h))
        } else {
            Err(TtyError::InvalidHandle)
        }
    } else {
        match saved.take() {
            None => Ok(RawPlan::Unchanged),
            Some(m) => if h.is_valid() {
                Ok(RawPlan::Restore(h, m))
            } else {
                Err(TtyError::InvalidHandle)
            },
        }
    }
}

impl Registry {
    /// Starts a raw-mode request on `id`: checks that unstable features are
    /// enabled, resolves the handle and decides what the platform must do.
    /// Entering raw mode on a resource that is already raw, or leaving it on
    /// one that is cooked, needs nothing and succeeds whatever the handle.
    /// Otherwise the handle must be valid. Leaving raw mode takes the saved
    /// mode out of the resource here, so that it is applied at most once.
    pub fn begin_set_raw(&mut self, unstable_enabled: bool, id: u32, enable: bool) -> (r: Result<
        RawPlan,
        TtyError,
    >)
        ensures
            final(self).stdin_handle() == old(self).stdin_handle(),
            (final(self).entries(), r) == plan_set_raw(
                old(self).entries(),
                old(self).stdin_handle(),
                unstable_enabled,
                id,
                enable,
            ),
    {
        if !unstable_enabled {
            return Err(TtyError::FeatureDisabled);
        }
        if id as usize >= self.slots.len() {
            return Err(TtyError::UnknownResource);
        }
        let stdin = self.stdin;
        let slot = &mut self.slots[id as usize];
        match slot {
            None => Err(TtyError::UnknownResource),
            Some(StreamResource::StandardInput { saved_mode }) => step_saved(stdin, saved_mode, enable),
            Some(StreamResource::OpenFile { handle_slot: Some((h, meta)) }) => step_saved(
                *h,
                &mut meta.saved_mode,
                enable,
            ),
            Some(StreamResource::OpenFile { handle_slot: None }) => Err(
                TtyError::ResourceUnavailable,
            ),
            Some(StreamResource::Other) => Err(TtyError::UnsupportedResourceKind),
        }
    }

    /// Completes a `RawPlan::Capture`: `applied` is what the platform
    /// answered when the raw variant of `captured` was applied. On success
    /// the captured mode is saved with the resource, unless it already has a
    /// saved mode from an interleaved enable that finished first: that one,
    /// taken while the terminal was still cooked, is kept. On failure nothing
    /// changes and the platform's error is returned.
    pub fn finish_set_raw(&mut self, id: u32, captured: ModeSnapshot, applied: Result<(), i32>) -> (r:
        Result<(), TtyError>)
        ensures
            final(self).stdin_handle() == old(self).stdin_handle(),
            (final(self).entries(), r) == commit_raw(
                old(self).entries(),
                old(self).stdin_handle(),
                id,
                captured,
                applied,
            ),
    {
        if let Err(code) = applied {
            return Err(TtyError::OsFailure(code));
        }
        if id as usize >= self.slots.len() {
            return Err(TtyError::UnknownResource);
        }
        let slot = &mut self.slots[id as usize];
        match slot {
            None => Err(TtyError::UnknownResource),
            Some(StreamResource::StandardInput { saved_mode }) => {
                if saved_mode.is_none() {
                    *saved_mode = Some(captured);
                }
                Ok(())
            },
            Some(StreamResource::OpenFile { handle_slot: Some((_, meta)) }) => {
                if meta.saved_mode.is_none() {
                    meta.saved_mode = Some(captured);
                }
                Ok(())
            },
            Some(StreamResource::OpenFile { handle_slot: None }) => Err(
                TtyError::ResourceUnavailable,
            ),
            Some(StreamResource::Other) => Err(TtyError::UnsupportedResourceKind),
        }
    }

    /// Which probe tells whether `id` is an interactive terminal. Resources
    /// that cannot be terminals need no probe: the answer is `false`.
    pub fn isatty_probe(&self, id: u32) -> (r: Result<TtyProbe, TtyError>)
        ensures
            r == isatty_plan(self.entries(), id),
    {
        match self.get(id) {
            None => Err(TtyError::UnknownResource),
            Some(StreamResource::StandardInput { .. }) => Ok(TtyProbe::StandardStream),
            Some(StreamResource::OpenFile { handle_slot: None }) => Err(TtyError::ResourceUnavailable),
            Some(StreamResource::OpenFile { handle_slot: Some((h, _)) }) => if h.is_valid() {
                Ok(TtyProbe::Handle(*h))
            } else {
                Err(TtyError::InvalidHandle)
            },
            Some(StreamResource::Other) => Ok(TtyProbe::NotTerminal),
        }
    }

    /// The handle whose window size answers a size query on `id`.
    pub fn console_size_handle(&self, unstable_enabled: bool, id: u32) -> (r: Result<
        PlatformHandle,
        TtyError,
    >)
        ensures
            r == console_size_plan(self.entries(), self.stdin_handle(), unstable_enabled, id),
    {
        if !unstable_enabled {
            return Err(TtyError::FeatureDisabled);
        }
        let h = match self.get(id) {
            None => { return Err(TtyError::UnknownResource); },
            Some(StreamResource::StandardInput { .. }) => self.stdin,
            Some(StreamResource::OpenFile { handle_slot: None }) => {
                return Err(TtyError::ResourceUnavailable);
            },
            Some(StreamResource::OpenFile { handle_slot: Some((h, _)) }) => *h,
            Some(StreamResource::Other) => { return Err(TtyError::UnsupportedResourceKind); },
        };
        if h.is_valid() {
            Ok(h)
        } else {
            Err(TtyError::InvalidHandle)
        }
    }
}

} // verus!
