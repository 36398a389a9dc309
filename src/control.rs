use vstd::prelude::*;

use crate::error::TtyError;
use crate::mode::{handle_valid, is_raw_of, ModeSnapshot, PlatformHandle, RawPolicy};
use crate::resource::{lookup, resolve_spec, saved_of, with_saved, FileMetadata, StreamResource};

verus! {

/// What the platform must do next to carry out a raw-mode request.
#[derive(Debug, Clone, PartialEq, Eq)]
pub enum RawPlan {
    /// Nothing: the resource is already in the requested state.
    Unchanged,
    /// Read the current mode of the handle, apply its raw variant, then
    /// report back with `Registry::finish_set_raw`.
    Capture(PlatformHandle),
    /// Apply the saved mode to the handle. The resource is already back in
    /// the cooked state, whatever the platform answers.
    Restore(PlatformHandle, ModeSnapshot),
}

/// Which probe answers whether a resource is an interactive terminal.
#[derive(Debug, Clone, Copy, PartialEq, Eq, Structural)]
pub enum TtyProbe {
    /// The standard-stream interactivity probe for standard input.
    StandardStream,
    /// The generic terminal probe on this handle.
    Handle(PlatformHandle),
    /// None: the resource cannot be a terminal, so the answer is `false`.
    NotTerminal,
}

/// The first half of a raw-mode request: the registry afterwards and the
/// plan. Requests are refused while unstable features are disabled. A
/// request that finds the resource already in the asked state succeeds with
/// nothing to do, whatever its handle; otherwise the handle must be valid.
/// A disable on a raw resource consumes the saved mode at once, also where
/// the handle turns out invalid.
pub open spec fn plan_set_raw(
    s: Seq<Option<StreamResource>>,
    stdin: PlatformHandle,
    unstable_enabled: bool,
    id: u32,
    enable: bool,
) -> (Seq<Option<StreamResource>>, Result<RawPlan, TtyError>) {
    if !unstable_enabled {
        (s, Err(TtyError::FeatureDisabled))
    } else {
        match resolve_spec(s, stdin, id) {
            Err(e) => (s, Err(e)),
            Ok((h, saved)) => if enable {
                if saved is Some {
                    (s, Ok(RawPlan::Unchanged))
                } else if handle_valid(h) {
                    (s, Ok(RawPlan::Capture(h)))
                } else {
                    (s, Err(TtyError::InvalidHandle))
                }
            } else {
                match saved {
                    None => (s, Ok(RawPlan::Unchanged)),
                    Some(m) => (
                        s.update(id as int, Some(with_saved(lookup(s, id)->Some_0, None))),
                        if handle_valid(h) {
                            Ok(RawPlan::Restore(h, m))
                        } else {
                            Err(TtyError::InvalidHandle)
                        },
                    ),
                }
            },
        }
    }
}

/// The second half of an enable: once the raw mode was applied, the captured
/// mode is saved with the resource, unless the resource already has a saved
/// mode (an interleaved enable finished first), which is then kept. A
/// platform failure changes nothing.
pub open spec fn commit_raw(
    s: Seq<Option<StreamResource>>,
    stdin: PlatformHandle,
    id: u32,
    captured: ModeSnapshot,
    applied: Result<(), i32>,
) -> (Seq<Option<StreamResource>>, Result<(), TtyError>) {
    match applied {
        Err(code) => (s, Err(TtyError::OsFailure(code))),
        Ok(_) => match resolve_spec(s, stdin, id) {
            Err(e) => (s, Err(e)),
            Ok((_, Some(_))) => (s, Ok(())),
            Ok((_, None)) => (
                s.update(id as int, Some(with_saved(lookup(s, id)->Some_0, Some(captured)))),
                Ok(()),
            ),
        },
    }
}

/// The probe that decides whether the resource under `id` is a terminal.
pub open spec fn isatty_plan(s: Seq<Option<StreamResource>>, id: u32) -> Result<TtyProbe, TtyError> {
    match lookup(s, id) {
        None => Err(TtyError::UnknownResource),
        Some(StreamResource::StandardInput { .. }) => Ok(TtyProbe::StandardStream),
        Some(StreamResource::OpenFile { handle_slot: None }) => Err(TtyError::ResourceUnavailable),
        Some(StreamResource::OpenFile { handle_slot: Some((h, _)) }) => if handle_valid(h) {
            Ok(TtyProbe::Handle(h))
        } else {
            Err(TtyError::InvalidHandle)
        },
        Some(StreamResource::Other) => Ok(TtyProbe::NotTerminal),
    }
}

/// The handle whose window size answers a size query on `id`.
pub open spec fn console_size_plan(
    s: Seq<Option<StreamResource>>,
    stdin: PlatformHandle,
    unstable_enabled: bool,
    id: u32,
) -> Result<PlatformHandle, TtyError> {
    if !unstable_enabled {
        Err(TtyError::FeatureDisabled)
    } else {
        match resolve_spec(s, stdin, id) {
            Err(e) => Err(e),
            Ok((h, _)) => if handle_valid(h) {
                Ok(h)
            } else {
                Err(TtyError::InvalidHandle)
            },
        }
    }
}


/// The raw variant of a mode under a policy, as `make_raw` builds it.
pub open spec fn raw_variant(m: ModeSnapshot, p: RawPolicy) -> ModeSnapshot {
    choose|r: ModeSnapshot| is_raw_of(m, r, p)
}

/// A whole raw-mode request against terminals whose current modes are
/// `modes`: `begin_set_raw`; then, for a capture, reading the mode, applying
/// its raw variant and `finish_set_raw`; for a restore, applying the saved
/// mode. A handle that is no terminal fails with `code`. Gives the registry
/// afterwards, the terminals' modes afterwards and the answer.
pub open spec fn set_raw_outcome(
    s: Seq<Option<StreamResource>>,
    stdin: PlatformHandle,
    modes: Map<PlatformHandle, ModeSnapshot>,
    code: i32,
    unstable_enabled: bool,
    id: u32,
    enable: bool,
    p: RawPolicy,
) -> (Seq<Option<StreamResource>>, Map<PlatformHandle, ModeSnapshot>, Result<(), TtyError>) {
    let (s1, plan) = plan_set_raw(s, stdin, unstable_enabled, id, enable);
    match plan {
        Err(e) => (s1, modes, Err(e)),
        Ok(RawPlan::Unchanged) => (s1, modes, Ok(())),
        Ok(RawPlan::Capture(h)) => if modes.contains_key(h) {
            let (s2, r) = commit_raw(s1, stdin, id, modes[h], Ok(()));
            (s2, modes.insert(h, raw_variant(modes[h], p)), r)
        } else {
            (s1, modes, Err(TtyError::OsFailure(code)))
        },
        Ok(RawPlan::Restore(h, m)) => if modes.contains_key(h) {
            (s1, modes.insert(h, m), Ok(()))
        } else {
            (s1, modes, Err(TtyError::OsFailure(code)))
        },
    }
}

/// The registry and terminal modes after a series of raw-mode requests on
/// one resource, `true` standing for enable and `false` for disable.
pub open spec fn run_set_raw(
    s: Seq<Option<StreamResource>>,
    stdin: PlatformHandle,
    modes: Map<PlatformHandle, ModeSnapshot>,
    code: i32,
    unstable_enabled: bool,
    id: u32,
    ops: Seq<bool>,
    p: RawPolicy,
) -> (Seq<Option<StreamResource>>, Map<PlatformHandle, ModeSnapshot>)
    decreases ops.len(),
{
    if ops.len() == 0 {
        (s, modes)
    } else {
        let (s1, t1) = run_set_raw(s, stdin, modes, code, unstable_enabled, id, ops.drop_last(), p);
        let (s2, t2, _) = set_raw_outcome(s1, stdin, t1, code, unstable_enabled, id, ops.last(), p);
        (s2, t2)
    }
}

/// Entering raw mode twice in a row does what entering it once does: the
/// second request changes neither the registry nor any terminal, and gives
/// the same answer as the first.
pub proof fn lemma_enable_idempotent(
    s: Seq<Option<StreamResource>>,
    stdin: PlatformHandle,
    modes: Map<PlatformHandle, ModeSnapshot>,
    code: i32,
    unstable_enabled: bool,
    id: u32,
    p: RawPolicy,
)
    ensures
        ({
            let (s1, t1, r1) = set_raw_outcome(s, stdin, modes, code, unstable_enabled, id, true, p);
            set_raw_outcome(s1, stdin, t1, code, unstable_enabled, id, true, p) == (s1, t1, r1)
        }),
{
}

/// Leaving raw mode twice in a row: the second request changes neither the
/// registry nor any terminal, and it succeeds on every resource that can be
/// a terminal, whatever the first request answered.
pub proof fn lemma_disable_idempotent(
    s: Seq<Option<StreamResource>>,
    stdin: PlatformHandle,
    modes: Map<PlatformHandle, ModeSnapshot>,
    code: i32,
    unstable_enabled: bool,
    id: u32,
    p: RawPolicy,
)
    ensures
        ({
            let (s1, t1, r1) = set_raw_outcome(s, stdin, modes, code, unstable_enabled, id, false, p);
            let (s2, t2, r2) = set_raw_outcome(s1, stdin, t1, code, unstable_enabled, id, false, p);
            &&& s2 == s1
            &&& t2 == t1
            &&& unstable_enabled && resolve_spec(s, stdin, id) is Ok ==> r2 == Ok::<(), TtyError>(())
        }),
{
}


/// The handle that a resource resolves to.
pub open spec fn handle_of(r: StreamResource, stdin: PlatformHandle) -> PlatformHandle {
    match r {
        StreamResource::OpenFile { handle_slot: Some((h, _)) } => h,
        _ => stdin,
    }
}

/// A resource in the cooked state whose handle is a valid terminal handle.
pub open spec fn cooked_terminal(
    s: Seq<Option<StreamResource>>,
    stdin: PlatformHandle,
    modes: Map<PlatformHandle, ModeSnapshot>,
    id: u32,
) -> bool {
    &&& resolve_spec(s, stdin, id) is Ok
    &&& saved_of(lookup(s, id)->Some_0) is None
    &&& handle_valid(handle_of(lookup(s, id)->Some_0, stdin))
    &&& modes.contains_key(handle_of(lookup(s, id)->Some_0, stdin))
}

proof fn lemma_step_from_cooked(
    s: Seq<Option<StreamResource>>,
    stdin: PlatformHandle,
    modes: Map<PlatformHandle, ModeSnapshot>,
    code: i32,
    id: u32,
    enable: bool,
    p: RawPolicy,
)
    requires
        cooked_terminal(s, stdin, modes, id),
    ensures
        ({
            let res = lookup(s, id)->Some_0;
            let h = handle_of(res, stdin);
            let (s1, t1, r1) = set_raw_outcome(s, stdin, modes, code, true, id, enable, p);
            &&& r1 == Ok::<(), TtyError>(())
            &&& enable ==> s1 == s.update(id as int, Some(with_saved(res, Some(modes[h]))))
                && t1 == modes.insert(h, raw_variant(modes[h], p))
            &&& !enable ==> s1 == s && t1 == modes
        }),
{
}

proof fn lemma_step_from_raw(
    s: Seq<Option<StreamResource>>,
    stdin: PlatformHandle,
    modes: Map<PlatformHandle, ModeSnapshot>,
    code: i32,
    id: u32,
    enable: bool,
    p: RawPolicy,
)
    requires
        cooked_terminal(s, stdin, modes, id),
    ensures
        ({
            let res = lookup(s, id)->Some_0;
            let h = handle_of(res, stdin);
            let raw_s = s.update(id as int, Some(with_saved(res, Some(modes[h]))));
            let raw_t = modes.insert(h, raw_variant(modes[h], p));
            let (s1, t1, r1) = set_raw_outcome(raw_s, stdin, raw_t, code, true, id, enable, p);
            &&& r1 == Ok::<(), TtyError>(())
            &&& enable ==> s1 == raw_s && t1 == raw_t
            &&& !enable ==> s1 == s && t1 == modes
        }),
{
    let res = lookup(s, id)->Some_0;
    let h = handle_of(res, stdin);
    let raw_s = s.update(id as int, Some(with_saved(res, Some(modes[h]))));
    let raw_t = modes.insert(h, raw_variant(modes[h], p));
    assert(with_saved(with_saved(res, Some(modes[h])), None) == res) by {
        match res {
            StreamResource::OpenFile { handle_slot: Some((hh, meta)) } => {
                assert(meta == FileMetadata { saved_mode: None });
            },
            _ => {},
        }
    }
    assert(raw_s.update(id as int, Some(res)) =~= s);
    assert(raw_t.insert(h, modes[h]) =~= modes);
}

/// Round trip: on a cooked resource whose handle is a terminal, any series
/// of raw-mode requests leaves the resource and the terminals as they were
/// when it ends with a disable, however many redundant requests came in
/// between; when it ends with an enable, the mode seen before the first
/// enable is what the resource has saved, and the terminal is in its raw
/// variant.
pub proof fn lemma_round_trip(
    s: Seq<Option<StreamResource>>,
    stdin: PlatformHandle,
    modes: Map<PlatformHandle, ModeSnapshot>,
    code: i32,
    id: u32,
    ops: Seq<bool>,
    p: RawPolicy,
)
    requires
        cooked_terminal(s, stdin, modes, id),
    ensures
        ({
            let res = lookup(s, id)->Some_0;
            let h = handle_of(res, stdin);
            let (sn, tn) = run_set_raw(s, stdin, modes, code, true, id, ops, p);
            &&& (ops.len() == 0 || !ops.last()) ==> sn == s && tn == modes
            &&& (ops.len() > 0 && ops.last()) ==> sn == s.update(
                id as int,
                Some(with_saved(res, Some(modes[h]))),
            ) && tn == modes.insert(h, raw_variant(modes[h], p))
        }),
    decreases ops.len(),
{
    if ops.len() > 0 {
        lemma_round_trip(s, stdin, modes, code, id, ops.drop_last(), p);
        let prev = ops.drop_last();
        if prev.len() == 0 || !prev.last() {
            lemma_step_from_cooked(s, stdin, modes, code, id, ops.last(), p);
        } else {
            lemma_step_from_raw(s, stdin, modes, code, id, ops.last(), p);
        }
    }
}


/// An open file whose handle is checked out by an in-flight operation:
/// every control or query request on it reports the resource unavailable
/// and leaves the slot vacated.
pub proof fn lemma_vacated_slot_unavailable(
    s: Seq<Option<StreamResource>>,
    stdin: PlatformHandle,
    id: u32,
    enable: bool,
)
    requires
        lookup(s, id) == Some(StreamResource::OpenFile { handle_slot: None }),
    ensures
        plan_set_raw(s, stdin, true, id, enable) == (s, Err::<RawPlan, _>(
            TtyError::ResourceUnavailable,
        )),
        isatty_plan(s, id) == Err::<TtyProbe, _>(TtyError::ResourceUnavailable),
        console_size_plan(s, stdin, true, id) == Err::<PlatformHandle, _>(
            TtyError::ResourceUnavailable,
        ),
{
}

/// A resource that cannot be a terminal: it is no terminal, and raw-mode
/// and size requests on it are refused as unsupported, with nothing changed.
pub proof fn lemma_other_kind_unsupported(
    s: Seq<Option<StreamResource>>,
    stdin: PlatformHandle,
    id: u32,
    enable: bool,
)
    requires
        lookup(s, id) == Some(StreamResource::Other),
    ensures
        plan_set_raw(s, stdin, true, id, enable) == (s, Err::<RawPlan, _>(
            TtyError::UnsupportedResourceKind,
        )),
        isatty_plan(s, id) == Ok::<_, TtyError>(TtyProbe::NotTerminal),
        console_size_plan(s, stdin, true, id) == Err::<PlatformHandle, _>(
            TtyError::UnsupportedResourceKind,
        ),
{
}

/// While unstable features are disabled, a raw-mode request is refused before the
/// platform is asked anything: no plan comes out, and neither the registry
/// nor any terminal changes.
pub proof fn lemma_unstable_disabled(
    s: Seq<Option<StreamResource>>,
    stdin: PlatformHandle,
    modes: Map<PlatformHandle, ModeSnapshot>,
    code: i32,
    id: u32,
    enable: bool,
    p: RawPolicy,
)
    ensures
        plan_set_raw(s, stdin, false, id, enable) == (s, Err::<RawPlan, _>(
            TtyError::FeatureDisabled,
        )),
        set_raw_outcome(s, stdin, modes, code, false, id, enable, p) == (
            s,
            modes,
            Err::<(), _>(TtyError::FeatureDisabled),
        ),
{
}

} // verus!
