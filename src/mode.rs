use vstd::prelude::*;

verus! {

/// The operating-system reference to a terminal-capable stream.
#[derive(Debug, Clone, Copy, PartialEq, Eq, Structural)]
pub enum PlatformHandle {
    /// A POSIX file descriptor.
    Descriptor(i32),
    /// A Windows console handle, as its address.
    Console(usize),
}

/// Whether a handle may be handed to the platform at all: a descriptor is
/// non-negative; a console handle is neither null nor the all-ones sentinel.
pub open spec fn handle_valid(h: PlatformHandle) -> bool {
    match h {
        PlatformHandle::Descriptor(fd) => fd >= 0,
        PlatformHandle::Console(addr) => addr != 0 && addr != usize::MAX,
    }
}

impl PlatformHandle {
    pub fn is_valid(&self) -> (r: bool)
        ensures
            r == handle_valid(*self),
    {
        match self {
            PlatformHandle::Descriptor(fd) => *fd >= 0,
            PlatformHandle::Console(addr) => *addr != 0 && *addr != usize::MAX,
        }
    }
}

/// The attributes of a POSIX terminal line, as the platform reports them.
#[derive(Debug, Clone, PartialEq, Eq)]
pub struct TermiosMode {
    pub input_flags: u64,
    pub output_flags: u64,
    pub control_flags: u64,
    pub local_flags: u64,
    pub line_discipline: u8,
    pub control_chars: Vec<u8>,
    pub input_speed: u32,
    pub output_speed: u32,
}

/// A capture of a terminal's whole mode at one point in time.
#[derive(Debug, Clone, PartialEq, Eq)]
pub enum ModeSnapshot {
    /// The line-discipline attributes of a POSIX terminal.
    Termios(TermiosMode),
    /// The input-mode bitmask of a Windows console.
    Console(u32),
}

/// The platform's flag bits that the raw variant of a mode clears or sets,
/// and where the read policy sits among the control characters.
#[derive(Debug, Clone, Copy, PartialEq, Eq, Structural)]
pub struct RawPolicy {
    /// Input bits cleared: break interrupt, CR translation, parity check,
    /// stripping and output flow control.
    pub input_clear: u64,
    /// Control bits set: eight-bit characters.
    pub control_set: u64,
    /// Local bits cleared: echo, canonical input, extended input, signals.
    pub local_clear: u64,
    /// Index of the minimum byte count of a read.
    pub min_index: usize,
    /// Index of the inter-byte read timeout.
    pub time_index: usize,
    /// Console input bits cleared: line input, echo, processed input.
    pub console_clear: u32,
}

/// The control characters of a raw mode: a read returns once one byte is
/// there, with no inter-byte timeout. An index out of range is left alone.
pub open spec fn raw_control_chars(cc: Seq<u8>, p: RawPolicy) -> Seq<u8> {
    let with_min = if p.min_index < cc.len() { cc.update(p.min_index as int, 1u8) } else { cc };
    if p.time_index < with_min.len() { with_min.update(p.time_index as int, 0u8) } else { with_min }
}

/// The raw variant of a POSIX mode under a policy.
pub open spec fn raw_termios(t: TermiosMode, r: TermiosMode, p: RawPolicy) -> bool {
    &&& r.input_flags == t.input_flags & !p.input_clear
    &&& r.output_flags == t.output_flags
    &&& r.control_flags == t.control_flags | p.control_set
    &&& r.local_flags == t.local_flags & !p.local_clear
    &&& r.line_discipline == t.line_discipline
    &&& r.control_chars@ == raw_control_chars(t.control_chars@, p)
    &&& r.input_speed == t.input_speed
    &&& r.output_speed == t.output_speed
}

/// `r` is the raw variant of mode `m` under policy `p`.
pub open spec fn is_raw_of(m: ModeSnapshot, r: ModeSnapshot, p: RawPolicy) -> bool {
    match (m, r) {
        (ModeSnapshot::Termios(t), ModeSnapshot::Termios(u)) => raw_termios(t, u, p),
        (ModeSnapshot::Console(c), ModeSnapshot::Console(d)) => d == c & !p.console_clear,
        _ => false,
    }
}

fn copy_bytes(v: &Vec<u8>) -> (r: Vec<u8>)
    ensures
        r@ == v@,
{
    let mut r: Vec<u8> = Vec::with_capacity(v.len());
    let mut i: usize = 0;
    while i < v.len()
        invariant
            i <= v.len(),
            r@ == v@.subrange(0, i as int),
        decreases v.len() - i,
    {
        r.push(v[i]);
        i = i + 1;
    }
    assert(r@ =~= v@);
    r
}

/// Builds the raw variant of a captured mode. The captured mode itself is
/// left as it is, so that it can later be restored verbatim.
pub fn make_raw(m: &ModeSnapshot, p: &RawPolicy) -> (r: ModeSnapshot)
    ensures
        is_raw_of(*m, r, *p),
{
    match m {
        ModeSnapshot::Termios(t) => {
            let mut cc = copy_bytes(&t.control_chars);
            if p.min_index < cc.len() {
                cc.set(p.min_index, 1u8);
            }
            if p.time_index < cc.len() {
                cc.set(p.time_index, 0u8);
            }
            ModeSnapshot::Termios(TermiosMode {
                input_flags: t.input_flags & !p.input_clear,
                output_flags: t.output_flags,
                control_flags: t.control_flags | p.control_set,
                local_flags: t.local_flags & !p.local_clear,
                line_discipline: t.line_discipline,
                control_chars: cc,
                input_speed: t.input_speed,
                output_speed: t.output_speed,
            })
        },
        ModeSnapshot::Console(c) => ModeSnapshot::Console(*c & !p.console_clear),
    }
}

} // verus!
