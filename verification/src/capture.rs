//! Exception capture: classification of fatal exception codes, the
//! captured crash snapshot, the bounded stack walk and the once-only
//! handler registration.

use crate::strfmt::{append_dec_u64, append_hex_pad, append_hex_u64, push_char, spec_dec, spec_hex,
    spec_hex_pad};
use vstd::prelude::*;

verus! {

/// Windows exception code for an access violation.
pub const ACCESS_VIOLATION: u32 = 0xC0000005;
/// Windows exception code for a stack overflow.
pub const STACK_OVERFLOW: u32 = 0xC00000FD;
/// Windows exception code for an illegal instruction.
pub const ILLEGAL_INSTRUCTION: u32 = 0xC000001D;
/// Windows exception code for an integer division by zero.
pub const INTEGER_DIVIDE_BY_ZERO: u32 = 0xC0000094;
/// Windows exception code for an integer overflow trap.
pub const INTEGER_OVERFLOW: u32 = 0xC0000095;
/// Windows exception code for a privileged-instruction fault.
pub const PRIVILEGED_INSTRUCTION: u32 = 0xC0000096;
/// Windows exception code for an in-page error.
pub const IN_PAGE_ERROR: u32 = 0xC0000006;
/// Windows exception code for an invalid handle.
pub const INVALID_HANDLE: u32 = 0xC0000008;
/// Windows exception code for heap corruption.
pub const HEAP_CORRUPTION: u32 = 0xC0000374;
/// Windows exception code for a stack-buffer overrun.
pub const STACK_BUFFER_OVERRUN: u32 = 0xC0000409;

/// The fixed allow-list of exception codes that are treated as fatal.
pub open spec fn spec_is_fatal(code: u32) -> bool {
    ||| code == ACCESS_VIOLATION
    ||| code == STACK_OVERFLOW
    ||| code == ILLEGAL_INSTRUCTION
    ||| code == INTEGER_DIVIDE_BY_ZERO
    ||| code == INTEGER_OVERFLOW
    ||| code == PRIVILEGED_INSTRUCTION
    ||| code == IN_PAGE_ERROR
    ||| code == INVALID_HANDLE
    ||| code == HEAP_CORRUPTION
    ||| code == STACK_BUFFER_OVERRUN
}

/// Returns true exactly when the exception code is on the fatal allow-list;
/// all other codes are declined so the rest of the handler chain can run.
pub fn is_fatal_exception(code: u32) -> (r: bool)
    ensures
        r == spec_is_fatal(code),
{
    code == ACCESS_VIOLATION || code == STACK_OVERFLOW || code == ILLEGAL_INSTRUCTION
        || code == INTEGER_DIVIDE_BY_ZERO || code == INTEGER_OVERFLOW
        || code == PRIVILEGED_INSTRUCTION || code == IN_PAGE_ERROR || code == INVALID_HANDLE
        || code == HEAP_CORRUPTION || code == STACK_BUFFER_OVERRUN
}

/// The human-readable name of an exception code.
pub open spec fn spec_code_name(code: u32) -> Seq<char> {
    if code == ACCESS_VIOLATION {
        "ACCESS_VIOLATION"@
    } else if code == STACK_OVERFLOW {
        "STACK_OVERFLOW"@
    } else if code == ILLEGAL_INSTRUCTION {
        "ILLEGAL_INSTRUCTION"@
    } else if code == INTEGER_DIVIDE_BY_ZERO {
        "INTEGER_DIVIDE_BY_ZERO"@
    } else if code == INTEGER_OVERFLOW {
        "INTEGER_OVERFLOW"@
    } else if code == PRIVILEGED_INSTRUCTION {
        "PRIVILEGED_INSTRUCTION"@
    } else if code == IN_PAGE_ERROR {
        "IN_PAGE_ERROR"@
    } else if code == INVALID_HANDLE {
        "INVALID_HANDLE"@
    } else if code == HEAP_CORRUPTION {
        "HEAP_CORRUPTION"@
    } else if code == STACK_BUFFER_OVERRUN {
        "STACK_BUFFER_OVERRUN"@
    } else {
        "UNKNOWN_EXCEPTION"@
    }
}

/// Returns a human-readable name for an exception code.
pub fn exception_code_name(code: u32) -> (r: &'static str)
    ensures
        r@ == spec_code_name(code),
{
    if code == ACCESS_VIOLATION {
        "ACCESS_VIOLATION"
    } else if code == STACK_OVERFLOW {
        "STACK_OVERFLOW"
    } else if code == ILLEGAL_INSTRUCTION {
        "ILLEGAL_INSTRUCTION"
    } else if code == INTEGER_DIVIDE_BY_ZERO {
        "INTEGER_DIVIDE_BY_ZERO"
    } else if code == INTEGER_OVERFLOW {
        "INTEGER_OVERFLOW"
    } else if code == PRIVILEGED_INSTRUCTION {
        "PRIVILEGED_INSTRUCTION"
    } else if code == IN_PAGE_ERROR {
        "IN_PAGE_ERROR"
    } else if code == INVALID_HANDLE {
        "INVALID_HANDLE"
    } else if code == HEAP_CORRUPTION {
        "HEAP_CORRUPTION"
    } else if code == STACK_BUFFER_OVERRUN {
        "STACK_BUFFER_OVERRUN"
    } else {
        "UNKNOWN_EXCEPTION"
    }
}

/// The rendering of an exception code for a report: `0x` and eight
/// uppercase hexadecimal digits.
pub open spec fn spec_exception_code(code: u32) -> Seq<char> {
    "0x"@ + spec_hex_pad(code as int, 8)
}

/// Renders an exception code as `0x` and eight hexadecimal digits.
pub fn format_exception_code(code: u32) -> (r: String)
    ensures
        r@ == spec_exception_code(code),
{
    let mut out = String::new();
    out.append("0x");
    append_hex_pad(&mut out, code as u64, 8);
    assert(out@ =~= spec_exception_code(code));
    out
}

/// The rendering of an address for a report: `0x` and sixteen uppercase
/// hexadecimal digits.
pub open spec fn spec_exception_address(addr: u64) -> Seq<char> {
    "0x"@ + spec_hex_pad(addr as int, 16)
}

/// Renders an address as `0x` and sixteen hexadecimal digits.
pub fn format_exception_address(addr: u64) -> (r: String)
    ensures
        r@ == spec_exception_address(addr),
{
    let mut out = String::new();
    out.append("0x");
    append_hex_pad(&mut out, addr, 16);
    assert(out@ =~= spec_exception_address(addr));
    out
}

/// Captured data from a crash: the plain-data snapshot the capture phase
/// hands to the processing phase.
#[derive(Debug, Clone)]
pub struct CrashData {
    /// The exception code, e.g. `0xC0000005` for an access violation.
    pub exception_code: u32,
    /// The address where the exception occurred.
    pub exception_address: u64,
    /// The captured stack trace as a formatted string.
    pub stack_trace: String,
    /// Module name where the crash occurred, if it could be determined.
    pub faulting_module: Option<String>,
}

/// The maximum number of frames a stack walk records; the bound guarantees
/// termination even on a corrupted or cyclic stack.
pub const MAX_STACK_FRAMES: usize = 64;

/// One raw frame observed during a stack walk.
#[derive(Debug, Clone)]
pub struct CapturedFrame {
    /// Name of the module containing the program counter, if known.
    pub module: Option<String>,
    /// Base address of that module, if known.
    pub base: Option<u64>,
    /// The program counter of the frame.
    pub pc: u64,
}

/// Mathematical model of a captured frame.
pub ghost struct CapturedFrameV {
    /// Module name, if known.
    pub module: Option<Seq<char>>,
    /// Module base, if known.
    pub base: Option<u64>,
    /// Program counter.
    pub pc: u64,
}

impl View for CapturedFrame {
    type V = CapturedFrameV;

    open spec fn view(&self) -> CapturedFrameV {
        CapturedFrameV {
            module: match self.module {
                Option::Some(ref m) => Some(m@),
                Option::None => None,
            },
            base: self.base,
            pc: self.pc,
        }
    }
}

/// A frame index padded to width two with a leading space.
pub open spec fn pad2(i: int) -> Seq<char> {
    if i < 10 {
        seq![' '] + spec_dec(i)
    } else {
        spec_dec(i)
    }
}

/// The module name a frame is rendered under.
pub open spec fn frame_module_name(f: CapturedFrameV) -> Seq<char> {
    match f.module {
        Option::Some(m) => m,
        Option::None => "unknown"@,
    }
}

/// The in-module offset a frame is rendered with: the program counter
/// minus the module base, saturating at zero, with base zero when unknown.
pub open spec fn frame_offset(f: CapturedFrameV) -> int {
    let base = match f.base {
        Option::Some(b) => b as int,
        Option::None => 0,
    };
    if f.pc >= base {
        f.pc - base
    } else {
        0
    }
}

/// One rendered line of a captured stack walk, newline included.
pub open spec fn capture_line(i: int, f: CapturedFrameV) -> Seq<char> {
    seq!['['] + pad2(i) + "] "@ + frame_module_name(f) + "+0x"@ + spec_hex(frame_offset(f))
        + " (0x"@ + spec_hex_pad(f.pc as int, 16) + ")"@ + seq!['\n']
}

/// The rendered lines of a walked frame sequence, in walk order.
pub open spec fn capture_lines(s: Seq<CapturedFrameV>) -> Seq<char>
    decreases s.len(),
{
    if s.len() == 0 {
        Seq::empty()
    } else {
        capture_lines(s.drop_last()) + capture_line(s.len() - 1, s.last())
    }
}

/// What one step of the bounded walk does: appends the frame while fewer
/// than the maximum are recorded, and reports whether walking may go on.
pub open spec fn spec_walk_step(s: Seq<CapturedFrameV>, f: CapturedFrameV) -> (
    Seq<CapturedFrameV>,
    bool,
) {
    if s.len() < MAX_STACK_FRAMES {
        (s.push(f), s.len() + 1 < MAX_STACK_FRAMES)
    } else {
        (s, false)
    }
}

/// The walker state after feeding a whole frame chain through the walk.
pub open spec fn spec_walk_all(s: Seq<CapturedFrameV>) -> Seq<CapturedFrameV>
    decreases s.len(),
{
    if s.len() == 0 {
        Seq::empty()
    } else {
        spec_walk_step(spec_walk_all(s.drop_last()), s.last()).0
    }
}

/// Bounded stack walk: any chain of observed frames, however long or
/// cyclic, leaves at most the maximum number recorded, and once the
/// maximum is reached the walk refuses to go on.
pub proof fn lemma_bounded_walk(s: Seq<CapturedFrameV>)
    ensures
        spec_walk_all(s).len() == if s.len() < MAX_STACK_FRAMES {
            s.len() as int
        } else {
            MAX_STACK_FRAMES as int
        },
        s.len() >= MAX_STACK_FRAMES ==> forall|f: CapturedFrameV|
            (#[trigger] spec_walk_step(spec_walk_all(s), f)).0 == spec_walk_all(s)
                && !spec_walk_step(spec_walk_all(s), f).1,
    decreases s.len(),
{
    if s.len() > 0 {
        lemma_bounded_walk(s.drop_last());
    }
}

/// Accumulates the frames of one bounded stack walk.
#[derive(Debug)]
pub struct StackWalker {
    /// The frames recorded so far, in walk order.
    pub frames: Vec<CapturedFrame>,
}

impl View for StackWalker {
    type V = Seq<CapturedFrameV>;

    open spec fn view(&self) -> Seq<CapturedFrameV> {
        Seq::new(self.frames@.len(), |i: int| self.frames@[i]@)
    }
}

impl StackWalker {
    /// Starts a walk with no frames recorded.
    pub fn new() -> (r: Self)
        ensures
            r@ =~= Seq::<CapturedFrameV>::empty(),
    {
        StackWalker { frames: Vec::new() }
    }

    /// Returns the number of frames recorded so far.
    pub fn frame_count(&self) -> (r: usize)
        ensures
            r == self@.len(),
    {
        self.frames.len()
    }

    /// Records one observed frame, unless the maximum depth is reached;
    /// the result says whether the walk may continue.
    pub fn push_frame(&mut self, frame: CapturedFrame) -> (cont: bool)
        ensures
            final(self)@ =~= spec_walk_step(old(self)@, frame@).0,
            cont == spec_walk_step(old(self)@, frame@).1,
    {
        if self.frames.len() < MAX_STACK_FRAMES {
            self.frames.push(frame);
            self.frames.len() < MAX_STACK_FRAMES
        } else {
            false
        }
    }

    /// Renders the recorded frames as the capture-phase stack trace; when
    /// no frame could be walked, a single synthetic frame built from the
    /// faulting address stands in.
    pub fn into_trace(self, fallback: CapturedFrame) -> (r: String)
        ensures
            self@.len() == 0 ==> r@ == capture_line(0, fallback@),
            self@.len() > 0 ==> r@ == capture_lines(self@),
    {
        let n = self.frames.len();
        if n == 0 {
            let mut out = String::new();
            append_capture_line(&mut out, 0, &fallback);
            assert(out@ =~= capture_line(0, fallback@));
            return out;
        }
        let mut out = String::new();
        let mut i: usize = 0;
        while i < n
            invariant
                i <= n,
                n == self.frames@.len(),
                self@.len() == n,
                forall|k: int| 0 <= k < n ==> self@[k] == self.frames@[k]@,
                out@ == capture_lines(self@.take(i as int)),
            decreases n - i,
        {
            append_capture_line(&mut out, i, &self.frames[i]);
            proof {
                assert(self@.take(i + 1).drop_last() =~= self@.take(i as int));
                assert(self@.take(i + 1).last() == self@[i as int]);
                assert(out@ =~= capture_lines(self@.take(i + 1)));
            }
            i = i + 1;
        }
        proof {
            assert(self@.take(n as int) =~= self@);
        }
        out
    }
}

/// Appends one rendered line of a captured stack walk.
pub fn append_capture_line(out: &mut String, i: usize, f: &CapturedFrame)
    ensures
        final(out)@ == old(out)@ + capture_line(i as int, f@),
{
    push_char(out, '[');
    if i < 10 {
        push_char(out, ' ');
    }
    append_dec_u64(out, i as u64);
    out.append("] ");
    match &f.module {
        Option::Some(m) => {
            out.append(m.as_str());
        },
        Option::None => {
            out.append("unknown");
        },
    }
    out.append("+0x");
    let base = match f.base {
        Option::Some(b) => b,
        Option::None => 0,
    };
    let offset = if f.pc >= base {
        f.pc - base
    } else {
        0
    };
    append_hex_u64(out, offset);
    out.append(" (0x");
    append_hex_pad(out, f.pc, 16);
    out.append(")");
    push_char(out, '\n');
    assert(final(out)@ =~= old(out)@ + capture_line(i as int, f@));
}

/// Errors of crash-handler registration and capture.
#[derive(Debug, Clone)]
pub enum CrashHandlerError {
    /// The handler was already registered.
    AlreadyRegistered,
    /// The host refused to install the handler.
    RegistrationFailed(String),
    /// The stack trace could not be captured.
    StackTraceCapture(String),
}

/// The descriptive text of a crash-handler error.
pub open spec fn handler_error_text(e: CrashHandlerError) -> Seq<char> {
    match e {
        CrashHandlerError::AlreadyRegistered => "Crash handler already registered"@,
        CrashHandlerError::RegistrationFailed(m) => "Failed to register VEH handler: "@ + m@,
        CrashHandlerError::StackTraceCapture(m) => "Failed to capture stack trace: "@ + m@,
    }
}

impl CrashHandlerError {
    /// Renders the error for logs and operators.
    pub fn message(&self) -> (r: String)
        ensures
            r@ == handler_error_text(*self),
    {
        let mut out = String::new();
        match self {
            CrashHandlerError::AlreadyRegistered => {
                out.append("Crash handler already registered");
            },
            CrashHandlerError::RegistrationFailed(m) => {
                out.append("Failed to register VEH handler: ");
                out.append(m.as_str());
            },
            CrashHandlerError::StackTraceCapture(m) => {
                out.append("Failed to capture stack trace: ");
                out.append(m.as_str());
            },
        }
        out
    }
}

/// What registration does to the set-once flag: succeeds exactly when the
/// flag was clear, and leaves it set either way.
pub open spec fn spec_register(registered: bool) -> (bool, bool) {
    if !registered {
        (true, true)
    } else {
        (false, true)
    }
}

/// The set-once registration state of the process-wide exception handler.
#[derive(Debug, Clone, PartialEq, Eq, Structural)]
pub struct HandlerRegistration {
    /// Whether the handler has been installed.
    pub registered: bool,
}

impl HandlerRegistration {
    /// The initial state: no handler installed.
    pub fn new() -> (r: Self)
        ensures
            !r.registered,
    {
        HandlerRegistration { registered: false }
    }

    /// Registers the process-wide handler once; a second attempt fails
    /// with `AlreadyRegistered` instead of installing a duplicate.
    pub fn register(&mut self) -> (r: Result<(), CrashHandlerError>)
        ensures
            r is Ok == spec_register(old(self).registered).0,
            final(self).registered == spec_register(old(self).registered).1,
            old(self).registered ==> r matches Err(CrashHandlerError::AlreadyRegistered),
    {
        if self.registered {
            Err(CrashHandlerError::AlreadyRegistered)
        } else {
            self.registered = true;
            Ok(())
        }
    }

    /// Marks the handler installed; the result says whether this call was
    /// the one that freshly installed it.
    pub fn install_handler(&mut self) -> (fresh: bool)
        ensures
            fresh == !old(self).registered,
            final(self).registered,
    {
        let was = self.registered;
        self.registered = true;
        !was
    }

    /// Clears the flag after a failed installation attempt.
    pub fn rollback_install(&mut self)
        ensures
            !final(self).registered,
    {
        self.registered = false;
    }

    /// Removes the handler; the result says whether one was installed.
    pub fn remove_handler(&mut self) -> (was: bool)
        ensures
            was == old(self).registered,
            !final(self).registered,
    {
        let was = self.registered;
        self.registered = false;
        was
    }
}

/// Idempotent registration: from a fresh state the first registration
/// succeeds, and a second attempt fails without changing the state, so
/// exactly one handler is ever installed.
pub proof fn lemma_registration_idempotent()
    ensures
        spec_register(false).0,
        spec_register(false).1,
        !spec_register(spec_register(false).1).0,
        spec_register(spec_register(false).1).1,
{
}

} // verus!
