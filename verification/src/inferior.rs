//! The traced process and the operations that control it.
//!
//! Every operation here talks to the operating system, and what the system
//! answers is not known in advance. The contracts therefore say what this
//! library does with each answer: which statuses it reports, how it corrects
//! a stop that ran into a breakpoint, and that the breakpoint table and a
//! recorded end of the process never change behind the caller's back.

use crate::breakpoint::hit_by;
use crate::breakpoint::reported;
use crate::breakpoint::settled;
use crate::breakpoint::Breakpoint;
use crate::breakpoint::BreakpointTable;
use crate::dwarf_data::DwarfData;
use crate::dwarf_data::Line;
use crate::status::Status;
use crate::status::SIGTRAP;
use crate::sys;
use crate::sys::WaitEvent;
use crate::text::shows;
use crate::word::align_addr_to_word;
use crate::word::byte_of_word;
use crate::word::replace_byte;
use crate::word::TRAP_BYTE;
use nix::errno::Errno;
use nix::sys::wait::WaitPidFlag;
use vstd::prelude::*;
use vstd::string::StringExecFns;

verus! {

/// The name of the function at which a backtrace ends.
pub const ENTRY_FUNCTION: &'static str = "main";

/// Why an operation on the traced process failed.
#[derive(Debug)]
pub enum Error {
    /// The operating system refused a request.
    NixError(Errno),
    /// A wait reported something other than an exit, a kill or a stop by a
    /// signal. The system's tracing interface is not behaving as this
    /// library assumes; the caller should not go on.
    UnexpectedStatus(WaitEvent),
    /// The symbols hold no function or no source line for this program
    /// counter, which a backtrace has reached.
    UnresolvedFrame(usize),
    /// The symbols hold no source line for this program counter, from which
    /// a step to the next line was to start.
    UnresolvedLine(usize),
    /// The frame at this frame base cannot be followed: the base is so high
    /// that no return address can lie above it, or the frame holds a value
    /// that is no address of this machine.
    BrokenFrame(usize),
    /// An operation gave up after the largest number of rounds it can count.
    Exhausted,
}

/// One level of the call stack: the program counter inside a function, the
/// function's name and the source line.
#[derive(Debug)]
pub struct Frame {
    pub pc: usize,
    pub function: String,
    pub line: Line,
}

/// A process under this debugger's control, with the breakpoints armed in it.
pub struct Inferior {
    pid: i32,
    breakpoints: BreakpointTable,
    gone: Option<Status>,
}

/// Whether `error` is one that the system brings about: a request that it
/// refused, or a wait status that its tracing interface should never give.
/// These are the only failures of an operation that does nothing but make
/// requests and wait.
pub open spec fn from_system(error: Error) -> bool {
    error is NixError || error is UnexpectedStatus
}

/// Whether `result` agrees with the end of the process that was on record
/// before the operation: once the process is known to have ended, an
/// operation that succeeds reports that end and nothing else.
pub open spec fn keeps_end(before: Option<Status>, result: Result<Status, Error>) -> bool {
    match (before, result) {
        (Some(end), Ok(status)) => status == end,
        _ => true,
    }
}

/// Whether `error` is a failure that a step to the next line can end in: one
/// from the system, the largest number of single steps used up, or a
/// starting place for which the symbols have no source line.
pub open spec fn fails_stepping(debug_data: &DwarfData, error: Error) -> bool {
    match error {
        Error::UnresolvedLine(pc) => debug_data.line_at(pc) is None,
        Error::Exhausted => true,
        _ => from_system(error),
    }
}

/// Whether `error` is a failure that a walk of the call stack can end in: a
/// read that the system refused, a program counter for which the symbols
/// have no frame, a frame that cannot be followed, or the largest number of
/// frames used up.
pub open spec fn fails_walking(debug_data: &DwarfData, error: Error) -> bool {
    match error {
        Error::NixError(_) => true,
        Error::UnresolvedFrame(pc) => frame_at(debug_data, pc) is None,
        Error::BrokenFrame(_) => true,
        Error::Exhausted => true,
        _ => false,
    }
}

/// The end of the process that is on record after an operation returned
/// `result`, if `before` was on record before it: an exit or a kill that the
/// operation reports is recorded, and nothing else changes the record.
pub open spec fn end_seen(before: Option<Status>, result: Result<Status, Error>) -> Option<Status> {
    match result {
        Ok(status) => if status.is_terminal() {
            Some(status)
        } else {
            before
        },
        Err(_) => before,
    }
}

/// Once an operation has reported that the process has exited or was killed,
/// that status is on record, and it stays on record when it is reported
/// again. Since [`Inferior::kill`] returns the status on record where there
/// is one, a second kill returns what the first returned.
pub proof fn lemma_end_stays_on_record(before: Option<Status>, status: Status)
    requires
        status.is_terminal(),
    ensures
        end_seen(before, Ok(status)) == Some(status),
        end_seen(end_seen(before, Ok(status)), Ok(status)) == Some(status),
{
}

/// A word read from a frame at `base`, taken as an address. Fails with
/// `BrokenFrame(base)` if the word does not fit an address of this machine.
fn address_of(word: u64, base: usize) -> (result: Result<usize, Error>)
    ensures
        if word <= usize::MAX {
            result == Ok::<usize, Error>(word as usize)
        } else {
            result == Err::<usize, Error>(Error::BrokenFrame(base))
        },
{
    if word <= usize::MAX as u64 {
        Ok(word as usize)
    } else {
        Err(Error::BrokenFrame(base))
    }
}

/// Turns the system's error code into this library's error.
fn checked<T>(answer: Result<T, Errno>) -> (result: Result<T, Error>)
    ensures
        match answer {
            Ok(value) => result == Ok::<T, Error>(value),
            Err(errno) => result == Err::<T, Error>(Error::NixError(errno)),
        },
{
    match answer {
        Ok(value) => Ok(value),
        Err(errno) => Err(Error::NixError(errno)),
    }
}

/// Whether the first wait for a new process shows that the launch has
/// succeeded: the process has stopped at a trap. Anything else, a failed
/// wait included, means that the launch has failed.
pub fn launch_succeeded(first: &Result<Status, Error>) -> (succeeded: bool)
    ensures
        succeeded == (*first matches Ok(status) && status.is_trap()),
{
    match first {
        Ok(status) => status.is_trap(),
        Err(_) => false,
    }
}

/// The frame that the symbols give for `pc`, if they know both its function
/// and its source line.
pub open spec fn frame_at(debug_data: &DwarfData, pc: usize) -> Option<Frame> {
    match (debug_data.function_name_at(pc), debug_data.line_at(pc)) {
        (Some(function), Some(line)) => Some(Frame { pc, function, line }),
        _ => None,
    }
}

/// Looks up the frame for `pc`. Fails with `UnresolvedFrame(pc)` exactly when
/// the symbols lack the function or the line.
pub fn resolve_frame(debug_data: &DwarfData, pc: usize) -> (result: Result<Frame, Error>)
    ensures
        match frame_at(debug_data, pc) {
            Some(frame) => result == Ok::<Frame, Error>(frame),
            None => result == Err::<Frame, Error>(Error::UnresolvedFrame(pc)),
        },
{
    let line = debug_data.get_line_from_addr(pc);
    let function = debug_data.get_function_from_addr(pc);
    match (function, line) {
        (Some(function), Some(line)) => Ok(Frame { pc, function, line }),
        _ => Err(Error::UnresolvedFrame(pc)),
    }
}

/// Whether a stepping by source lines has to go on after `status`: the
/// process stopped at a trap, and the place where it stands has no known
/// source line or is still on the line `start`.
pub open spec fn stays_on_line(debug_data: &DwarfData, start: &Line, status: Status) -> bool {
    match status {
        Status::Stopped(signal, pc) => signal == SIGTRAP && match debug_data.line_at(pc) {
            Some(line) => line.same_source_line(start),
            None => true,
        },
        _ => false,
    }
}

/// Decides whether a stepping by source lines has to go on after `status`.
pub fn still_on_line(debug_data: &DwarfData, start: &Line, status: &Status) -> (stays: bool)
    ensures
        stays == stays_on_line(debug_data, start, *status),
{
    match status {
        Status::Stopped(signal, pc) => {
            if *signal != SIGTRAP {
                return false;
            }
            match debug_data.get_line_from_addr(*pc) {
                Some(line) => line.same_source_line(start),
                None => true,
            }
        },
        _ => false,
    }
}

/// Whether `frames` is a finished backtrace: at least one frame, each one
/// what the symbols give for its program counter, and the entry function in
/// the last frame and in no other.
pub open spec fn is_backtrace(debug_data: &DwarfData, frames: Seq<Frame>) -> bool {
    &&& frames.len() >= 1
    &&& forall|i: int|
        0 <= i < frames.len() ==> frame_at(debug_data, #[trigger] frames[i].pc) == Some(frames[i])
    &&& forall|i: int|
        0 <= i < frames.len() ==> ((#[trigger] frames[i]).is_entry() <==> i == frames.len() - 1)
}

/// Whether `frames` is the start of a backtrace that has not yet reached the
/// entry function.
pub open spec fn is_partial_backtrace(debug_data: &DwarfData, frames: Seq<Frame>) -> bool {
    &&& forall|i: int|
        0 <= i < frames.len() ==> frame_at(debug_data, #[trigger] frames[i].pc) == Some(frames[i])
    &&& forall|i: int| 0 <= i < frames.len() ==> !(#[trigger] frames[i]).is_entry()
}

/// Whether `frames` and `end` are what a walk of the call stack may come to:
/// a finished backtrace if the walk has succeeded, else the start of a
/// backtrace, short of the entry function, with a failure that a walk can
/// end in.
pub open spec fn traced(
    debug_data: &DwarfData,
    frames: Seq<Frame>,
    end: Result<(), Error>,
) -> bool {
    match end {
        Ok(()) => is_backtrace(debug_data, frames),
        Err(error) => is_partial_backtrace(debug_data, frames) && fails_walking(
            debug_data,
            error,
        ),
    }
}

/// Adds the frame for `pc` to a backtrace that has not yet reached the entry
/// function, and says whether it is finished now: whether the new frame is
/// the entry function's. Fails with `UnresolvedFrame(pc)`, leaving `frames`
/// as they were, exactly when the symbols do not know `pc`.
pub fn push_frame(frames: &mut Vec<Frame>, debug_data: &DwarfData, pc: usize) -> (result: Result<
    bool,
    Error,
>)
    requires
        is_partial_backtrace(debug_data, old(frames)@),
    ensures
        match frame_at(debug_data, pc) {
            Some(frame) => {
                &&& result == Ok::<bool, Error>(frame.is_entry())
                &&& final(frames)@ == old(frames)@.push(frame)
                &&& if frame.is_entry() {
                    is_backtrace(debug_data, final(frames)@)
                } else {
                    is_partial_backtrace(debug_data, final(frames)@)
                }
            },
            None => {
                &&& result == Err::<bool, Error>(Error::UnresolvedFrame(pc))
                &&& final(frames)@ == old(frames)@
            },
        },
{
    let frame = resolve_frame(debug_data, pc)?;
    let finished = frame.is_entry();
    frames.push(frame);
    Ok(finished)
}

/// The addresses at which the frame with frame base `base` keeps its caller's
/// frame base and its return address: `base` itself and one word above it.
/// Fails with `BrokenFrame(base)` exactly when the word above would lie past
/// the end of the address space.
pub fn caller_slots(base: usize) -> (slots: Result<(usize, usize), Error>)
    ensures
        slots == if base + 8 <= usize::MAX {
            Ok::<(usize, usize), Error>((base, (base + 8) as usize))
        } else {
            Err::<(usize, usize), Error>(Error::BrokenFrame(base))
        },
{
    match base.checked_add(crate::word::WORD_BYTES) {
        Some(above) => Ok((base, above)),
        None => Err(Error::BrokenFrame(base)),
    }
}

/// The source line from which a step to the next line starts when the
/// process stands at `pc`. Fails with `UnresolvedLine(pc)` exactly when the
/// symbols have no line for `pc`.
pub fn starting_line(debug_data: &DwarfData, pc: usize) -> (result: Result<Line, Error>)
    ensures
        match debug_data.line_at(pc) {
            Some(line) => result == Ok::<Line, Error>(line),
            None => result == Err::<Line, Error>(Error::UnresolvedLine(pc)),
        },
{
    match debug_data.get_line_from_addr(pc) {
        Some(line) => Ok(line),
        None => Err(Error::UnresolvedLine(pc)),
    }
}

impl Frame {
    /// Whether this frame belongs to the program's entry function, where a
    /// backtrace ends.
    pub open spec fn spec_is_entry(&self) -> bool {
        self.function@ == ENTRY_FUNCTION@
    }

    #[verifier::when_used_as_spec(spec_is_entry)]
    pub fn is_entry(&self) -> (entry: bool)
        ensures
            entry == self.spec_is_entry(),
    {
        crate::dwarf_data::same_text(self.function.as_str(), ENTRY_FUNCTION)
    }

    /// Whether `text` is the line that tells this frame to the user:
    /// `FUNCTION (FILE:LINE)`.
    pub open spec fn told_by(&self, text: Seq<char>) -> bool {
        exists|number: Seq<char>| #[trigger]
            shows(self.line.number, number) && text == self.function@ + " ("@ + self.line.file@
                + ":"@ + number + ")"@
    }

    /// The line that tells this frame to the user; see [`Frame::told_by`].
    pub fn to_string(&self) -> (text: String)
        ensures
            self.told_by(text@),
    {
        let number = self.line.number.to_string();
        let text = self.function.clone().concat(" (").concat(self.line.file.as_str()).concat(
            ":",
        ).concat(number.as_str()).concat(")");
        assert(shows(self.line.number, number@));
        text
    }
}

impl Inferior {
    /// The process id.
    pub closed spec fn spec_pid(&self) -> i32 {
        self.pid
    }

    /// The armed breakpoints: each address with the original byte saved for
    /// it.
    pub closed spec fn breakpoints(&self) -> Map<usize, u8> {
        self.breakpoints@
    }

    /// The status with which the process ended, once that was observed.
    pub closed spec fn ended(&self) -> Option<Status> {
        self.gone
    }

    /// What holds of every value of this type: the process id names one
    /// process, and a recorded end is an exit or a kill.
    pub closed spec fn wf(&self) -> bool {
        &&& self.pid > 0
        &&& self.gone matches Some(status) ==> status.is_terminal()
    }

    /// Takes charge of the process `pid`, which must have been started with
    /// tracing requested, so that it stops with a trap before its first
    /// instruction. Waits for that stop and then arms a breakpoint at each of
    /// `breakpoints`, once for an address that is listed twice. Returns
    /// `None` if `pid` is not positive or if the launch has failed, as
    /// [`launch_succeeded`] tells from the first wait.
    pub fn new(pid: i32, breakpoints: &Vec<usize>) -> (started: Option<Inferior>)
        ensures
            pid <= 0 ==> started is None,
            started matches Some(inferior) ==> {
                &&& inferior.wf()
                &&& inferior.spec_pid() == pid
                &&& inferior.ended() is None
                &&& forall|addr: usize| #[trigger]
                    inferior.breakpoints().contains_key(addr) ==> breakpoints@.contains(addr)
            },
    {
        let mut me = Inferior::adopt(pid)?;
        let first = me.wait(None);
        me.arm_after_launch(&first, breakpoints)
    }

    /// Finishes a launch, `first` being what the first wait for the process
    /// has returned. If the launch has succeeded, as [`launch_succeeded`]
    /// tells, a breakpoint is armed at each of `breakpoints` that is not
    /// armed yet, and the process is returned; which of these armings the
    /// system lets succeed does not matter for that. If the launch has
    /// failed, nothing is touched and `None` is returned.
    pub fn arm_after_launch(
        self,
        first: &Result<Status, Error>,
        breakpoints: &Vec<usize>,
    ) -> (started: Option<Inferior>)
        ensures
            started is Some == (*first matches Ok(status) && status.is_trap()),
            started matches Some(inferior) ==> {
                &&& inferior.wf() == self.wf()
                &&& inferior.spec_pid() == self.spec_pid()
                &&& inferior.ended() == self.ended()
                &&& self.breakpoints().submap_of(inferior.breakpoints())
                &&& forall|addr: usize| #[trigger]
                    inferior.breakpoints().contains_key(addr) ==> self.breakpoints().contains_key(
                        addr,
                    ) || breakpoints@.contains(addr)
            },
    {
        if !launch_succeeded(first) {
            return None;
        }
        let mut me = self;
        let mut i: usize = 0;
        while i < breakpoints.len()
            invariant
                i <= breakpoints.len(),
                me.wf() == self.wf(),
                me.spec_pid() == self.spec_pid(),
                me.ended() == self.ended(),
                self.breakpoints().submap_of(me.breakpoints()),
                forall|addr: usize| #[trigger]
                    me.breakpoints().contains_key(addr) ==> self.breakpoints().contains_key(addr)
                        || breakpoints@.contains(addr),
            decreases breakpoints.len() - i,
        {
            if !me.has_breakpoint(breakpoints[i]) {
                me.set_breakpoint(breakpoints[i]);
            }
            i += 1;
        }
        Some(me)
    }

    /// Takes charge of the process `pid` without waiting for anything: for a
    /// process that already stands stopped under this debugger's trace. No
    /// breakpoint is armed. Returns `None` if `pid` is not positive.
    pub fn adopt(pid: i32) -> (adopted: Option<Inferior>)
        ensures
            pid <= 0 ==> adopted is None,
            pid > 0 ==> (adopted matches Some(inferior) && {
                &&& inferior.wf()
                &&& inferior.spec_pid() == pid
                &&& inferior.ended() is None
                &&& inferior.breakpoints() == Map::<usize, u8>::empty()
            }),
    {
        if pid <= 0 {
            None
        } else {
            Some(Inferior { pid, breakpoints: BreakpointTable::new(), gone: None })
        }
    }

    /// Returns the pid of this inferior.
    pub fn pid(&self) -> (pid: i32)
        ensures
            pid == self.spec_pid(),
    {
        self.pid
    }

    /// Whether a breakpoint is armed at `addr`.
    pub fn has_breakpoint(&self, addr: usize) -> (armed: bool)
        ensures
            armed == self.breakpoints().contains_key(addr),
    {
        self.breakpoints.contains(addr)
    }

    /// The status with which the process ended, if that was observed.
    pub fn terminal_status(&self) -> (status: Option<Status>)
        ensures
            status == self.ended(),
    {
        self.gone
    }

    /// Writes `val` to the byte at `addr` in the process's memory and returns
    /// the byte that was there: reads the word that contains `addr`, replaces
    /// the one byte in it (see [`replace_byte`]) and writes the word back.
    /// Fails if the read or the write is refused, and in no other way.
    pub fn write_byte(&self, addr: usize, val: u8) -> (result: Result<u8, Error>)
        ensures
            result matches Err(error) ==> error is NixError,
    {
        let aligned_addr = align_addr_to_word(addr);
        let word = checked(sys::peek_word(self.pid, aligned_addr))?;
        let orig_byte = byte_of_word(word, addr);
        let updated_word = replace_byte(word, addr, val);
        checked(sys::poke_word(self.pid, aligned_addr, updated_word))?;
        Ok(orig_byte)
    }

    /// Arms a breakpoint at `addr`: writes the trap byte there and, if that
    /// succeeds, records the byte it displaced. If the write fails nothing is
    /// recorded. Nothing checks whether the address is armed already: a
    /// second arming saves the byte that it finds, which is the trap byte, in
    /// place of the original one. Callers should not arm an address twice.
    pub fn set_breakpoint(&mut self, addr: usize)
        ensures
            final(self).wf() == old(self).wf(),
            final(self).spec_pid() == old(self).spec_pid(),
            final(self).ended() == old(self).ended(),
            final(self).breakpoints() == old(self).breakpoints() || exists|orig_byte: u8|
                final(self).breakpoints() == old(self).breakpoints().insert(addr, orig_byte),
    {
        let written = self.write_byte(addr, TRAP_BYTE);
        self.record_arming(addr, written);
    }

    /// Takes note of how the writing of the trap byte to `addr` went, `written`
    /// being what [`Inferior::write_byte`] returned: after a success the
    /// address is armed, with the byte that the write displaced as its
    /// original byte, whatever was saved for the address before; after a
    /// failure nothing changes.
    pub fn record_arming(&mut self, addr: usize, written: Result<u8, Error>)
        ensures
            final(self).wf() == old(self).wf(),
            final(self).spec_pid() == old(self).spec_pid(),
            final(self).ended() == old(self).ended(),
            final(self).breakpoints() == match written {
                Ok(orig_byte) => old(self).breakpoints().insert(addr, orig_byte),
                Err(_) => old(self).breakpoints(),
            },
    {
        if let Ok(orig_byte) = written {
            self.breakpoints.record(addr, orig_byte);
        }
    }

    /// Takes note of what a wait has reported of the process, `pc` being the
    /// program counter read after a stop. An exit, a kill and a stop by a
    /// signal are classified as [`Status::of_event`] says, and an exit or a
    /// kill is put on record as the end of the process. Anything else is the
    /// error `UnexpectedStatus`. Once the end of the process is on record,
    /// that status is returned whatever `event` may be.
    pub fn observe(&mut self, event: WaitEvent, pc: usize) -> (result: Result<Status, Error>)
        requires
            old(self).wf(),
        ensures
            final(self).wf(),
            final(self).spec_pid() == old(self).spec_pid(),
            final(self).breakpoints() == old(self).breakpoints(),
            result == match old(self).ended() {
                Some(status) => Ok::<Status, Error>(status),
                None => match Status::of_event(event, pc) {
                    Some(status) => Ok::<Status, Error>(status),
                    None => Err::<Status, Error>(Error::UnexpectedStatus(event)),
                },
            },
            final(self).ended() == end_seen(old(self).ended(), result),
    {
        if let Some(status) = self.gone {
            return Ok(status);
        }
        match Status::from_event(event, pc) {
            Some(status) => {
                if status.is_terminal() {
                    self.gone = Some(status);
                }
                Ok(status)
            },
            None => Err(Error::UnexpectedStatus(event)),
        }
    }

    /// Waits for the process to change state and classifies the result as
    /// [`Inferior::observe`] describes, with the program counter read from
    /// the registers after a stop. Once the process has been seen to end,
    /// that status is returned again without asking the system.
    pub fn wait(&mut self, options: Option<WaitPidFlag>) -> (result: Result<Status, Error>)
        requires
            old(self).wf(),
        ensures
            final(self).wf(),
            final(self).spec_pid() == old(self).spec_pid(),
            final(self).breakpoints() == old(self).breakpoints(),
            old(self).ended() matches Some(status) ==> result == Ok::<Status, Error>(status),
            final(self).ended() == end_seen(old(self).ended(), result),
            result matches Err(error) ==> from_system(error),
    {
        if let Some(status) = self.gone {
            return Ok(status);
        }
        let event = checked(sys::wait_for(self.pid, options))?;
        let pc = match event {
            WaitEvent::Stopped(_) => {
                let regs = checked(sys::read_registers(self.pid))?;
                sys::program_counter_of(&regs)
            },
            _ => 0,
        };
        self.observe(event, pc)
    }

    /// Corrects the raw status of a stop. If the process stopped at a trap
    /// one byte past an armed breakpoint, it has executed the breakpoint's
    /// trap byte: the original byte is put back, the program counter is moved
    /// back onto the breakpoint's address, and the stop is reported there.
    /// Any other status is returned as it is, and then nothing can fail.
    pub fn settle(&self, raw: Status) -> (result: Result<Status, Error>)
        ensures
            hit_by(self.breakpoints(), raw) is None ==> result == Ok::<Status, Error>(raw),
            result matches Ok(status) ==> status == reported(self.breakpoints(), raw),
            result matches Err(error) ==> error is NixError,
    {
        match self.breakpoints.landing(&raw) {
            Some(breakpoint) => {
                self.write_byte(breakpoint.addr, breakpoint.orig_byte)?;
                let regs = checked(sys::read_registers(self.pid))?;
                let moved = sys::with_program_counter(regs, breakpoint.addr);
                checked(sys::write_registers(self.pid, moved))?;
                Ok(self.breakpoints.report(raw))
            },
            None => Ok(raw),
        }
    }

    /// Ends a step over a breakpoint: if the step ended in a stop at a trap,
    /// the trap byte is written back to `addr`. Returns `status` itself; any
    /// other status is returned without touching the process, and then
    /// nothing can fail.
    pub fn rearm(&self, addr: usize, status: Status) -> (result: Result<Status, Error>)
        ensures
            !status.is_trap() ==> result == Ok::<Status, Error>(status),
            result matches Ok(returned) ==> returned == status,
            result matches Err(error) ==> error is NixError,
    {
        if status.is_trap() {
            self.write_byte(addr, TRAP_BYTE)?;
        }
        Ok(status)
    }

    /// Lets the process execute the instruction that `breakpoint` displaced:
    /// puts the original byte back, executes one instruction, waits, and
    /// arms the breakpoint again if the process stopped at a trap.
    fn step_over(&mut self, breakpoint: Breakpoint) -> (result: Result<Status, Error>)
        requires
            old(self).wf(),
        ensures
            final(self).wf(),
            final(self).spec_pid() == old(self).spec_pid(),
            final(self).breakpoints() == old(self).breakpoints(),
            final(self).ended() == end_seen(old(self).ended(), result),
            keeps_end(old(self).ended(), result),
            result matches Err(error) ==> from_system(error),
    {
        self.write_byte(breakpoint.addr, breakpoint.orig_byte)?;
        checked(sys::request_step(self.pid))?;
        let status = self.wait(None)?;
        self.rearm(breakpoint.addr, status)
    }

    /// Executes one instruction. If the process stands on an armed
    /// breakpoint, the original instruction is executed and the breakpoint is
    /// armed again. Otherwise the status after the step is corrected as
    /// [`Inferior::settle`] describes.
    pub fn step(&mut self) -> (result: Result<Status, Error>)
        requires
            old(self).wf(),
        ensures
            final(self).wf(),
            final(self).spec_pid() == old(self).spec_pid(),
            final(self).breakpoints() == old(self).breakpoints(),
            final(self).ended() == end_seen(old(self).ended(), result),
            keeps_end(old(self).ended(), result),
            result matches Err(error) ==> from_system(error),
    {
        let regs = checked(sys::read_registers(self.pid))?;
        let pc = sys::program_counter_of(&regs);
        match self.breakpoints.get(pc) {
            Some(breakpoint) => self.step_over(breakpoint),
            None => {
                checked(sys::request_step(self.pid))?;
                let raw = self.wait(None)?;
                self.settle(raw)
            },
        }
    }

    /// Resumes the process until it stops or ends. If it stands on an armed
    /// breakpoint, that one is stepped over first; a step that does not end
    /// in a stop at a trap is reported at once. The status after the run is
    /// corrected as [`Inferior::settle`] describes, so that a stop at a
    /// breakpoint is never reported one byte past it.
    pub fn continuee(&mut self) -> (result: Result<Status, Error>)
        requires
            old(self).wf(),
        ensures
            final(self).wf(),
            final(self).spec_pid() == old(self).spec_pid(),
            final(self).breakpoints() == old(self).breakpoints(),
            result matches Ok(status) ==> settled(old(self).breakpoints(), status),
            final(self).ended() == end_seen(old(self).ended(), result),
            keeps_end(old(self).ended(), result),
            result matches Err(error) ==> from_system(error),
    {
        let regs = checked(sys::read_registers(self.pid))?;
        let pc = sys::program_counter_of(&regs);
        match self.breakpoints.get(pc) {
            Some(breakpoint) => {
                let stepped = self.step_over(breakpoint)?;
                self.resume_after_step_over(stepped)
            },
            None => self.run_on(),
        }
    }

    /// Goes on with a resumption after the breakpoint on which the process
    /// stood has been stepped over, `stepped` being the status after that
    /// step. A status that is no stop at a trap (the process has ended, or
    /// another signal has stopped it) is returned as it is, and the process
    /// is not touched. After a stop at a trap the process is let run until
    /// it stops or ends, and the status after the run is corrected as
    /// [`Inferior::settle`] describes.
    pub fn resume_after_step_over(&mut self, stepped: Status) -> (result: Result<Status, Error>)
        requires
            old(self).wf(),
        ensures
            final(self).wf(),
            final(self).spec_pid() == old(self).spec_pid(),
            final(self).breakpoints() == old(self).breakpoints(),
            !stepped.is_trap() ==> result == Ok::<Status, Error>(stepped) && final(self).ended()
                == old(self).ended(),
            stepped.is_trap() ==> final(self).ended() == end_seen(old(self).ended(), result)
                && keeps_end(old(self).ended(), result),
            result matches Ok(status) ==> settled(old(self).breakpoints(), status),
            result matches Err(error) ==> from_system(error),
    {
        if !stepped.is_trap() {
            return Ok(stepped);
        }
        self.run_on()
    }

    /// Lets the process run until it stops or ends and corrects the status
    /// after the run as [`Inferior::settle`] describes.
    fn run_on(&mut self) -> (result: Result<Status, Error>)
        requires
            old(self).wf(),
        ensures
            final(self).wf(),
            final(self).spec_pid() == old(self).spec_pid(),
            final(self).breakpoints() == old(self).breakpoints(),
            result matches Ok(status) ==> settled(old(self).breakpoints(), status),
            final(self).ended() == end_seen(old(self).ended(), result),
            keeps_end(old(self).ended(), result),
            result matches Err(error) ==> from_system(error),
    {
        checked(sys::request_continue(self.pid))?;
        let raw = self.wait(None)?;
        self.settle(raw)
    }

    /// Steps until the process leaves the source line `start`: single steps
    /// are repeated while the process stops at a trap at a place that has no
    /// known source line or lies on `start`. A status is returned only when
    /// that is no longer so. Calls into other functions are not stepped
    /// over: their lines count like any others.
    pub fn step_to_new_line(&mut self, debug_data: &DwarfData, start: &Line) -> (result: Result<
        Status,
        Error,
    >)
        requires
            old(self).wf(),
        ensures
            final(self).wf(),
            final(self).spec_pid() == old(self).spec_pid(),
            final(self).breakpoints() == old(self).breakpoints(),
            result matches Ok(status) ==> !stays_on_line(debug_data, start, status),
            final(self).ended() == end_seen(old(self).ended(), result),
            keeps_end(old(self).ended(), result),
            result matches Err(error) ==> from_system(error) || error is Exhausted,
    {
        let mut rounds: u64 = u64::MAX;
        while rounds > 0
            invariant
                self.wf(),
                self.spec_pid() == old(self).spec_pid(),
                self.breakpoints() == old(self).breakpoints(),
                self.ended() == old(self).ended(),
            decreases rounds,
        {
            let status = self.step()?;
            if !still_on_line(debug_data, start, &status) {
                return Ok(status);
            }
            rounds -= 1;
        }
        Err(Error::Exhausted)
    }

    /// Steps to the next source line: finds the line on which the process
    /// stands and steps until it has left it, as
    /// [`Inferior::step_to_new_line`] describes. Fails with `UnresolvedLine`
    /// if the place where the process stands has no known source line.
    pub fn next(&mut self, debug_data: &DwarfData) -> (result: Result<Status, Error>)
        requires
            old(self).wf(),
        ensures
            final(self).wf(),
            final(self).spec_pid() == old(self).spec_pid(),
            final(self).breakpoints() == old(self).breakpoints(),
            result matches Ok(status) ==> exists|pc: usize|
                (#[trigger] debug_data.line_at(pc)) matches Some(start) && !stays_on_line(
                    debug_data,
                    &start,
                    status,
                ),
            final(self).ended() == end_seen(old(self).ended(), result),
            keeps_end(old(self).ended(), result),
            result matches Err(error) ==> fails_stepping(debug_data, error),
    {
        let regs = checked(sys::read_registers(self.pid))?;
        let pc = sys::program_counter_of(&regs);
        self.next_from(debug_data, pc)
    }

    /// Steps to the next source line from the program counter `pc`, at which
    /// the process stands. If the symbols have no source line for `pc`, the
    /// step fails with `UnresolvedLine(pc)` and the process is not touched.
    /// Else the process is stepped until it has left that line, as
    /// [`Inferior::step_to_new_line`] describes.
    pub fn next_from(&mut self, debug_data: &DwarfData, pc: usize) -> (result: Result<
        Status,
        Error,
    >)
        requires
            old(self).wf(),
        ensures
            final(self).wf(),
            final(self).spec_pid() == old(self).spec_pid(),
            final(self).breakpoints() == old(self).breakpoints(),
            final(self).ended() == end_seen(old(self).ended(), result),
            keeps_end(old(self).ended(), result),
            match debug_data.line_at(pc) {
                Some(start) => {
                    &&& result matches Ok(status) ==> !stays_on_line(debug_data, &start, status)
                    &&& result matches Err(error) ==> from_system(error) || error is Exhausted
                },
                None => result == Err::<Status, Error>(Error::UnresolvedLine(pc)),
            },
    {
        let current_line = starting_line(debug_data, pc)?;
        self.step_to_new_line(debug_data, &current_line)
    }

    /// Ends the process: sends it the kill signal and waits for what becomes
    /// of it. If the process was already seen to end, nothing is sent and
    /// the status of that end is returned again.
    pub fn kill(&mut self) -> (result: Result<Status, Error>)
        requires
            old(self).wf(),
        ensures
            final(self).wf(),
            final(self).spec_pid() == old(self).spec_pid(),
            final(self).breakpoints() == old(self).breakpoints(),
            old(self).ended() matches Some(status) ==> result == Ok::<Status, Error>(status),
            final(self).ended() == end_seen(old(self).ended(), result),
            result matches Err(error) ==> from_system(error),
    {
        if let Some(status) = self.gone {
            return Ok(status);
        }
        checked(sys::send_kill(self.pid))?;
        self.wait(None)
    }

    /// Walks the call stack from the place where the process stands: reports
    /// the frame of the current program counter, then follows the saved frame
    /// bases as [`Inferior::walk`] describes, until it has reported the entry
    /// function's frame. The program must keep frame bases in the
    /// conventional way; nothing checks that it does.
    pub fn print_backtrace(&self, debug_data: &DwarfData) -> (result: Result<Vec<Frame>, Error>)
        ensures
            result matches Ok(frames) ==> is_backtrace(debug_data, frames@),
            result matches Err(error) ==> fails_walking(debug_data, error),
    {
        let regs = checked(sys::read_registers(self.pid))?;
        let pc = sys::program_counter_of(&regs);
        let base = sys::frame_base_of(&regs);
        self.walk(debug_data, pc, base)
    }

    /// Walks the call stack from the program counter `pc` and the frame base
    /// `base`, which are those of the innermost frame, as
    /// [`Inferior::trace_from`] describes, and returns the backtrace if the
    /// walk has reached the entry function. A walk that fails returns its
    /// error alone.
    pub fn walk(&self, debug_data: &DwarfData, pc: usize, base: usize) -> (result: Result<
        Vec<Frame>,
        Error,
    >)
        ensures
            match frame_at(debug_data, pc) {
                None => result == Err::<Vec<Frame>, Error>(Error::UnresolvedFrame(pc)),
                Some(frame) => if frame.is_entry() {
                    result matches Ok(frames) && frames@ == seq![frame]
                } else if base + 8 > usize::MAX {
                    result == Err::<Vec<Frame>, Error>(Error::BrokenFrame(base))
                } else {
                    true
                },
            },
            result matches Ok(frames) ==> is_backtrace(debug_data, frames@) && frames@[0].pc == pc,
            result matches Err(error) ==> fails_walking(debug_data, error),
    {
        let (frames, end) = self.trace_from(debug_data, pc, base);
        match end {
            Ok(()) => Ok(frames),
            Err(error) => Err(error),
        }
    }

    /// Walks the call stack from the place where the process stands, as
    /// [`Inferior::trace_from`] describes, and returns the frames that it has
    /// found together with the way the walk ended. If the registers cannot
    /// be read, no frame is found.
    pub fn trace(&self, debug_data: &DwarfData) -> (found: (Vec<Frame>, Result<(), Error>))
        ensures
            traced(debug_data, found.0@, found.1),
    {
        match checked(sys::read_registers(self.pid)) {
            Ok(regs) => {
                let pc = sys::program_counter_of(&regs);
                let base = sys::frame_base_of(&regs);
                self.trace_from(debug_data, pc, base)
            },
            Err(error) => (Vec::new(), Err(error)),
        }
    }

    /// Walks the call stack from the program counter `pc` and the frame base
    /// `base`, which are those of the innermost frame, and returns the
    /// frames that it has found, innermost first, together with the way the
    /// walk ended. The frame of `pc` comes first. If it is the entry
    /// function's, the walk is done, and nothing is read from the process.
    /// Otherwise the caller's return address is read one word above the
    /// frame base and the caller's own frame base at it, and the walk goes
    /// on from these. The walk fails with `UnresolvedFrame` at the first
    /// program counter that the symbols do not know, and with `BrokenFrame`
    /// at a frame base that no return address can lie above; the frames
    /// found before that are returned all the same.
    pub fn trace_from(&self, debug_data: &DwarfData, pc: usize, base: usize) -> (found: (
        Vec<Frame>,
        Result<(), Error>,
    ))
        ensures
            traced(debug_data, found.0@, found.1),
            match frame_at(debug_data, pc) {
                None => found.0@ == Seq::<Frame>::empty() && found.1 == Err::<(), Error>(
                    Error::UnresolvedFrame(pc),
                ),
                Some(frame) => found.0@.len() >= 1 && found.0@[0] == frame && if frame.is_entry() {
                    found.0@ == seq![frame] && found.1 is Ok
                } else if base + 8 > usize::MAX {
                    found.0@ == seq![frame] && found.1 == Err::<(), Error>(
                        Error::BrokenFrame(base),
                    )
                } else {
                    true
                },
            },
    {
        let mut frames: Vec<Frame> = Vec::new();
        let mut at = pc;
        let mut frame_base = base;
        let mut rounds: u64 = u64::MAX;
        while rounds > 0
            invariant
                is_partial_backtrace(debug_data, frames@),
                frames@.len() == 0 ==> at == pc && frame_base == base && rounds == u64::MAX,
                frames@.len() > 0 ==> frame_at(debug_data, pc) == Some(frames@[0]) && base + 8
                    <= usize::MAX,
            decreases rounds,
        {
            let ghost first = frames@.len() == 0;
            match push_frame(&mut frames, debug_data, at) {
                Ok(finished) => {
                    proof {
                        if first {
                            assert(frames@ =~= seq![frame_at(debug_data, pc).unwrap()]);
                        }
                    }
                    if finished {
                        return (frames, Ok(()));
                    }
                },
                Err(error) => {
                    return (frames, Err(error));
                },
            }
            let (saved_base, return_address) = match caller_slots(frame_base) {
                Ok(slots) => slots,
                Err(error) => {
                    return (frames, Err(error));
                },
            };
            at = match checked(sys::peek_word(self.pid, return_address)) {
                Ok(word) => match address_of(word, frame_base) {
                    Ok(address) => address,
                    Err(error) => {
                        return (frames, Err(error));
                    },
                },
                Err(error) => {
                    return (frames, Err(error));
                },
            };
            frame_base = match checked(sys::peek_word(self.pid, saved_base)) {
                Ok(word) => match address_of(word, frame_base) {
                    Ok(address) => address,
                    Err(error) => {
                        return (frames, Err(error));
                    },
                },
                Err(error) => {
                    return (frames, Err(error));
                },
            };
            rounds -= 1;
        }
        (frames, Err(Error::Exhausted))
    }
}

} // verus!
