//! The operating system's tracing primitives, as far as the debugger uses
//! them. Nothing in this module is proved: each function hands one request
//! to the system and returns what came back. What a request does to the
//! traced process is the system's business and is not stated here.

use nix::errno::Errno;
use nix::libc::user_regs_struct;
use nix::sys::ptrace;
use nix::sys::signal::Signal;
use nix::sys::wait::WaitPidFlag;
use nix::sys::wait::WaitStatus;
use nix::unistd::Pid;
use vstd::prelude::*;

verus! {

/// `nix::errno::Errno`, the error code of a failed system call.
#[verifier::external_type_specification]
#[verifier::external_body]
pub struct ExErrno(Errno);

/// `nix::sys::wait::WaitPidFlag`, the option bits of a wait request.
#[verifier::external_type_specification]
#[verifier::external_body]
pub struct ExWaitPidFlag(WaitPidFlag);

/// `libc::user_regs_struct`, a snapshot of the general-purpose registers.
#[verifier::external_type_specification]
#[verifier::external_body]
pub struct ExUserRegs(user_regs_struct);

/// What a wait request reported, with signals as their numbers.
#[derive(Clone, Copy, Debug, PartialEq, Eq, Structural)]
pub enum WaitEvent {
    /// The process exited normally with this code.
    Exited(i32),
    /// The process was killed by this signal.
    Signaled(i32),
    /// The process was stopped by this signal.
    Stopped(i32),
    /// The process stopped at a tracing event that is not a signal stop.
    TraceEvent,
    /// The process stopped at the entry or exit of a system call.
    SyscallStop,
    /// The process was resumed by a continue signal.
    Continued,
    /// Nothing to report yet (only with a non-blocking wait).
    StillAlive,
}

/// Calls `nix::sys::wait::waitpid` for `pid` and returns its answer with the
/// process id dropped and each signal as its number. Which answer comes is
/// up to the system; with no options the call blocks until there is one.
/// (The outside function panics if the system hands it a status word that
/// is none of exited, signaled, stopped and continued; the system's
/// interface has no such word.)
#[verifier::external_body]
pub(crate) fn wait_for(pid: i32, options: Option<WaitPidFlag>) -> Result<WaitEvent, Errno> {
    match nix::sys::wait::waitpid(Pid::from_raw(pid), options) {
        Ok(WaitStatus::Exited(_, code)) => Ok(WaitEvent::Exited(code)),
        Ok(WaitStatus::Signaled(_, signal, _)) => Ok(WaitEvent::Signaled(signal as i32)),
        Ok(WaitStatus::Stopped(_, signal)) => Ok(WaitEvent::Stopped(signal as i32)),
        Ok(WaitStatus::PtraceEvent(_, _, _)) => Ok(WaitEvent::TraceEvent),
        Ok(WaitStatus::PtraceSyscall(_)) => Ok(WaitEvent::SyscallStop),
        Ok(WaitStatus::Continued(_)) => Ok(WaitEvent::Continued),
        Ok(WaitStatus::StillAlive) => Ok(WaitEvent::StillAlive),
        Err(errno) => Err(errno),
    }
}

/// The name of the signal with the number `signal`: what
/// `nix::sys::signal::Signal::as_str` gives for the signal that
/// `Signal::try_from` finds for the number. `None` for a number that is no
/// signal's.
pub uninterp spec fn signal_name_of(signal: i32) -> Option<Seq<char>>;

/// Calls `nix::sys::signal::Signal::try_from` and, for a signal,
/// `Signal::as_str`: the name of the signal with the number `signal`, such
/// as `SIGTRAP`, or `None` if there is no such signal. Both functions look
/// the answer up in fixed tables.
#[verifier::external_body]
pub(crate) fn signal_name(signal: i32) -> (name: Option<String>)
    ensures
        signal_name_of(signal) == match name {
            Some(text) => Some(text@),
            None => None,
        },
{
    match Signal::try_from(signal) {
        Ok(signal) => Some(signal.as_str().to_owned()),
        Err(_) => None,
    }
}

/// Calls `nix::sys::ptrace::getregs`: the registers of the stopped process.
#[verifier::external_body]
pub(crate) fn read_registers(pid: i32) -> Result<user_regs_struct, Errno> {
    ptrace::getregs(Pid::from_raw(pid))
}

/// Calls `nix::sys::ptrace::setregs`: replaces the registers of the stopped
/// process by `regs`.
#[verifier::external_body]
pub(crate) fn write_registers(pid: i32, regs: user_regs_struct) -> Result<(), Errno> {
    ptrace::setregs(Pid::from_raw(pid), regs)
}

/// The program counter (`rip`) held in a register snapshot.
#[verifier::external_body]
pub(crate) fn program_counter_of(regs: &user_regs_struct) -> usize {
    regs.rip as usize
}

/// The frame-base register (`rbp`) held in a register snapshot.
#[verifier::external_body]
pub(crate) fn frame_base_of(regs: &user_regs_struct) -> usize {
    regs.rbp as usize
}

/// The register snapshot `regs` with its program counter (`rip`) set to `pc`.
#[verifier::external_body]
pub(crate) fn with_program_counter(regs: user_regs_struct, pc: usize) -> user_regs_struct {
    let mut changed = regs;
    changed.rip = pc as u64;
    changed
}

/// Calls `nix::sys::ptrace::step` with no signal: lets the stopped process
/// execute one instruction.
#[verifier::external_body]
pub(crate) fn request_step(pid: i32) -> Result<(), Errno> {
    ptrace::step(Pid::from_raw(pid), None)
}

/// Calls `nix::sys::ptrace::cont` with no signal: lets the stopped process
/// run on.
#[verifier::external_body]
pub(crate) fn request_continue(pid: i32) -> Result<(), Errno> {
    ptrace::cont(Pid::from_raw(pid), None)
}

/// Calls `nix::sys::ptrace::read`: the word of the process's memory at
/// `addr`.
#[verifier::external_body]
pub(crate) fn peek_word(pid: i32, addr: usize) -> Result<u64, Errno> {
    match ptrace::read(Pid::from_raw(pid), addr as ptrace::AddressType) {
        Ok(word) => Ok(word as u64),
        Err(errno) => Err(errno),
    }
}

/// Calls `nix::sys::ptrace::write`: stores `word` in the process's memory at
/// `addr`.
#[verifier::external_body]
pub(crate) fn poke_word(pid: i32, addr: usize, word: u64) -> Result<(), Errno> {
    ptrace::write(Pid::from_raw(pid), addr as ptrace::AddressType, word as i64)
}

/// Calls `nix::sys::signal::kill` with the kill signal. The process id must
/// be positive: zero and negative ids address whole groups of processes.
#[verifier::external_body]
pub(crate) fn send_kill(pid: i32) -> Result<(), Errno>
    requires
        pid > 0,
{
    nix::sys::signal::kill(Pid::from_raw(pid), Signal::SIGKILL)
}

} // verus!
