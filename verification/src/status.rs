//! The state in which a wait left the traced process.

use crate::sys::signal_name;
use crate::sys::signal_name_of;
use crate::sys::WaitEvent;
use crate::text::shows;
use vstd::prelude::*;
use vstd::string::StringExecFns;
use vstd::std_specs::cmp::PartialEqSpecImpl;

verus! {

/// The number of the trap signal, which a breakpoint and a single step raise.
pub const SIGTRAP: i32 = 5;

/// What the traced process did last.
#[derive(Clone, Copy, Debug)]
pub enum Status {
    /// The process stopped. Holds the number of the signal that stopped it
    /// and the program counter at which it stands.
    Stopped(i32, usize),
    /// The process exited normally. Holds its exit code.
    Exited(i32),
    /// The process was killed by a signal. Holds the signal's number.
    Signaled(i32),
}

/// Whether `text` names the signal with the number `signal`: by the signal's
/// name where it has one, else by the number written out.
pub open spec fn names_signal(signal: i32, text: Seq<char>) -> bool {
    match signal_name_of(signal) {
        Some(name) => text == name,
        None => shows(signal, text),
    }
}

/// The text that names the signal with the number `signal`.
fn signal_text(signal: i32) -> (text: String)
    ensures
        names_signal(signal, text@),
{
    match signal_name(signal) {
        Some(name) => name,
        None => signal.to_string(),
    }
}

impl Status {
    /// Whether `text` is the line that tells this status to the user: for a
    /// stop `Child stopped (signal NAME)`, for an exit
    /// `Child exited (status = CODE)`, for a kill
    /// `Child signaled (signal NAME)`.
    pub open spec fn told_by(&self, text: Seq<char>) -> bool {
        match *self {
            Status::Stopped(signal, _) => exists|name: Seq<char>| #[trigger]
                names_signal(signal, name) && text == "Child stopped (signal "@ + name + ")"@,
            Status::Exited(code) => exists|shown: Seq<char>| #[trigger]
                shows(code, shown) && text == "Child exited (status = "@ + shown + ")"@,
            Status::Signaled(signal) => exists|name: Seq<char>| #[trigger]
                names_signal(signal, name) && text == "Child signaled (signal "@ + name + ")"@,
        }
    }

    /// The line that tells this status to the user; see [`Status::told_by`].
    pub fn to_string(&self) -> (text: String)
        ensures
            self.told_by(text@),
    {
        match self {
            Status::Stopped(signal, _) => {
                let name = signal_text(*signal);
                let text = String::from_str("Child stopped (signal ").concat(
                    name.as_str(),
                ).concat(")");
                assert(names_signal(*signal, name@));
                text
            },
            Status::Exited(code) => {
                let shown = code.to_string();
                let text = String::from_str("Child exited (status = ").concat(
                    shown.as_str(),
                ).concat(")");
                assert(shows(*code, shown@));
                text
            },
            Status::Signaled(signal) => {
                let name = signal_text(*signal);
                let text = String::from_str("Child signaled (signal ").concat(
                    name.as_str(),
                ).concat(")");
                assert(names_signal(*signal, name@));
                text
            },
        }
    }

    /// Whether this is a stop by the trap signal.
    pub open spec fn spec_is_trap(&self) -> bool {
        *self matches Status::Stopped(signal, _) && signal == SIGTRAP
    }

    /// Whether the process is gone: it exited or was killed.
    pub open spec fn spec_is_terminal(&self) -> bool {
        *self is Exited || *self is Signaled
    }

    /// Whether two statuses are of the same kind with the same signal or
    /// exit code. The program counter of a stop is not compared.
    pub open spec fn same_kind(self, other: Status) -> bool {
        match (self, other) {
            (Status::Stopped(a, _), Status::Stopped(b, _)) => a == b,
            (Status::Exited(a), Status::Exited(b)) => a == b,
            (Status::Signaled(a), Status::Signaled(b)) => a == b,
            _ => false,
        }
    }

    /// The status that a wait event stands for, where `pc` is the program
    /// counter read after a stop. Events other than exit, kill and stop by a
    /// signal have none.
    pub open spec fn of_event(event: WaitEvent, pc: usize) -> Option<Status> {
        match event {
            WaitEvent::Exited(code) => Some(Status::Exited(code)),
            WaitEvent::Signaled(signal) => Some(Status::Signaled(signal)),
            WaitEvent::Stopped(signal) => Some(Status::Stopped(signal, pc)),
            _ => None,
        }
    }

    #[verifier::when_used_as_spec(spec_is_trap)]
    pub fn is_trap(&self) -> (trap: bool)
        ensures
            trap == self.spec_is_trap(),
    {
        match self {
            Status::Stopped(signal, _) => *signal == SIGTRAP,
            _ => false,
        }
    }

    #[verifier::when_used_as_spec(spec_is_terminal)]
    pub fn is_terminal(&self) -> (terminal: bool)
        ensures
            terminal == self.spec_is_terminal(),
    {
        match self {
            Status::Stopped(_, _) => false,
            _ => true,
        }
    }

    /// Classifies a wait event; see [`Status::of_event`].
    pub fn from_event(event: WaitEvent, pc: usize) -> (status: Option<Status>)
        ensures
            status == Status::of_event(event, pc),
    {
        match event {
            WaitEvent::Exited(code) => Some(Status::Exited(code)),
            WaitEvent::Signaled(signal) => Some(Status::Signaled(signal)),
            WaitEvent::Stopped(signal) => Some(Status::Stopped(signal, pc)),
            _ => None,
        }
    }
}

impl PartialEq for Status {
    fn eq(&self, other: &Self) -> (equal: bool) {
        match (self, other) {
            (Status::Stopped(a, _), Status::Stopped(b, _)) => *a == *b,
            (Status::Exited(a), Status::Exited(b)) => *a == *b,
            (Status::Signaled(a), Status::Signaled(b)) => *a == *b,
            _ => false,
        }
    }
}

impl PartialEqSpecImpl for Status {
    open spec fn obeys_eq_spec() -> bool {
        true
    }

    open spec fn eq_spec(&self, other: &Self) -> bool {
        self.same_kind(*other)
    }
}

} // verus!
