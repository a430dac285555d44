//! Breakpoints and the table that remembers what each one displaced.

use crate::status::Status;
use crate::status::SIGTRAP;
use std::collections::HashMap;
use vstd::prelude::*;

verus! {

broadcast use vstd::std_specs::hash::group_hash_axioms;

/// An armed breakpoint: the address that holds the trap byte, and the byte
/// that stood there before.
#[derive(Clone, Copy, Debug, PartialEq, Eq, Structural)]
pub struct Breakpoint {
    pub addr: usize,
    pub orig_byte: u8,
}

/// The breakpoint whose trap the process has just executed, judging by the
/// raw status of a stop: the process stopped at a trap, one byte past an
/// address that `armed` holds. (The trap instruction is one byte long, so the
/// program counter has moved past it.)
pub open spec fn hit_by(armed: Map<usize, u8>, raw: Status) -> Option<Breakpoint> {
    match raw {
        Status::Stopped(signal, pc) => if signal == SIGTRAP && pc >= 1 && armed.contains_key(
            (pc - 1) as usize,
        ) {
            Some(Breakpoint { addr: (pc - 1) as usize, orig_byte: armed[(pc - 1) as usize] })
        } else {
            None
        },
        _ => None,
    }
}

/// The status to report for the raw status of a stop: a trap that ran into a
/// breakpoint is reported at the breakpoint's own address, every other
/// status as it is.
pub open spec fn reported(armed: Map<usize, u8>, raw: Status) -> Status {
    match hit_by(armed, raw) {
        Some(breakpoint) => Status::Stopped(SIGTRAP, breakpoint.addr),
        None => raw,
    }
}

/// Whether `status` is fit to be reported: it is not the raw status of a run
/// into a breakpoint, or it is a stop at a breakpoint's own address.
pub open spec fn settled(armed: Map<usize, u8>, status: Status) -> bool {
    hit_by(armed, status) is None || (status matches Status::Stopped(signal, pc) && signal
        == SIGTRAP && armed.contains_key(pc))
}

/// A process that stops at a trap right after the trap byte of the
/// breakpoint at `addr` is reported as stopped at `addr` itself, not one
/// byte further.
pub proof fn lemma_stop_is_reported_at_breakpoint(armed: Map<usize, u8>, addr: usize)
    requires
        armed.contains_key(addr),
        addr < usize::MAX,
    ensures
        reported(armed, Status::Stopped(SIGTRAP, (addr + 1) as usize)) == Status::Stopped(
            SIGTRAP,
            addr,
        ),
{
}

/// Whatever the raw status, the status reported for it is fit to be
/// reported, and a status that is no run into a breakpoint is reported
/// unchanged.
pub proof fn lemma_reported_is_settled(armed: Map<usize, u8>, raw: Status)
    ensures
        settled(armed, reported(armed, raw)),
        hit_by(armed, raw) is None ==> reported(armed, raw) == raw,
{
}

/// The breakpoints of one traced process, by address. Its view maps each
/// armed address to the original byte saved for it.
pub struct BreakpointTable {
    saved: HashMap<usize, u8>,
}

impl View for BreakpointTable {
    type V = Map<usize, u8>;

    closed spec fn view(&self) -> Map<usize, u8> {
        self.saved@
    }
}

impl BreakpointTable {
    /// A table with no breakpoint.
    pub fn new() -> (table: BreakpointTable)
        ensures
            table@ == Map::<usize, u8>::empty(),
    {
        BreakpointTable { saved: HashMap::new() }
    }

    /// Records that `addr` is armed and that `orig_byte` is the byte to put
    /// back there. An entry that `addr` already had is replaced.
    pub fn record(&mut self, addr: usize, orig_byte: u8)
        ensures
            final(self)@ == old(self)@.insert(addr, orig_byte),
    {
        self.saved.insert(addr, orig_byte);
    }

    /// Whether `addr` is armed.
    pub fn contains(&self, addr: usize) -> (armed: bool)
        ensures
            armed == self@.contains_key(addr),
    {
        self.saved.contains_key(&addr)
    }

    /// The breakpoint armed at `addr`, if there is one.
    pub fn get(&self, addr: usize) -> (found: Option<Breakpoint>)
        ensures
            found == self.lookup(addr),
    {
        match self.saved.get(&addr) {
            Some(orig_byte) => Some(Breakpoint { addr, orig_byte: *orig_byte }),
            None => None,
        }
    }

    /// The breakpoint that the process has just run into, if `raw` is the
    /// status of such a stop; see [`hit_by`].
    pub fn landing(&self, raw: &Status) -> (hit: Option<Breakpoint>)
        ensures
            hit == hit_by(self@, *raw),
    {
        match raw {
            Status::Stopped(signal, pc) => {
                if *signal == SIGTRAP && *pc >= 1 {
                    self.get(*pc - 1)
                } else {
                    None
                }
            },
            _ => None,
        }
    }

    /// The status to report for the raw status `raw`; see [`reported`].
    pub fn report(&self, raw: Status) -> (status: Status)
        ensures
            status == reported(self@, raw),
    {
        match self.landing(&raw) {
            Some(breakpoint) => Status::Stopped(SIGTRAP, breakpoint.addr),
            None => raw,
        }
    }

    /// The breakpoint that the table holds for `addr`.
    pub open spec fn lookup(&self, addr: usize) -> Option<Breakpoint> {
        if self@.contains_key(addr) {
            Some(Breakpoint { addr, orig_byte: self@[addr] })
        } else {
            None
        }
    }
}

} // verus!
