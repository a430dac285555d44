//! The debugging session: what each command does to the session's state and
//! what it tells the user.
//!
//! The session neither reads commands nor starts programs. Its host does
//! both: it hands each command to [`Debugger::run`], carries out the action
//! that comes back and, after starting the program, reports the new
//! process with [`Event::Launched`].

use crate::debugger_command::address_of_text;
use crate::debugger_command::number_of;
use crate::debugger_command::parse_address;
use crate::debugger_command::parse_decimal;
use crate::debugger_command::DebuggerCommand;
use crate::dwarf_data::DwarfData;
use crate::inferior::frame_at;
use crate::inferior::launch_succeeded;
use crate::inferior::traced;
use crate::inferior::resolve_frame;
use crate::inferior::Error;
use crate::inferior::Frame;
use crate::inferior::Inferior;
use crate::status::Status;
use vstd::prelude::*;
use vstd::string::StrSliceExecFns;

verus! {

/// What the host tells the session.
#[derive(Debug)]
pub enum Event {
    /// The user gave this command.
    Command(DebuggerCommand),
    /// The host tried to start the program with tracing requested, as the
    /// session asked with [`Action::Launch`]: the new process's id, or
    /// `None` if the program could not be started.
    Launched(Option<i32>),
}

/// What the host is to do next.
#[derive(Debug)]
pub enum Action {
    /// Read the next command.
    Prompt,
    /// Start the program with these arguments and tracing requested, then
    /// hand in [`Event::Launched`].
    Launch(Vec<String>),
    /// Show the variable of this name at the place where the process
    /// stands, then read the next command.
    Inspect(String),
    /// End the session.
    Exit,
    /// Abort: the operating system's tracing interface broke a promise that
    /// this library relies on.
    Abort,
}

/// What the session has to tell the user.
#[derive(Debug)]
pub enum Report {
    /// The running process (of this id) was killed.
    Killed(i32),
    /// The running process (of this id) could not be killed.
    KillFailed(i32, Error),
    /// The program could not be started under the debugger.
    LaunchFailed,
    /// The process is in this state; for a stop, the frame in which it
    /// stands, if the symbols know the place.
    Status(Status, Option<Frame>),
    /// The command failed on the process.
    Failed(Error),
    /// The command needs a running process and there is none.
    NotRunning,
    /// The breakpoint of this number is set at this address.
    BreakpointSet(usize, usize),
    /// No address was found for this place.
    BreakpointUnresolved(String),
    /// The call stack, innermost frame first.
    Backtrace(Vec<Frame>),
}

/// The session's answer to one event.
#[derive(Debug)]
pub struct Turn {
    pub reports: Vec<Report>,
    pub next: Action,
}

/// A debugging session on one program.
pub struct Debugger {
    target: String,
    inferior: Option<Inferior>,
    debug_data: DwarfData,
    breakpoints: Vec<usize>,
}

/// The address that the text of a `break` command names: after a `*`, an
/// address in hexadecimal; a decimal number is a source line; anything else
/// is the name of a function.
pub open spec fn place_of(debug_data: &DwarfData, text: Seq<char>) -> Option<usize> {
    if text.len() > 0 && text[0] == '*' {
        address_of_text(text.skip(1))
    } else {
        match number_of(text, 10) {
            Some(line) => debug_data.addr_of_line(None, line),
            None => debug_data.addr_of_function(None, text),
        }
    }
}

/// The frame in which a stopped process stands; none for a process that is
/// gone or a place that the symbols do not know.
pub open spec fn where_stopped(debug_data: &DwarfData, status: Status) -> Option<Frame> {
    match status {
        Status::Stopped(_, pc) => frame_at(debug_data, pc),
        _ => None,
    }
}

/// What is reported of the outcome of an operation on the process.
pub open spec fn report_of(debug_data: &DwarfData, outcome: Result<Status, Error>) -> Report {
    match outcome {
        Ok(status) => Report::Status(status, where_stopped(debug_data, status)),
        Err(error) => Report::Failed(error),
    }
}

/// Whether an outcome shows that the process is gone.
pub open spec fn is_end(outcome: Result<Status, Error>) -> bool {
    outcome matches Ok(status) && status.is_terminal()
}

/// Whether an outcome is one after which the session must not go on.
pub open spec fn is_fatal(outcome: Result<Status, Error>) -> bool {
    outcome matches Err(Error::UnexpectedStatus(_))
}

/// Whether letting go of the session's process has met a failure after
/// which the session must not go on: the kill has failed on a wait status
/// that the system should never give.
pub open spec fn kill_was_fatal(reports: Seq<Report>) -> bool {
    reports.len() == 1 && match reports[0] {
        Report::KillFailed(_, error) => error is UnexpectedStatus,
        _ => false,
    }
}

/// The table of a running process after a breakpoint at `addr` was to be
/// armed in it, `before` being the table before: as it was, if the trap byte
/// could not be written, else with the byte found at `addr` saved for it.
pub open spec fn armed_after(
    before: Option<Map<usize, u8>>,
    addr: usize,
    after: Option<Map<usize, u8>>,
) -> bool {
    match before {
        Some(table) => after == Some(table) || exists|orig_byte: u8|
            after == Some(#[trigger] table.insert(addr, orig_byte)),
        None => after is None,
    }
}

/// What is reported of a walk of the call stack that has found `frames` and
/// has ended in `end`: the frames found, and after them the failure if the
/// walk has failed.
pub open spec fn reports_of_trace(frames: Vec<Frame>, end: Result<(), Error>) -> Seq<Report> {
    match end {
        Ok(()) => seq![Report::Backtrace(frames)],
        Err(error) => seq![Report::Backtrace(frames), Report::Failed(error)],
    }
}

/// Reports a walk of the call stack; see [`reports_of_trace`].
pub fn report_trace(frames: Vec<Frame>, end: Result<(), Error>) -> (reports: Vec<Report>)
    ensures
        reports@ == reports_of_trace(frames, end),
{
    let mut reports: Vec<Report> = Vec::new();
    reports.push(Report::Backtrace(frames));
    match end {
        Ok(()) => {
            assert(reports@ =~= reports_of_trace(frames, end));
        },
        Err(error) => {
            reports.push(Report::Failed(error));
            assert(reports@ =~= reports_of_trace(frames, end));
        },
    }
    reports
}

impl Status {
    /// What there is to print of this status besides the status itself: the
    /// frame in which a stopped process stands; see [`where_stopped`].
    pub fn print(&self, debug_data: &DwarfData) -> (place: Option<Frame>)
        ensures
            place == where_stopped(debug_data, *self),
    {
        match self {
            Status::Stopped(_, pc) => match resolve_frame(debug_data, *pc) {
                Ok(frame) => Some(frame),
                Err(_) => None,
            },
            _ => None,
        }
    }
}

/// The answer to a command that needs a running process when there is none.
fn not_running() -> (turn: Turn)
    ensures
        turn.reports@ == seq![Report::NotRunning],
        turn.next == Action::Prompt,
{
    let mut reports: Vec<Report> = Vec::new();
    reports.push(Report::NotRunning);
    assert(reports@ =~= seq![Report::NotRunning]);
    Turn { reports, next: Action::Prompt }
}

impl Debugger {
    /// Whether a process is running under the session.
    pub open spec fn running(&self) -> bool {
        self.process() is Some
    }

    /// The id of the running process.
    pub closed spec fn process(&self) -> Option<i32> {
        match self.inferior {
            Some(inferior) => Some(inferior.spec_pid()),
            None => None,
        }
    }

    /// The breakpoints armed in the running process: each address with the
    /// byte saved for it.
    pub closed spec fn armed(&self) -> Option<Map<usize, u8>> {
        match self.inferior {
            Some(inferior) => Some(inferior.breakpoints()),
            None => None,
        }
    }

    /// There are armed breakpoints to speak of exactly when a process is
    /// running.
    pub proof fn lemma_armed_when_running(&self)
        ensures
            self.armed() is Some <==> self.running(),
    {
    }

    /// The addresses of the session's breakpoints, in the order in which
    /// they were set; an address that was set twice is listed twice. They
    /// are armed in each process that the session starts.
    pub closed spec fn staged(&self) -> Seq<usize> {
        self.breakpoints@
    }

    /// The program's symbols.
    pub closed spec fn symbols(&self) -> &DwarfData {
        &self.debug_data
    }

    /// The path of the program.
    pub closed spec fn program(&self) -> Seq<char> {
        self.target@
    }

    /// What holds of every session: its process, if it has one, has no
    /// breakpoint that the session does not list.
    pub closed spec fn wf(&self) -> bool {
        self.inferior matches Some(inferior) ==> {
            &&& inferior.wf()
            &&& forall|addr: usize| #[trigger]
                inferior.breakpoints().contains_key(addr) ==> self.breakpoints@.contains(addr)
        }
    }

    /// Whether `other` has the same program, symbols and breakpoints.
    pub open spec fn same_setup(&self, other: &Debugger) -> bool {
        &&& self.program() == other.program()
        &&& self.symbols() == other.symbols()
        &&& self.staged() == other.staged()
    }

    /// A session on the program at `target` with the symbols `debug_data`:
    /// no process, no breakpoint.
    pub fn new(target: &str, debug_data: DwarfData) -> (session: Debugger)
        ensures
            session.wf(),
            !session.running(),
            session.staged() == Seq::<usize>::empty(),
            session.program() == target@,
            *session.symbols() == debug_data,
    {
        Debugger {
            target: target.to_owned(),
            inferior: None,
            debug_data,
            breakpoints: Vec::new(),
        }
    }

    /// The path of the program.
    pub fn target(&self) -> (path: &str)
        ensures
            path@ == self.program(),
    {
        self.target.as_str()
    }

    /// The program's symbols.
    pub fn debug_data(&self) -> (data: &DwarfData)
        ensures
            data == self.symbols(),
    {
        &self.debug_data
    }

    /// Whether a process is running under the session.
    pub fn is_running(&self) -> (running: bool)
        ensures
            running == self.running(),
    {
        self.inferior.is_some()
    }

    /// The process that runs under the session.
    pub fn inferior(&self) -> (process: Option<&Inferior>)
        ensures
            process is Some == self.running(),
            process matches Some(inferior) ==> Some(inferior.spec_pid()) == self.process(),
    {
        self.inferior.as_ref()
    }

    /// The address that the text of a `break` command names; see
    /// [`place_of`].
    pub fn parse_address(&self, text: &str) -> (address: Option<usize>)
        ensures
            address == place_of(self.symbols(), text@),
    {
        let len = text.unicode_len();
        if len > 0 && text.get_char(0) == '*' {
            parse_address(text.substring_char(1, len))
        } else {
            match parse_decimal(text) {
                Some(line_number) => self.debug_data.get_addr_for_line(None, line_number),
                None => self.debug_data.get_addr_for_function(None, text),
            }
        }
    }

    /// Kills the running process, if there is one, and lets go of it either
    /// way. Returns what there is to report of that, and whether the kill
    /// has met a failure after which the session must not go on.
    fn stop_process(&mut self) -> (stopped: (Vec<Report>, bool))
        requires
            old(self).wf(),
        ensures
            final(self).wf(),
            !final(self).running(),
            final(self).same_setup(old(self)),
            killed(old(self).process(), stopped.0@),
            stopped.1 == kill_was_fatal(stopped.0@),
    {
        let mut reports: Vec<Report> = Vec::new();
        let mut fatal = false;
        match self.inferior.take() {
            Some(mut inferior) => {
                let pid = inferior.pid();
                match inferior.kill() {
                    Ok(_) => reports.push(Report::Killed(pid)),
                    Err(error) => {
                        fatal = match error {
                            Error::UnexpectedStatus(_) => true,
                            _ => false,
                        };
                        reports.push(Report::KillFailed(pid, error));
                    },
                }
            },
            None => {},
        }
        (reports, fatal)
    }

    /// Ends an operation on the process: reports its outcome, lets go of a
    /// process that is gone, and tells the host to abort after an outcome
    /// that is fatal, else to read the next command.
    pub fn conclude(&mut self, outcome: Result<Status, Error>) -> (turn: Turn)
        requires
            old(self).wf(),
        ensures
            final(self).wf(),
            final(self).same_setup(old(self)),
            final(self).running() == (old(self).running() && !is_end(outcome)),
            final(self).running() ==> final(self).process() == old(self).process()
                && final(self).armed() == old(self).armed(),
            turn.reports@ == seq![report_of(old(self).symbols(), outcome)],
            turn.next == if is_fatal(outcome) {
                Action::Abort
            } else {
                Action::Prompt
            },
    {
        let mut reports: Vec<Report> = Vec::new();
        let next = match outcome {
            Ok(status) => {
                let place = status.print(&self.debug_data);
                if status.is_terminal() {
                    self.inferior = None;
                }
                reports.push(Report::Status(status, place));
                Action::Prompt
            },
            Err(error) => {
                let fatal = match error {
                    Error::UnexpectedStatus(_) => true,
                    _ => false,
                };
                reports.push(Report::Failed(error));
                if fatal {
                    Action::Abort
                } else {
                    Action::Prompt
                }
            },
        };
        assert(reports@ =~= seq![report_of(old(self).symbols(), outcome)]);
        Turn { reports, next }
    }

    /// Takes `inferior` as the session's process, `outcome` being what its
    /// first run under the debugger has come to, and concludes that run as
    /// [`Debugger::conclude`] describes. The session must have no process,
    /// and `inferior` no breakpoint that the session does not list.
    pub fn attach(&mut self, inferior: Inferior, outcome: Result<Status, Error>) -> (turn: Turn)
        requires
            old(self).wf(),
            !old(self).running(),
            inferior.wf(),
            forall|addr: usize| #[trigger]
                inferior.breakpoints().contains_key(addr) ==> old(self).staged().contains(addr),
        ensures
            final(self).wf(),
            final(self).same_setup(old(self)),
            final(self).running() == !is_end(outcome),
            final(self).running() ==> final(self).process() == Some(inferior.spec_pid())
                && final(self).armed() == Some(inferior.breakpoints()),
            turn.reports@ == seq![report_of(old(self).symbols(), outcome)],
            turn.next == if is_fatal(outcome) {
                Action::Abort
            } else {
                Action::Prompt
            },
    {
        self.inferior = Some(inferior);
        self.conclude(outcome)
    }

    /// Sets a breakpoint at the place that `place` names. A place that has
    /// no address is reported as such and changes nothing. An address is
    /// added to the session's list, whether or not it is listed already, and
    /// gets its place in the list as its number. If a process is running, the
    /// breakpoint is armed in it at once, without a check whether it is
    /// armed already.
    fn set_breakpoint(&mut self, place: String) -> (turn: Turn)
        requires
            old(self).wf(),
        ensures
            final(self).wf(),
            final(self).answers(
                old(self),
                Event::Command(DebuggerCommand::Breakpoint(place)),
                turn,
            ),
    {
        let mut reports: Vec<Report> = Vec::new();
        match self.parse_address(place.as_str()) {
            Some(addr) => {
                let number = self.breakpoints.len();
                self.breakpoints.push(addr);
                proof {
                    assert(self.breakpoints@[number as int] == addr);
                    assert forall|other: usize|
                        old(self).breakpoints@.contains(other) implies self.breakpoints@.contains(
                        other,
                    ) by {
                        let k = old(self).breakpoints@.index_of(other);
                        assert(self.breakpoints@[k] == other);
                    }
                }
                match self.inferior.take() {
                    Some(mut inferior) => {
                        inferior.set_breakpoint(addr);
                        self.inferior = Some(inferior);
                    },
                    None => {},
                }
                reports.push(Report::BreakpointSet(number, addr));
                assert(reports@ =~= seq![Report::BreakpointSet(number, addr)]);
            },
            None => {
                reports.push(Report::BreakpointUnresolved(place));
                assert(reports@ =~= seq![Report::BreakpointUnresolved(place)]);
            },
        }
        Turn { reports, next: Action::Prompt }
    }

    /// Takes charge of a process that the host has started, `first` being
    /// what the first wait for it has returned. If that wait has met a status
    /// that the system should never give, the failure is reported and the
    /// host is told to abort. If the launch has failed otherwise, as
    /// [`launch_succeeded`] tells, that is reported and the session has no
    /// process. If it has succeeded, the session's breakpoints are armed in
    /// the process, the process is let run, and that run is concluded as
    /// [`Debugger::conclude`] describes. The session must have no process,
    /// and `adopted` no breakpoint that the session does not list.
    pub fn take_charge(&mut self, adopted: Inferior, first: Result<Status, Error>) -> (turn: Turn)
        requires
            old(self).wf(),
            !old(self).running(),
            adopted.wf(),
            forall|addr: usize| #[trigger]
                adopted.breakpoints().contains_key(addr) ==> old(self).staged().contains(addr),
        ensures
            final(self).wf(),
            final(self).same_setup(old(self)),
            turn.reports@.len() == 1,
            final(self).charge_taken(
                old(self).symbols(),
                adopted.spec_pid(),
                first,
                turn.reports@[0],
                turn.next,
            ),
    {
        match adopted.arm_after_launch(&first, &self.breakpoints) {
            Some(mut inferior) => {
                let outcome = inferior.continuee();
                let turn = self.attach(inferior, outcome);
                assert(self.ran_first(
                    old(self).symbols(),
                    adopted.spec_pid(),
                    outcome,
                    turn.reports@[0],
                    turn.next,
                ));
                turn
            },
            None => {
                let mut reports: Vec<Report> = Vec::new();
                let next = match first {
                    Err(Error::UnexpectedStatus(event)) => {
                        reports.push(Report::Failed(Error::UnexpectedStatus(event)));
                        Action::Abort
                    },
                    _ => {
                        reports.push(Report::LaunchFailed);
                        Action::Prompt
                    },
                };
                Turn { reports, next }
            },
        }
    }

    /// Answers the host's report of a launch: a process that was still
    /// running under the session is killed first, and the new process, if
    /// there is one, is waited for and taken charge of as
    /// [`Debugger::take_charge`] describes.
    fn launched(&mut self, started: Option<i32>) -> (turn: Turn)
        requires
            old(self).wf(),
        ensures
            final(self).wf(),
            final(self).answers(old(self), Event::Launched(started), turn),
    {
        let (mut reports, fatal) = self.stop_process();
        let ghost let_go = reports@;
        if fatal {
            assert(reports@.take(let_go.len() as int) =~= let_go);
            return Turn { reports, next: Action::Abort };
        }
        let adopted = match started {
            Some(pid) => Inferior::adopt(pid),
            None => None,
        };
        let next = match adopted {
            Some(mut adopted) => {
                let first = adopted.wait(None);
                let mut turn = self.take_charge(adopted, first);
                let ghost last = turn.reports@[0];
                reports.append(&mut turn.reports);
                assert(reports@[let_go.len() as int] == last);
                assert(self.charge_taken(
                    old(self).symbols(),
                    started.unwrap(),
                    first,
                    last,
                    turn.next,
                ));
                turn.next
            },
            None => {
                reports.push(Report::LaunchFailed);
                Action::Prompt
            },
        };
        assert(reports@.take(let_go.len() as int) =~= let_go);
        Turn { reports, next }
    }

    /// Resumes the running process and reports where it stops or how it
    /// ends.
    fn resume(&mut self) -> (turn: Turn)
        requires
            old(self).wf(),
        ensures
            final(self).wf(),
            final(self).same_setup(old(self)),
            !old(self).running() ==> !final(self).running() && turn.reports@ == seq![
                Report::NotRunning,
            ] && turn.next == Action::Prompt,
            old(self).running() ==> exists|outcome: Result<Status, Error>|
                final(self).concluded(old(self), outcome, turn),
    {
        match self.inferior.take() {
            Some(mut inferior) => {
                let outcome = inferior.continuee();
                self.inferior = Some(inferior);
                let turn = self.conclude(outcome);
                assert(self.concluded(old(self), outcome, turn));
                turn
            },
            None => not_running(),
        }
    }

    /// Steps the running process to the next source line and reports where
    /// it stops or how it ends.
    fn step_line(&mut self) -> (turn: Turn)
        requires
            old(self).wf(),
        ensures
            final(self).wf(),
            final(self).same_setup(old(self)),
            !old(self).running() ==> !final(self).running() && turn.reports@ == seq![
                Report::NotRunning,
            ] && turn.next == Action::Prompt,
            old(self).running() ==> exists|outcome: Result<Status, Error>|
                final(self).concluded(old(self), outcome, turn),
    {
        match self.inferior.take() {
            Some(mut inferior) => {
                let outcome = inferior.next(&self.debug_data);
                self.inferior = Some(inferior);
                let turn = self.conclude(outcome);
                assert(self.concluded(old(self), outcome, turn));
                turn
            },
            None => not_running(),
        }
    }

    /// Reports the call stack of the running process: the frames that the
    /// walk has found, and after them the failure if the walk has failed.
    fn backtrace(&self) -> (turn: Turn)
        ensures
            turn.next == Action::Prompt,
            if self.running() {
                self.backtrace_reported(turn.reports@)
            } else {
                turn.reports@ == seq![Report::NotRunning]
            },
    {
        match &self.inferior {
            Some(inferior) => {
                let (frames, end) = inferior.trace(&self.debug_data);
                let reports = report_trace(frames, end);
                Turn { reports, next: Action::Prompt }
            },
            None => not_running(),
        }
    }

    /// Whether `reports` are what there is to report of a walk of the call
    /// stack of the running process: the frames found, which are a finished
    /// backtrace if nothing else is reported and the start of one if the
    /// failure of the walk is reported after them.
    pub open spec fn backtrace_reported(&self, reports: Seq<Report>) -> bool {
        exists|frames: Vec<Frame>, end: Result<(), Error>|
            traced(self.symbols(), frames@, end) && reports == #[trigger] reports_of_trace(
                frames,
                end,
            )
    }

    /// Whether this session, the report `last` and the action `next` are
    /// what becomes of the first run of the process `pid` under the session,
    /// `outcome` being what that run has come to: the outcome is reported;
    /// the session has the process unless the outcome shows that it is gone;
    /// the host is to abort after a fatal outcome, else to read the next
    /// command.
    pub open spec fn ran_first(
        &self,
        symbols: &DwarfData,
        pid: i32,
        outcome: Result<Status, Error>,
        last: Report,
        next: Action,
    ) -> bool {
        &&& self.running() == !is_end(outcome)
        &&& self.running() ==> self.process() == Some(pid)
        &&& last == report_of(symbols, outcome)
        &&& next == if is_fatal(outcome) {
            Action::Abort
        } else {
            Action::Prompt
        }
    }

    /// Whether this session, the report `last` and the action `next` are a
    /// right answer to the launch of the process `pid`, `first` being what
    /// the first wait for it has returned. After a wait status that the
    /// system should never give, that failure is reported and the host is to
    /// abort. After a first stop at a trap the process has been let run, and
    /// that run is answered as [`Debugger::ran_first`] says. After anything
    /// else the launch has failed: the session has no process.
    pub open spec fn charge_taken(
        &self,
        symbols: &DwarfData,
        pid: i32,
        first: Result<Status, Error>,
        last: Report,
        next: Action,
    ) -> bool {
        match first {
            Ok(status) => if status.is_trap() {
                exists|outcome: Result<Status, Error>| #[trigger]
                    self.ran_first(symbols, pid, outcome, last, next)
            } else {
                !self.running() && last == Report::LaunchFailed && next == Action::Prompt
            },
            Err(error) => if error is UnexpectedStatus {
                !self.running() && last == Report::Failed(error) && next == Action::Abort
            } else {
                !self.running() && last == Report::LaunchFailed && next == Action::Prompt
            },
        }
    }

    /// Whether this session and `turn` are what [`Debugger::conclude`] makes
    /// of the session `before` and the outcome `outcome` of an operation on
    /// its process.
    pub open spec fn concluded(
        &self,
        before: &Debugger,
        outcome: Result<Status, Error>,
        turn: Turn,
    ) -> bool {
        &&& self.same_setup(before)
        &&& self.running() == (before.running() && !is_end(outcome))
        &&& self.running() ==> self.process() == before.process() && self.armed()
            == before.armed()
        &&& turn.reports@ == seq![report_of(before.symbols(), outcome)]
        &&& turn.next == if is_fatal(outcome) {
            Action::Abort
        } else {
            Action::Prompt
        }
    }

    /// Whether this session and `turn` are a right answer of the session
    /// `before` to `event`.
    ///
    /// `quit` and `run` let go of the running process, killing it, and then
    /// end the session or ask the host to launch the program. The other
    /// commands but `break` need a running process. `break` adds the address
    /// of its place to the session's list and arms it in the running
    /// process. Wherever a wait has met a status that the system should
    /// never give, the host is told to abort.
    pub open spec fn answers(&self, before: &Debugger, event: Event, turn: Turn) -> bool {
        match event {
            Event::Command(DebuggerCommand::Quit) => {
                &&& self.same_setup(before)
                &&& !self.running()
                &&& killed(before.process(), turn.reports@)
                &&& turn.next == if kill_was_fatal(turn.reports@) {
                    Action::Abort
                } else {
                    Action::Exit
                }
            },
            Event::Command(DebuggerCommand::Run(args)) => {
                &&& self.same_setup(before)
                &&& !self.running()
                &&& killed(before.process(), turn.reports@)
                &&& turn.next == if kill_was_fatal(turn.reports@) {
                    Action::Abort
                } else {
                    Action::Launch(args)
                }
            },
            Event::Command(DebuggerCommand::Continue) | Event::Command(DebuggerCommand::Next) => {
                &&& self.same_setup(before)
                &&& if before.running() {
                    exists|outcome: Result<Status, Error>| self.concluded(before, outcome, turn)
                } else {
                    &&& !self.running()
                    &&& turn.reports@ == seq![Report::NotRunning]
                    &&& turn.next == Action::Prompt
                }
            },
            Event::Command(DebuggerCommand::Backtrace) => {
                &&& self.same_setup(before)
                &&& self.process() == before.process()
                &&& self.armed() == before.armed()
                &&& turn.next == Action::Prompt
                &&& if before.running() {
                    before.backtrace_reported(turn.reports@)
                } else {
                    turn.reports@ == seq![Report::NotRunning]
                }
            },
            Event::Command(DebuggerCommand::Breakpoint(place)) => {
                &&& self.program() == before.program()
                &&& self.symbols() == before.symbols()
                &&& self.process() == before.process()
                &&& turn.next == Action::Prompt
                &&& match place_of(before.symbols(), place@) {
                    Some(addr) => {
                        &&& self.staged() == before.staged().push(addr)
                        &&& turn.reports@ == seq![
                            Report::BreakpointSet(before.staged().len() as usize, addr),
                        ]
                        &&& armed_after(before.armed(), addr, self.armed())
                    },
                    None => {
                        &&& self.staged() == before.staged()
                        &&& self.armed() == before.armed()
                        &&& turn.reports@ == seq![Report::BreakpointUnresolved(place)]
                    },
                }
            },
            Event::Command(DebuggerCommand::Print(name)) => {
                &&& self.same_setup(before)
                &&& self.process() == before.process()
                &&& self.armed() == before.armed()
                &&& if before.running() {
                    turn.reports@ == Seq::<Report>::empty() && turn.next == Action::Inspect(name)
                } else {
                    turn.reports@ == seq![Report::NotRunning] && turn.next == Action::Prompt
                }
            },
            Event::Launched(started) => {
                let first = if before.running() {
                    1int
                } else {
                    0int
                };
                &&& self.same_setup(before)
                &&& killed(before.process(), turn.reports@.take(first))
                &&& if kill_was_fatal(turn.reports@.take(first)) {
                    &&& turn.reports@.len() == first
                    &&& !self.running()
                    &&& turn.next == Action::Abort
                } else {
                    &&& turn.reports@.len() == first + 1
                    &&& self.launch_answered(
                        before.symbols(),
                        started,
                        turn.reports@[first],
                        turn.next,
                    )
                }
            },
        }
    }

    /// Whether this session, the report `last` and the action `next` are a
    /// right answer to the launch of `started`. If no process was started,
    /// or its id is not positive, the launch has failed: the session has no
    /// process. Else the process has been waited for, and the answer is what
    /// [`Debugger::charge_taken`] says of what that wait has returned.
    pub open spec fn launch_answered(
        &self,
        symbols: &DwarfData,
        started: Option<i32>,
        last: Report,
        next: Action,
    ) -> bool {
        match started {
            Some(pid) => if pid > 0 {
                exists|first: Result<Status, Error>| #[trigger]
                    self.charge_taken(symbols, pid, first, last, next)
            } else {
                !self.running() && last == Report::LaunchFailed && next == Action::Prompt
            },
            None => !self.running() && last == Report::LaunchFailed && next == Action::Prompt,
        }
    }

    /// Answers one event: carries out a command, or takes charge of the
    /// process that the host has started. See [`Debugger::answers`] for what
    /// each event does.
    pub fn run(&mut self, event: Event) -> (turn: Turn)
        requires
            old(self).wf(),
        ensures
            final(self).wf(),
            final(self).answers(old(self), event, turn),
    {
        match event {
            Event::Command(DebuggerCommand::Quit) => {
                let (reports, fatal) = self.stop_process();
                let next = if fatal {
                    Action::Abort
                } else {
                    Action::Exit
                };
                Turn { reports, next }
            },
            Event::Command(DebuggerCommand::Run(args)) => {
                let (reports, fatal) = self.stop_process();
                let next = if fatal {
                    Action::Abort
                } else {
                    Action::Launch(args)
                };
                Turn { reports, next }
            },
            Event::Command(DebuggerCommand::Continue) => self.resume(),
            Event::Command(DebuggerCommand::Next) => self.step_line(),
            Event::Command(DebuggerCommand::Backtrace) => self.backtrace(),
            Event::Command(DebuggerCommand::Breakpoint(place)) => self.set_breakpoint(place),
            Event::Command(DebuggerCommand::Print(name)) => {
                if self.inferior.is_some() {
                    Turn { reports: Vec::new(), next: Action::Inspect(name) }
                } else {
                    not_running()
                }
            },
            Event::Launched(started) => self.launched(started),
        }
    }
}

/// What is reported of letting go of the process `process`: nothing if there
/// was none, else that it was killed or that the kill failed.
pub open spec fn killed(process: Option<i32>, reports: Seq<Report>) -> bool {
    match process {
        Some(pid) => reports.len() == 1 && match reports[0] {
            Report::Killed(killed) => killed == pid,
            Report::KillFailed(failed, _) => failed == pid,
            _ => false,
        },
        None => reports == Seq::<Report>::empty(),
    }
}

} // verus!
