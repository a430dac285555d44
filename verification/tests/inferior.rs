use deet::dwarf_data::DwarfData;
use deet::dwarf_data::Function;
use deet::dwarf_data::Line;
use deet::inferior::caller_slots;
use deet::inferior::launch_succeeded;
use deet::inferior::push_frame;
use deet::inferior::resolve_frame;
use deet::inferior::starting_line;
use deet::inferior::still_on_line;
use deet::inferior::Error;
use deet::inferior::Frame;
use deet::inferior::Inferior;
use deet::inferior::ENTRY_FUNCTION;
use deet::status::Status;
use deet::status::SIGTRAP;
use deet::sys::WaitEvent;
use nix::sys::wait::WaitPidFlag;

/// No process can have this id: the system's ids end far below it.
const NOBODY: i32 = i32::MAX;

fn function(name: &str, file: &str, address: usize, text_length: usize) -> Function {
    Function { name: name.to_string(), file: file.to_string(), address, text_length }
}

fn line(file: &str, number: usize, address: usize) -> Line {
    Line { file: file.to_string(), number, address }
}

fn sample() -> DwarfData {
    DwarfData::new(
        vec![
            function("f", "sample.c", 0x401126, 0x10),
            function("main", "sample.c", 0x401136, 0x1d),
        ],
        vec![
            line("sample.c", 3, 0x401126),
            line("sample.c", 4, 0x40112d),
            line("sample.c", 5, 0x401133),
            line("sample.c", 7, 0x401136),
            line("sample.c", 8, 0x40113e),
            line("sample.c", 9, 0x40114b),
            line("sample.c", 10, 0x401151),
        ],
    )
}

#[test]
fn entry_function_is_main() {
    assert_eq!(ENTRY_FUNCTION, "main");
}

#[test]
fn adopt_needs_a_positive_pid() {
    assert!(Inferior::adopt(0).is_none());
    assert!(Inferior::adopt(-1).is_none());
    assert!(Inferior::adopt(i32::MIN).is_none());
    let inferior = Inferior::adopt(NOBODY).expect("positive pid");
    assert_eq!(inferior.pid(), NOBODY);
    assert!(inferior.terminal_status().is_none());
    assert!(!inferior.has_breakpoint(0x4011a6));
}

#[test]
fn new_fails_without_a_traced_child() {
    assert!(Inferior::new(NOBODY, &vec![]).is_none());
    assert!(Inferior::new(NOBODY, &vec![0x4011a6]).is_none());
    assert!(Inferior::new(0, &vec![]).is_none());
    assert!(Inferior::new(-1, &vec![0x4011a6]).is_none());
}

#[test]
fn write_byte_fails_on_a_process_that_is_not_traced() {
    let inferior = Inferior::adopt(NOBODY).unwrap();
    assert!(matches!(inferior.write_byte(0x4011a6, 0xcc), Err(Error::NixError(_))));
}

#[test]
fn set_breakpoint_records_nothing_when_the_write_fails() {
    let mut inferior = Inferior::adopt(NOBODY).unwrap();
    inferior.set_breakpoint(0x4011a6);
    assert!(!inferior.has_breakpoint(0x4011a6));
    assert_eq!(inferior.pid(), NOBODY);
}

#[test]
fn wait_fails_on_a_process_that_is_no_child() {
    let mut inferior = Inferior::adopt(NOBODY).unwrap();
    assert!(matches!(inferior.wait(None), Err(Error::NixError(_))));
    assert!(matches!(inferior.wait(Some(WaitPidFlag::WNOHANG)), Err(Error::NixError(_))));
    assert!(inferior.terminal_status().is_none());
}

#[test]
fn settle_returns_other_statuses_as_they_are() {
    let inferior = Inferior::adopt(NOBODY).unwrap();
    assert!(matches!(inferior.settle(Status::Exited(0)), Ok(Status::Exited(0))));
    assert!(matches!(inferior.settle(Status::Signaled(9)), Ok(Status::Signaled(9))));
    assert!(matches!(
        inferior.settle(Status::Stopped(SIGTRAP, 0x4011a7)),
        Ok(Status::Stopped(SIGTRAP, 0x4011a7))
    ));
    assert!(matches!(
        inferior.settle(Status::Stopped(SIGTRAP, 0)),
        Ok(Status::Stopped(SIGTRAP, 0))
    ));
    assert!(matches!(inferior.settle(Status::Stopped(11, 0x10)), Ok(Status::Stopped(11, 0x10))));
}

#[test]
fn rearm_touches_the_process_only_after_a_trap() {
    let inferior = Inferior::adopt(NOBODY).unwrap();
    assert!(matches!(inferior.rearm(0x4011a6, Status::Exited(0)), Ok(Status::Exited(0))));
    assert!(matches!(inferior.rearm(0x4011a6, Status::Signaled(9)), Ok(Status::Signaled(9))));
    assert!(matches!(
        inferior.rearm(0x4011a6, Status::Stopped(11, 0x4011a8)),
        Ok(Status::Stopped(11, 0x4011a8))
    ));
    assert!(matches!(
        inferior.rearm(0x4011a6, Status::Stopped(SIGTRAP, 0x4011a8)),
        Err(Error::NixError(_))
    ));
}

#[test]
fn operations_fail_on_a_process_that_is_not_traced() {
    let data = sample();
    let mut inferior = Inferior::adopt(NOBODY).unwrap();
    assert!(matches!(inferior.step(), Err(Error::NixError(_))));
    assert!(matches!(inferior.continuee(), Err(Error::NixError(_))));
    assert!(matches!(inferior.next(&data), Err(Error::NixError(_))));
    assert!(matches!(inferior.print_backtrace(&data), Err(Error::NixError(_))));
    let start = line("sample.c", 8, 0x40113e);
    assert!(matches!(inferior.step_to_new_line(&data, &start), Err(Error::NixError(_))));
    assert!(inferior.terminal_status().is_none());
    assert_eq!(inferior.pid(), NOBODY);
}

#[test]
fn kill_twice_of_a_process_that_does_not_exist_fails_the_same_way() {
    let mut inferior = Inferior::adopt(NOBODY).unwrap();
    let first = inferior.kill();
    let second = inferior.kill();
    match (first, second) {
        (Err(Error::NixError(a)), Err(Error::NixError(b))) => assert_eq!(a, b),
        other => panic!("{:?}", other),
    }
    assert!(inferior.terminal_status().is_none());
}

#[test]
fn resolve_frame_needs_function_and_line() {
    let data = sample();
    let frame = resolve_frame(&data, 0x40112d).expect("inside f");
    assert_eq!(frame.pc, 0x40112d);
    assert_eq!(frame.function, "f");
    assert_eq!((frame.line.file.as_str(), frame.line.number), ("sample.c", 4));
    assert!(!frame.is_entry());
    assert!(matches!(resolve_frame(&data, 0x500000), Err(Error::UnresolvedFrame(0x500000))));
    let no_lines = DwarfData::new(vec![function("main", "a.c", 0x1000, 0x10)], vec![]);
    assert!(matches!(resolve_frame(&no_lines, 0x1004), Err(Error::UnresolvedFrame(0x1004))));
}

#[test]
fn is_entry_only_for_main() {
    let data = sample();
    assert!(resolve_frame(&data, 0x401143).unwrap().is_entry());
    assert!(!resolve_frame(&data, 0x401126).unwrap().is_entry());
    let frame = Frame { pc: 0, function: "main2".to_string(), line: line("a.c", 1, 0) };
    assert!(!frame.is_entry());
}

#[test]
fn backtrace_of_main_calling_f() {
    let data = sample();
    let mut frames: Vec<Frame> = Vec::new();
    // the process stands in f, at line 4
    let done = push_frame(&mut frames, &data, 0x40112d).unwrap();
    assert!(!done);
    // f returns into main, after the call at line 8
    let done = push_frame(&mut frames, &data, 0x401148).unwrap();
    assert!(done);
    assert_eq!(frames.len(), 2);
    assert_eq!(frames[0].function, "f");
    assert_eq!((frames[0].line.file.as_str(), frames[0].line.number), ("sample.c", 4));
    assert_eq!(frames[1].function, "main");
    assert_eq!((frames[1].line.file.as_str(), frames[1].line.number), ("sample.c", 8));
}

#[test]
fn backtrace_from_main_itself_has_one_frame() {
    let data = sample();
    let mut frames: Vec<Frame> = Vec::new();
    assert!(push_frame(&mut frames, &data, 0x401136).unwrap());
    assert_eq!(frames.len(), 1);
    assert_eq!(frames[0].function, "main");
}

#[test]
fn push_frame_fails_on_an_unknown_program_counter() {
    let data = sample();
    let mut frames: Vec<Frame> = Vec::new();
    assert!(!push_frame(&mut frames, &data, 0x401126).unwrap());
    assert!(matches!(
        push_frame(&mut frames, &data, 0x7fff_f7a0_0000),
        Err(Error::UnresolvedFrame(0x7fff_f7a0_0000))
    ));
    assert_eq!(frames.len(), 1);
}

#[test]
fn caller_slots_are_the_frame_base_and_the_word_above() {
    assert!(matches!(caller_slots(0x7ffd_1000), Ok((0x7ffd_1000, 0x7ffd_1008))));
    assert!(matches!(caller_slots(0), Ok((0, 8))));
    assert!(matches!(caller_slots(usize::MAX - 8), Ok((base, above))
        if base == usize::MAX - 8 && above == usize::MAX));
}

#[test]
fn frame_base_at_the_end_of_the_address_space_is_broken() {
    assert!(matches!(caller_slots(usize::MAX - 7), Err(Error::BrokenFrame(base))
        if base == usize::MAX - 7));
    assert!(matches!(caller_slots(usize::MAX), Err(Error::BrokenFrame(usize::MAX))));
}

#[test]
fn starting_line_needs_a_known_line() {
    let data = sample();
    let start = starting_line(&data, 0x401143).expect("inside main");
    assert_eq!((start.file.as_str(), start.number), ("sample.c", 8));
    assert!(matches!(starting_line(&data, 0x500000), Err(Error::UnresolvedLine(0x500000))));
    assert!(matches!(starting_line(&data, 0), Err(Error::UnresolvedLine(0))));
}

#[test]
fn stepping_goes_on_while_the_trap_is_on_the_starting_line() {
    let data = sample();
    let start = line("sample.c", 8, 0x40113e);
    assert!(still_on_line(&data, &start, &Status::Stopped(SIGTRAP, 0x40113e)));
    assert!(still_on_line(&data, &start, &Status::Stopped(SIGTRAP, 0x401143)));
    assert!(still_on_line(&data, &start, &Status::Stopped(SIGTRAP, 0x40114a)));
}

#[test]
fn stepping_goes_on_where_no_line_is_known() {
    let data = sample();
    let start = line("sample.c", 8, 0x40113e);
    assert!(still_on_line(&data, &start, &Status::Stopped(SIGTRAP, 0x7fff_f7a0_0000)));
}

#[test]
fn stepping_ends_on_another_line_or_another_status() {
    let data = sample();
    let start = line("sample.c", 8, 0x40113e);
    assert!(!still_on_line(&data, &start, &Status::Stopped(SIGTRAP, 0x40114b)));
    assert!(!still_on_line(&data, &start, &Status::Stopped(SIGTRAP, 0x401126)));
    assert!(!still_on_line(&data, &start, &Status::Stopped(11, 0x401143)));
    assert!(!still_on_line(&data, &start, &Status::Exited(0)));
    assert!(!still_on_line(&data, &start, &Status::Signaled(9)));
}

#[test]
fn observe_classifies_exit_kill_and_stop() {
    let mut inferior = Inferior::adopt(NOBODY).unwrap();
    assert!(matches!(
        inferior.observe(WaitEvent::Stopped(SIGTRAP), 0x4011a6),
        Ok(Status::Stopped(SIGTRAP, 0x4011a6))
    ));
    assert!(matches!(
        inferior.observe(WaitEvent::Stopped(19), 0x7fff_0010),
        Ok(Status::Stopped(19, 0x7fff_0010))
    ));
    assert!(inferior.terminal_status().is_none());
    assert!(matches!(inferior.observe(WaitEvent::Exited(3), 0), Ok(Status::Exited(3))));
    assert!(matches!(inferior.terminal_status(), Some(Status::Exited(3))));

    let mut inferior = Inferior::adopt(NOBODY).unwrap();
    assert!(matches!(inferior.observe(WaitEvent::Signaled(11), 0), Ok(Status::Signaled(11))));
    assert!(matches!(inferior.terminal_status(), Some(Status::Signaled(11))));
}

#[test]
fn observe_refuses_every_other_event() {
    let mut inferior = Inferior::adopt(NOBODY).unwrap();
    assert!(matches!(
        inferior.observe(WaitEvent::TraceEvent, 0),
        Err(Error::UnexpectedStatus(WaitEvent::TraceEvent))
    ));
    assert!(matches!(
        inferior.observe(WaitEvent::SyscallStop, 0),
        Err(Error::UnexpectedStatus(WaitEvent::SyscallStop))
    ));
    assert!(matches!(
        inferior.observe(WaitEvent::Continued, 0),
        Err(Error::UnexpectedStatus(WaitEvent::Continued))
    ));
    assert!(matches!(
        inferior.observe(WaitEvent::StillAlive, 0),
        Err(Error::UnexpectedStatus(WaitEvent::StillAlive))
    ));
    assert!(inferior.terminal_status().is_none());
}

#[test]
fn kill_twice_after_the_process_has_exited() {
    let mut inferior = Inferior::adopt(NOBODY).unwrap();
    inferior.observe(WaitEvent::Exited(0), 0).unwrap();
    let first = inferior.kill().expect("no fault");
    let second = inferior.kill().expect("no fault");
    assert!(matches!(first, Status::Exited(0)));
    assert!(matches!(second, Status::Exited(0)));
    assert!(first == second);
    assert!(matches!(inferior.terminal_status(), Some(Status::Exited(0))));
}

#[test]
fn kill_twice_after_the_process_was_killed() {
    let mut inferior = Inferior::adopt(NOBODY).unwrap();
    inferior.observe(WaitEvent::Signaled(9), 0).unwrap();
    assert!(matches!(inferior.kill(), Ok(Status::Signaled(9))));
    assert!(matches!(inferior.kill(), Ok(Status::Signaled(9))));
}

#[test]
fn wait_and_observe_return_the_end_once_it_is_on_record() {
    let mut inferior = Inferior::adopt(NOBODY).unwrap();
    inferior.observe(WaitEvent::Exited(7), 0).unwrap();
    assert!(matches!(inferior.wait(None), Ok(Status::Exited(7))));
    assert!(matches!(
        inferior.observe(WaitEvent::Stopped(SIGTRAP), 0x4011a6),
        Ok(Status::Exited(7))
    ));
    assert!(matches!(inferior.observe(WaitEvent::Signaled(9), 0), Ok(Status::Exited(7))));
    assert!(matches!(inferior.observe(WaitEvent::StillAlive, 0), Ok(Status::Exited(7))));
    assert!(matches!(inferior.terminal_status(), Some(Status::Exited(7))));
}

#[test]
fn record_arming_arms_after_a_write_that_succeeded() {
    let mut inferior = Inferior::adopt(NOBODY).unwrap();
    inferior.record_arming(0x4011a6, Ok(0x55));
    assert!(inferior.has_breakpoint(0x4011a6));
    assert!(!inferior.has_breakpoint(0x4011a7));
    inferior.record_arming(0x401200, Err(Error::Exhausted));
    assert!(!inferior.has_breakpoint(0x401200));
    assert!(inferior.has_breakpoint(0x4011a6));
}

#[test]
fn settle_has_to_touch_the_process_after_a_run_into_a_breakpoint() {
    let mut inferior = Inferior::adopt(NOBODY).unwrap();
    inferior.record_arming(0x4011a6, Ok(0x55));
    // nobody is there to be touched
    assert!(matches!(
        inferior.settle(Status::Stopped(SIGTRAP, 0x4011a7)),
        Err(Error::NixError(_))
    ));
    // a stop at the breakpoint itself, or by another signal, needs nothing
    assert!(matches!(
        inferior.settle(Status::Stopped(SIGTRAP, 0x4011a6)),
        Ok(Status::Stopped(SIGTRAP, 0x4011a6))
    ));
    assert!(matches!(
        inferior.settle(Status::Stopped(11, 0x4011a7)),
        Ok(Status::Stopped(11, 0x4011a7))
    ));
    assert!(matches!(inferior.settle(Status::Exited(0)), Ok(Status::Exited(0))));
}

#[test]
fn breakpoints_outlive_operations_that_fail() {
    let data = sample();
    let mut inferior = Inferior::adopt(NOBODY).unwrap();
    inferior.record_arming(0x401136, Ok(0x55));
    assert!(inferior.step().is_err());
    assert!(inferior.continuee().is_err());
    assert!(inferior.next(&data).is_err());
    assert!(inferior.kill().is_err());
    assert!(inferior.has_breakpoint(0x401136));
    assert_eq!(inferior.pid(), NOBODY);
}

#[test]
fn launch_succeeds_only_with_a_first_stop_at_a_trap() {
    assert!(launch_succeeded(&Ok(Status::Stopped(SIGTRAP, 0x401020))));
    assert!(launch_succeeded(&Ok(Status::Stopped(SIGTRAP, 0))));
    assert!(!launch_succeeded(&Ok(Status::Stopped(19, 0x401020))));
    assert!(!launch_succeeded(&Ok(Status::Exited(127))));
    assert!(!launch_succeeded(&Ok(Status::Signaled(9))));
    assert!(!launch_succeeded(&Err(Error::Exhausted)));
    assert!(!launch_succeeded(&Err(Error::UnexpectedStatus(WaitEvent::Continued))));
}

#[test]
fn frame_to_string_is_function_file_and_line() {
    let data = sample();
    assert_eq!(resolve_frame(&data, 0x40112d).unwrap().to_string(), "f (sample.c:4)");
    assert_eq!(resolve_frame(&data, 0x401148).unwrap().to_string(), "main (sample.c:8)");
    let frame = Frame { pc: 0, function: "".to_string(), line: line("", 0, 0) };
    assert_eq!(frame.to_string(), " (:0)");
}

#[test]
fn walk_from_the_entry_function_reads_nothing() {
    let data = sample();
    let inferior = Inferior::adopt(NOBODY).unwrap();
    let frames = inferior.walk(&data, 0x401143, 0x7ffd_1000).expect("one frame");
    assert_eq!(frames.len(), 1);
    assert_eq!(frames[0].pc, 0x401143);
    assert_eq!(frames[0].function, "main");
    assert_eq!(frames[0].line.number, 8);
    // not even the frame base matters
    let frames = inferior.walk(&data, 0x401136, usize::MAX).expect("one frame");
    assert_eq!(frames.len(), 1);
    assert_eq!(frames[0].to_string(), "main (sample.c:7)");
}

#[test]
fn walk_from_an_unknown_program_counter_fails_at_once() {
    let data = sample();
    let inferior = Inferior::adopt(NOBODY).unwrap();
    assert!(matches!(
        inferior.walk(&data, 0x7fff_f7a0_0000, 0x7ffd_1000),
        Err(Error::UnresolvedFrame(0x7fff_f7a0_0000))
    ));
    assert!(matches!(inferior.walk(&data, 0, 0), Err(Error::UnresolvedFrame(0))));
}

#[test]
fn walk_from_a_frame_base_that_nothing_can_lie_above_fails() {
    let data = sample();
    let inferior = Inferior::adopt(NOBODY).unwrap();
    assert!(matches!(
        inferior.walk(&data, 0x40112d, usize::MAX - 3),
        Err(Error::BrokenFrame(base)) if base == usize::MAX - 3
    ));
}

#[test]
fn walk_out_of_a_callee_has_to_read_the_process() {
    let data = sample();
    let inferior = Inferior::adopt(NOBODY).unwrap();
    assert!(matches!(inferior.walk(&data, 0x40112d, 0x7ffd_1000), Err(Error::NixError(_))));
}

#[test]
fn arm_after_launch_returns_the_process_after_a_first_stop_at_a_trap() {
    let adopted = Inferior::adopt(NOBODY).unwrap();
    let first = Ok(Status::Stopped(SIGTRAP, 0x401020));
    let inferior = adopted.arm_after_launch(&first, &vec![0x4011a6, 0x401136]).expect("launched");
    assert_eq!(inferior.pid(), NOBODY);
    assert!(inferior.terminal_status().is_none());
    // nobody is there to be armed
    assert!(!inferior.has_breakpoint(0x4011a6));
    assert!(!inferior.has_breakpoint(0x401136));
}

#[test]
fn arm_after_launch_keeps_what_is_armed() {
    let mut adopted = Inferior::adopt(NOBODY).unwrap();
    adopted.record_arming(0x4011a6, Ok(0x55));
    let first = Ok(Status::Stopped(SIGTRAP, 0));
    let inferior = adopted.arm_after_launch(&first, &vec![0x4011a6, 0x4011a6]).unwrap();
    assert!(inferior.has_breakpoint(0x4011a6));
}

#[test]
fn arm_after_launch_gives_nothing_after_a_failed_launch() {
    let staged = vec![0x4011a6];
    let tries: Vec<Result<Status, Error>> = vec![
        Ok(Status::Stopped(19, 0x401020)),
        Ok(Status::Exited(127)),
        Ok(Status::Signaled(9)),
        Err(Error::Exhausted),
        Err(Error::UnexpectedStatus(WaitEvent::StillAlive)),
    ];
    for first in tries {
        let adopted = Inferior::adopt(NOBODY).unwrap();
        assert!(adopted.arm_after_launch(&first, &staged).is_none());
    }
}

#[test]
fn a_second_arming_saves_the_byte_it_finds() {
    let mut inferior = Inferior::adopt(NOBODY).unwrap();
    inferior.record_arming(0x4011a6, Ok(0x55));
    // armed again, the write finds the trap byte
    inferior.record_arming(0x4011a6, Ok(0xcc));
    assert!(inferior.has_breakpoint(0x4011a6));
    // an arming that fails changes nothing, armed or not
    inferior.record_arming(0x4011a6, Err(Error::Exhausted));
    inferior.set_breakpoint(0x4011a6);
    assert!(inferior.has_breakpoint(0x4011a6));
}

#[test]
fn resume_after_step_over_returns_what_is_no_trap_as_it_is() {
    let mut inferior = Inferior::adopt(NOBODY).unwrap();
    assert!(matches!(inferior.resume_after_step_over(Status::Exited(0)), Ok(Status::Exited(0))));
    assert!(matches!(
        inferior.resume_after_step_over(Status::Signaled(11)),
        Ok(Status::Signaled(11))
    ));
    assert!(matches!(
        inferior.resume_after_step_over(Status::Stopped(11, 0x4011a8)),
        Ok(Status::Stopped(11, 0x4011a8))
    ));
    assert!(inferior.terminal_status().is_none());
}

#[test]
fn resume_after_step_over_lets_the_process_run_after_a_trap() {
    let mut inferior = Inferior::adopt(NOBODY).unwrap();
    // nobody is there to run
    assert!(matches!(
        inferior.resume_after_step_over(Status::Stopped(SIGTRAP, 0x4011a8)),
        Err(Error::NixError(_))
    ));
}

#[test]
fn trace_from_keeps_the_frames_found_before_a_failure() {
    let data = sample();
    let inferior = Inferior::adopt(NOBODY).unwrap();
    // the walk finds the frame of f, then cannot read the caller's
    let (frames, end) = inferior.trace_from(&data, 0x40112d, 0x7ffd_1000);
    assert_eq!(frames.len(), 1);
    assert_eq!(frames[0].to_string(), "f (sample.c:4)");
    assert!(matches!(end, Err(Error::NixError(_))));
    let (frames, end) = inferior.trace_from(&data, 0x401126, usize::MAX);
    assert_eq!(frames.len(), 1);
    assert_eq!(frames[0].function, "f");
    assert!(matches!(end, Err(Error::BrokenFrame(usize::MAX))));
}

#[test]
fn trace_from_an_unknown_place_finds_nothing() {
    let data = sample();
    let inferior = Inferior::adopt(NOBODY).unwrap();
    let (frames, end) = inferior.trace_from(&data, 0x500000, 0x7ffd_1000);
    assert!(frames.is_empty());
    assert!(matches!(end, Err(Error::UnresolvedFrame(0x500000))));
}

#[test]
fn trace_from_the_entry_function_is_done_at_once() {
    let data = sample();
    let inferior = Inferior::adopt(NOBODY).unwrap();
    let (frames, end) = inferior.trace_from(&data, 0x40114b, 0);
    assert_eq!(frames.len(), 1);
    assert_eq!(frames[0].to_string(), "main (sample.c:9)");
    assert!(end.is_ok());
}

#[test]
fn trace_of_a_process_that_cannot_be_reached_finds_nothing() {
    let data = sample();
    let inferior = Inferior::adopt(NOBODY).unwrap();
    let (frames, end) = inferior.trace(&data);
    assert!(frames.is_empty());
    assert!(matches!(end, Err(Error::NixError(_))));
}

#[test]
fn next_from_a_place_without_a_line_fails_before_any_step() {
    let data = sample();
    let mut inferior = Inferior::adopt(NOBODY).unwrap();
    assert!(matches!(
        inferior.next_from(&data, 0x500000),
        Err(Error::UnresolvedLine(0x500000))
    ));
    // from a known line the process has to be stepped, and nobody is there
    assert!(matches!(inferior.next_from(&data, 0x40113e), Err(Error::NixError(_))));
}
