use deet::status::Status;
use deet::status::SIGTRAP;
use deet::sys::WaitEvent;

#[test]
fn trap_signal_number_is_the_systems() {
    assert_eq!(SIGTRAP, nix::sys::signal::Signal::SIGTRAP as i32);
    assert_eq!(SIGTRAP, 5);
}

#[test]
fn is_trap_only_for_a_stop_by_the_trap_signal() {
    assert!(Status::Stopped(SIGTRAP, 0x4011a6).is_trap());
    assert!(Status::Stopped(SIGTRAP, 0).is_trap());
    assert!(!Status::Stopped(11, 0x4011a6).is_trap());
    assert!(!Status::Exited(SIGTRAP).is_trap());
    assert!(!Status::Signaled(SIGTRAP).is_trap());
}

#[test]
fn is_terminal_for_exit_and_kill() {
    assert!(Status::Exited(0).is_terminal());
    assert!(Status::Exited(3).is_terminal());
    assert!(Status::Signaled(9).is_terminal());
    assert!(!Status::Stopped(SIGTRAP, 0x1000).is_terminal());
    assert!(!Status::Stopped(19, 0).is_terminal());
}

#[test]
fn equality_compares_kind_and_signal_but_not_the_place() {
    assert!(Status::Stopped(SIGTRAP, 0x4011a6) == Status::Stopped(SIGTRAP, 0));
    assert!(Status::Stopped(SIGTRAP, 1) != Status::Stopped(11, 1));
    assert!(Status::Exited(0) == Status::Exited(0));
    assert!(Status::Exited(0) != Status::Exited(1));
    assert!(Status::Signaled(9) == Status::Signaled(9));
    assert!(Status::Signaled(9) != Status::Signaled(15));
    assert!(Status::Exited(9) != Status::Signaled(9));
    assert!(Status::Stopped(9, 0) != Status::Signaled(9));
    assert!(Status::Stopped(0, 0) != Status::Exited(0));
}

#[test]
fn from_event_classifies_the_three_known_events() {
    assert!(matches!(Status::from_event(WaitEvent::Exited(7), 0x1234), Some(Status::Exited(7))));
    assert!(matches!(
        Status::from_event(WaitEvent::Signaled(9), 0x1234),
        Some(Status::Signaled(9))
    ));
    assert!(matches!(
        Status::from_event(WaitEvent::Stopped(5), 0x1234),
        Some(Status::Stopped(5, 0x1234))
    ));
}

#[test]
fn from_event_has_no_status_for_other_events() {
    assert!(Status::from_event(WaitEvent::TraceEvent, 0).is_none());
    assert!(Status::from_event(WaitEvent::SyscallStop, 0).is_none());
    assert!(Status::from_event(WaitEvent::Continued, 0).is_none());
    assert!(Status::from_event(WaitEvent::StillAlive, 0).is_none());
}

#[test]
fn to_string_tells_a_stop_with_the_name_of_the_signal() {
    assert_eq!(Status::Stopped(SIGTRAP, 0x4011a6).to_string(), "Child stopped (signal SIGTRAP)");
    assert_eq!(Status::Stopped(11, 0).to_string(), "Child stopped (signal SIGSEGV)");
    assert_eq!(Status::Stopped(19, 0).to_string(), "Child stopped (signal SIGSTOP)");
}

#[test]
fn to_string_tells_an_exit_with_its_code() {
    assert_eq!(Status::Exited(0).to_string(), "Child exited (status = 0)");
    assert_eq!(Status::Exited(127).to_string(), "Child exited (status = 127)");
    assert_eq!(Status::Exited(-1).to_string(), "Child exited (status = -1)");
}

#[test]
fn to_string_tells_a_kill_with_the_name_of_the_signal() {
    assert_eq!(Status::Signaled(9).to_string(), "Child signaled (signal SIGKILL)");
    assert_eq!(Status::Signaled(2).to_string(), "Child signaled (signal SIGINT)");
}

#[test]
fn to_string_writes_out_a_number_that_is_no_signal() {
    assert_eq!(Status::Stopped(0, 0).to_string(), "Child stopped (signal 0)");
    assert_eq!(Status::Stopped(1000, 0).to_string(), "Child stopped (signal 1000)");
    assert_eq!(Status::Signaled(-5).to_string(), "Child signaled (signal -5)");
}

#[test]
fn to_string_agrees_with_the_systems_names() {
    for number in 1..32 {
        let expected = match nix::sys::signal::Signal::try_from(number) {
            Ok(signal) => format!("Child signaled (signal {})", signal),
            Err(_) => format!("Child signaled (signal {})", number),
        };
        assert_eq!(Status::Signaled(number).to_string(), expected);
    }
}
