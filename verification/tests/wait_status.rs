use librustdbg::bindings::{
    wexitstatus, wifexited, wifsignaled, wifstopped, wstopsig, wtermsig, PTRACE_REQUEST, SIGNALS,
};
use librustdbg::{ProcessState, StopReason};

#[test]
fn exit_status_is_decoded() {
    // exit(3): status 0x0300
    let status = 0x0300;
    assert!(wifexited(status));
    assert_eq!(wexitstatus(status), 3);
    let reason = StopReason::new(status);
    assert_eq!(reason.reason, ProcessState::Exited);
    assert_eq!(reason.info, 3);
}

#[test]
fn exit_status_zero_is_decoded() {
    let reason = StopReason::new(0);
    assert_eq!(reason, StopReason { reason: ProcessState::Exited, info: 0 });
}

#[test]
fn kill_signal_is_decoded() {
    // killed by SIGKILL (9)
    let status = 9;
    assert!(!wifexited(status));
    assert!(wifsignaled(status));
    assert_eq!(wtermsig(status), 9);
    let reason = StopReason::new(status);
    assert_eq!(reason, StopReason { reason: ProcessState::Terminated, info: 9 });
}

#[test]
fn core_dump_bit_is_not_part_of_the_signal() {
    // SIGSEGV (11) with the core dump flag 0x80
    let reason = StopReason::new(0x8b);
    assert_eq!(reason, StopReason { reason: ProcessState::Terminated, info: 11 });
}

#[test]
fn stop_status_low_byte_is_taken_as_a_signal() {
    // stopped by SIGTRAP: 0x057f. The low seven bits are 0x7f, which the
    // signal test counts as a terminating signal before the stop test is made.
    let status = 0x057f;
    assert!(wifstopped(status));
    assert_eq!(wstopsig(status), 5);
    assert!(wifsignaled(status));
    let reason = StopReason::new(status);
    assert_eq!(reason, StopReason { reason: ProcessState::Terminated, info: 0x7f });
}

#[test]
fn request_and_signal_numbers() {
    assert_eq!(PTRACE_REQUEST::PTRACE_TRACEME.code(), 0);
    assert_eq!(PTRACE_REQUEST::PTRACE_CONT.code(), 7);
    assert_eq!(PTRACE_REQUEST::PTRACE_ATTACH.code(), 16);
    assert_eq!(PTRACE_REQUEST::PTRACE_DETACH.code(), 17);
    assert_eq!(SIGNALS::SIGINT.number(), 2);
    assert_eq!(SIGNALS::SIGCONT.number(), 18);
    assert_eq!(SIGNALS::SIGSTOP.number(), 19);
}
