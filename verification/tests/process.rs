use librustdbg::bindings::SIGNALS;
use librustdbg::process::{Launched, RegisterRead, RegisterReads, TeardownStep};
use librustdbg::Error;
use librustdbg::{Process, ProcessState, StopReason, Variant, RegisterId};

#[test]
fn new_process_is_stopped_with_zeroed_registers() {
    let proc = Process::new(42, true, false);
    assert_eq!(proc.pid(), 42);
    assert_eq!(proc.state(), ProcessState::Stopped);
    assert!(proc.terminate_on_end());
    assert!(!proc.is_attached());
    let regs = proc.registers.as_ref().unwrap();
    assert_eq!(regs.read_by_id(RegisterId::rip).unwrap(), Variant::U64(0));
}

/// Attaches as the debugger does: checks the pid, then records the request's outcome.
fn attach(pid: i32, outcome: Result<(), String>) -> Result<Process, Error> {
    let request = Process::attach(pid)?;
    let started = request.attached(outcome)?;
    assert!(started.wait_for_stop);
    Ok(started.process)
}

/// Launches as the debugger does, given the outcomes of the system calls.
fn launch(
    forked: Result<i32, String>,
    debug: bool,
    report: &[u8],
    reaped: Result<(), String>,
) -> Result<Process, Error> {
    match Process::launch(forked, debug, report)? {
        Launched::ReapFailedChild { .. } => Err(Process::launch_failed(report, reaped)),
        Launched::Started(started) => {
            assert_eq!(started.wait_for_stop, debug);
            Ok(started.process)
        }
    }
}

#[test]
#[should_panic]
fn process_attach_invalid_pid() {
    Process::attach(0).unwrap();
}

#[test]
fn attach_errors() {
    let err = Process::attach(-5).err().unwrap();
    assert_eq!(err.message(), "Invalid pid");
    assert_eq!(Process::attach(77).ok().unwrap().pid(), 77);
    let err = attach(77, Err("Operation not permitted".to_string())).err().unwrap();
    assert_eq!(err.message(), "Couldn't attach to process: Operation not permitted");
    let proc = attach(77, Ok(())).ok().unwrap();
    assert_eq!(proc.pid(), 77);
    assert!(proc.is_attached());
    assert!(!proc.terminate_on_end());
    assert_eq!(proc.state(), ProcessState::Stopped);
}

#[test]
#[should_panic]
fn process_launch_no_such_program() {
    let report = b"Execlp failed: No such file or directory";
    launch(Ok(1234), false, report, Ok(())).unwrap();
}

#[test]
fn launch_outcomes() {
    let err = Process::launch(Err("Resource temporarily unavailable".to_string()), true, b"")
        .err()
        .unwrap();
    assert_eq!(err.message(), "Fork failed: Resource temporarily unavailable");

    let report = b"Execlp failed: No such file or directory";
    match Process::launch(Ok(1234), false, report).ok().unwrap() {
        Launched::ReapFailedChild { pid } => assert_eq!(pid, 1234),
        Launched::Started(_) => panic!("a failed child is to be reaped"),
    }
    let err = launch(Ok(1234), false, report, Ok(())).err().unwrap();
    assert_eq!(err.message(), "Execlp failed: No such file or directory");

    let err = launch(Ok(1234), false, report, Err("No child processes".to_string()))
        .err()
        .unwrap();
    assert_eq!(err.message(), "Waitpid failed: No child processes");

    let err = launch(Ok(1234), false, &[0xff, 0xfe], Ok(())).err().unwrap();
    assert_eq!(err.message(), "Error building chars from pipe");

    let proc = launch(Ok(1234), true, b"", Ok(())).ok().unwrap();
    assert_eq!(proc.pid(), 1234);
    assert!(proc.is_attached());
    assert!(proc.terminate_on_end());

    let proc = launch(Ok(1234), false, b"", Ok(())).ok().unwrap();
    assert!(!proc.is_attached());
}

#[test]
fn process_resume_already_terminated() {
    let mut proc = launch(Ok(99), true, b"", Ok(())).ok().unwrap();
    proc.resume(Ok(())).unwrap();
    assert_eq!(proc.state(), ProcessState::Running);
    let reason = proc.wait_on_signal(Ok(0)).unwrap();
    assert_eq!(reason, StopReason { reason: ProcessState::Exited, info: 0 });
    assert_eq!(proc.state(), ProcessState::Exited);
    let err = proc.resume(Err("No such process".to_string())).unwrap_err();
    assert_eq!(err.message(), "Could not resume: No such process");
    assert_eq!(proc.state(), ProcessState::Exited);
}

#[test]
fn wait_failure_keeps_state() {
    let mut proc = Process::new(5, false, true);
    proc.resume(Ok(())).unwrap();
    let err = proc.wait_on_signal(Err("Interrupted system call".to_string())).unwrap_err();
    assert_eq!(err.message(), "Waitpid failed: Interrupted system call");
    assert_eq!(proc.state(), ProcessState::Running);
    assert!(!proc.should_read_registers());
    proc.wait_on_signal(Ok(0x0100)).unwrap();
    assert_eq!(proc.state(), ProcessState::Exited);
    assert!(!proc.should_read_registers());
}

#[test]
fn registers_are_read_after_an_attached_stop() {
    let proc = Process::new(5, false, true);
    assert!(proc.should_read_registers());
    let proc = Process::new(5, true, false);
    assert!(!proc.should_read_registers());
}

#[test]
fn debug_register_offsets() {
    for i in 0..8 {
        assert_eq!(Process::debug_register_offset(i), 848 + 8 * i);
    }
}

#[test]
fn register_reads_come_in_order() {
    let mut reads = RegisterReads::new();
    assert_eq!(reads.next_read(), Some(RegisterRead::Gprs));
    reads.record_gprs(Ok(vec![0u8; 216]));
    assert_eq!(reads.next_read(), Some(RegisterRead::Fprs));
    reads.record_fprs(Ok(vec![0u8; 512]));
    for i in 0..8 {
        assert_eq!(
            reads.next_read(),
            Some(RegisterRead::DebugRegister { index: i, offset: 848 + 8 * i })
        );
        reads.record_debug_register(Ok(i as u64));
    }
    assert_eq!(reads.next_read(), None);
}

#[test]
fn read_all_registers_loads_the_register_file() {
    let mut proc = Process::new(5, false, true);
    let mut gprs = vec![0u8; 216];
    gprs[128..136].copy_from_slice(&0x401000u64.to_le_bytes());
    let mut reads = RegisterReads::new();
    reads.record_gprs(Ok(gprs));
    reads.record_fprs(Ok(vec![0u8; 512]));
    for i in 0..8u64 {
        reads.record_debug_register(Ok(i * 3));
    }
    proc.read_all_registers(reads).unwrap();
    let regs = proc.registers.as_ref().unwrap();
    assert_eq!(regs.read_by_id(RegisterId::rip).unwrap(), Variant::U64(0x401000));
    assert_eq!(regs.read_by_id(RegisterId::dr3).unwrap(), Variant::U64(9));
}

#[test]
fn read_all_registers_stops_at_the_first_failure() {
    let mut proc = Process::new(5, false, true);
    let mut reads = RegisterReads::new();
    reads.record_gprs(Err("No such process".to_string()));
    assert_eq!(reads.next_read(), None);
    let err = proc.read_all_registers(reads).unwrap_err();
    assert_eq!(err.message(), "Could not read GPR registers: No such process");
    assert!(proc.registers.is_none());

    let mut proc = Process::new(5, false, true);
    let mut reads = RegisterReads::new();
    reads.record_gprs(Ok(vec![0u8; 216]));
    reads.record_fprs(Err("Input/output error".to_string()));
    assert_eq!(reads.next_read(), None);
    let err = proc.read_all_registers(reads).unwrap_err();
    assert_eq!(err.message(), "Could not read FPR registers: Input/output error");

    let mut proc = Process::new(5, false, true);
    let mut reads = RegisterReads::new();
    reads.record_gprs(Ok(vec![0u8; 216]));
    reads.record_fprs(Ok(vec![0u8; 512]));
    reads.record_debug_register(Ok(1));
    reads.record_debug_register(Ok(2));
    reads.record_debug_register(Err("Input/output error".to_string()));
    assert_eq!(reads.next_read(), None);
    let err = proc.read_all_registers(reads).unwrap_err();
    assert_eq!(err.message(), "Could not read from debug registers: Input/output error");
    assert!(proc.registers.is_none());
}

#[test]
fn teardown_of_a_running_attached_launched_process() {
    let mut proc = Process::new(10, true, true);
    proc.resume(Ok(())).unwrap();
    assert_eq!(
        proc.teardown_steps(),
        vec![
            TeardownStep::Kill(SIGNALS::SIGSTOP),
            TeardownStep::WaitPid,
            TeardownStep::Detach,
            TeardownStep::Kill(SIGNALS::SIGCONT),
            TeardownStep::Kill(SIGNALS::SIGINT),
            TeardownStep::WaitPid,
        ]
    );
}

#[test]
fn teardown_of_a_stopped_attached_process() {
    let proc = Process::new(10, false, true);
    assert_eq!(
        proc.teardown_steps(),
        vec![TeardownStep::Detach, TeardownStep::Kill(SIGNALS::SIGCONT)]
    );
}

#[test]
fn teardown_of_nothing() {
    assert_eq!(Process::new(0, true, true).teardown_steps(), vec![]);
    assert_eq!(Process::new(3, false, false).teardown_steps(), vec![]);
}
