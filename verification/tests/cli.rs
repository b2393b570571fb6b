use librustdbg::cli::{attach, handle_command, stop_reason_message, DebuggerCommand, Target};
use librustdbg::editline::main_loop_step;
use librustdbg::pipe::CLOSED_FD;
use librustdbg::text::parse_i32;
use librustdbg::{add_history, history_list, Pipe, ProcessState, StopReason};

fn args(list: &[&str]) -> Vec<String> {
    list.iter().map(|s| s.to_string()).collect()
}

#[test]
fn attach_by_pid() {
    assert_eq!(attach(&args(&["rdb", "-p", "1234"])).unwrap(), Target::Attach(1234));
    let err = attach(&args(&["rdb", "-p", "12a"])).unwrap_err();
    assert_eq!(err.message(), "Pid must be a number");
}

#[test]
fn launch_by_path() {
    assert_eq!(
        attach(&args(&["rdb", "target/run_endlessly"])).unwrap(),
        Target::Launch("target/run_endlessly".to_string())
    );
    assert_eq!(
        attach(&args(&["rdb", "-p"])).unwrap(),
        Target::Launch("-p".to_string())
    );
    assert_eq!(
        attach(&args(&["rdb", "prog", "x", "y"])).unwrap(),
        Target::Launch("prog".to_string())
    );
}

#[test]
fn parse_i32_like_std() {
    for text in [
        "0", "42", "+7", "-7", "2147483647", "-2147483648", "2147483648", "-2147483649", "",
        "-", "+", "1 2", " 1", "99999999999999999999", "0007", "-0", "x", "١",
    ] {
        assert_eq!(parse_i32(text), text.parse::<i32>().ok(), "{:?}", text);
    }
}

#[test]
fn continue_command_prefixes() {
    for text in ["c", "co", "cont", "continue"] {
        assert_eq!(handle_command(text), Some(DebuggerCommand::Continue));
    }
    for text in ["continues", "x", "cx", "step"] {
        assert_eq!(handle_command(text), None);
    }
}

#[test]
fn stop_messages() {
    let exited = StopReason { reason: ProcessState::Exited, info: 3 };
    assert_eq!(stop_reason_message(1234, &exited, ""), "Process 1234 exited with status 3");
    let killed = StopReason { reason: ProcessState::Terminated, info: 9 };
    assert_eq!(stop_reason_message(7, &killed, ""), "Process 7 terminated with signal 9");
    let stopped = StopReason { reason: ProcessState::Stopped, info: 5 };
    assert_eq!(stop_reason_message(-12, &stopped, "TRAP"), "Process -12 stopped with signal TRAP");
    let big = StopReason { reason: ProcessState::Exited, info: 255 };
    assert_eq!(
        stop_reason_message(i32::MIN, &big, ""),
        "Process -2147483648 exited with status 255"
    );
}

#[test]
fn history_records_lines() {
    let mut history = Vec::new();
    add_history(&mut history, "continue");
    add_history(&mut history, "c");
    assert_eq!(history_list(&history), vec!["continue".to_string(), "c".to_string()]);
}

#[test]
fn empty_line_repeats_last_command() {
    let mut history = Vec::new();
    assert_eq!(main_loop_step(&mut history, String::new()), None);
    assert_eq!(main_loop_step(&mut history, "cont".to_string()), Some("cont".to_string()));
    assert_eq!(main_loop_step(&mut history, String::new()), Some("cont".to_string()));
    assert_eq!(history, vec!["cont".to_string()]);
}

#[test]
fn pipe_ends_close_once() {
    assert_eq!(Pipe::creation_flags(true), 0x80000);
    assert_eq!(Pipe::creation_flags(false), 0);
    let mut pipe = Pipe::new([3, 4]);
    assert_eq!(pipe.get_read(), 3);
    assert_eq!(pipe.get_write(), 4);
    assert_eq!(pipe.close_write(), Some(4));
    assert_eq!(pipe.get_write(), CLOSED_FD);
    assert_eq!(pipe.close_write(), None);
    assert_eq!(pipe.get_read(), 3);
    assert_eq!(pipe.close_read(), Some(3));
    assert_eq!(pipe.close_read(), None);
}
