//! The debugger's command line: what to debug, which command a line asks
//! for, and how a stop is reported.
use vstd::prelude::*;
use vstd::string::*;
use crate::bindings::pid_t;
use crate::error::Error;
use crate::process::{ProcessState, StopReason};
use crate::text::{
    parse_i32, push_signed_decimal, spec_is_prefix, spec_parse_i32, spec_signed_decimal,
    starts_with,
};

verus! {

/// The process to debug.
#[derive(Clone, Debug, PartialEq, Eq)]
pub enum Target {
    /// Attach to the running process with this pid.
    Attach(pid_t),
    /// Launch this program.
    Launch(String),
}

/// A command of the debugger.
#[derive(Clone, Copy, Debug, PartialEq, Eq)]
pub enum DebuggerCommand {
    /// Let the process run until it next stops.
    Continue,
}

/// Chooses the process to debug from the program's arguments: `-p` and a pid
/// attach to that process; otherwise the first argument is a program to launch.
pub fn attach(args: &Vec<String>) -> (r: Result<Target, Error>)
    requires
        args@.len() >= 2,
    ensures
        args@.len() == 3 && args@[1]@ == "-p"@ ==> match spec_parse_i32(args@[2]@) {
            Some(pid) => r matches Ok(t) && t == Target::Attach(pid),
            None => r matches Err(e) && e@ == "Pid must be a number"@,
        },
        !(args@.len() == 3 && args@[1]@ == "-p"@) ==> (r matches Ok(Target::Launch(path))
            && path@ == args@[1]@),
{
    let flag = String::from_str("-p");
    if args.len() == 3 && args[1] == flag {
        return match parse_i32(args[2].as_str()) {
            Some(pid) => Ok(Target::Attach(pid)),
            None => Err(Error::send("Pid must be a number")),
        };
    }
    Ok(Target::Launch(args[1].clone()))
}

/// The command a line asks for: any beginning of `continue` continues.
pub fn handle_command(command: &str) -> (c: Option<DebuggerCommand>)
    ensures
        c == if spec_is_prefix(command@, "continue"@) {
            Some(DebuggerCommand::Continue)
        } else {
            None
        },
{
    if starts_with("continue", command) {
        Some(DebuggerCommand::Continue)
    } else {
        None
    }
}

/// The report of a stop: `Process`, the pid, and how the process ended or
/// stopped, with the exit code, the signal number, or the name of the stop
/// signal. A running process has no report.
pub open spec fn spec_stop_message(pid: pid_t, reason: StopReason, signal_name: Seq<char>) -> Seq<char> {
    let detail = match reason.reason {
        ProcessState::Exited => "exited with status "@ + spec_signed_decimal(reason.info as int),
        ProcessState::Terminated => "terminated with signal "@ + spec_signed_decimal(
            reason.info as int,
        ),
        _ => "stopped with signal "@ + signal_name,
    };
    "Process "@ + spec_signed_decimal(pid as int) + " "@ + detail
}

/// Renders the report of a stop; `signal_name` is the abbreviation of the
/// stop signal's name.
pub fn stop_reason_message(pid: pid_t, reason: &StopReason, signal_name: &str) -> (m: String)
    requires
        reason.reason != ProcessState::Running,
    ensures
        m@ == spec_stop_message(pid, *reason, signal_name@),
{
    let mut msg = String::from_str("Process ");
    push_signed_decimal(&mut msg, pid as i64);
    msg.append(" ");
    match reason.reason {
        ProcessState::Exited => {
            msg.append("exited with status ");
            push_signed_decimal(&mut msg, reason.info as i64);
        },
        ProcessState::Terminated => {
            msg.append("terminated with signal ");
            push_signed_decimal(&mut msg, reason.info as i64);
        },
        _ => {
            msg.append("stopped with signal ");
            msg.append(signal_name);
        },
    }
    assert(msg@ =~= spec_stop_message(pid, *reason, signal_name@));
    msg
}

} // verus!
