//! Constants and wait-status decoding shared with the operating system layer.
use vstd::prelude::*;

verus! {

/// Process identifier as the kernel hands it out.
pub type pid_t = i32;

/// Flag asking for a pipe whose descriptors close on `exec`.
pub const O_CLOEXEC: i32 = 0x80000;

/// Descriptor number of the standard output.
pub const STDOUT_FILENO: i32 = 1;

/// The `ptrace` requests the debugger issues.
#[derive(Clone, Copy, Debug, PartialEq, Eq)]
pub enum PTRACE_REQUEST {
    PTRACE_TRACEME,
    PTRACE_CONT,
    PTRACE_ATTACH,
    PTRACE_DETACH,
}

/// Numeric request code of each `ptrace` request on Linux.
pub open spec fn spec_ptrace_request_code(r: PTRACE_REQUEST) -> i32 {
    match r {
        PTRACE_REQUEST::PTRACE_TRACEME => 0,
        PTRACE_REQUEST::PTRACE_CONT => 7,
        PTRACE_REQUEST::PTRACE_ATTACH => 16,
        PTRACE_REQUEST::PTRACE_DETACH => 17,
    }
}

impl PTRACE_REQUEST {
    /// The request code handed to the kernel.
    pub fn code(&self) -> (c: i32)
        ensures
            c == spec_ptrace_request_code(*self),
    {
        match self {
            PTRACE_REQUEST::PTRACE_TRACEME => 0,
            PTRACE_REQUEST::PTRACE_CONT => 7,
            PTRACE_REQUEST::PTRACE_ATTACH => 16,
            PTRACE_REQUEST::PTRACE_DETACH => 17,
        }
    }
}

/// The signals the debugger sends.
#[derive(Clone, Copy, Debug, PartialEq, Eq)]
pub enum SIGNALS {
    SIGINT,
    SIGCONT,
    SIGSTOP,
}

/// Signal number of each signal on Linux x86-64.
pub open spec fn spec_signal_number(s: SIGNALS) -> i32 {
    match s {
        SIGNALS::SIGINT => 2,
        SIGNALS::SIGCONT => 18,
        SIGNALS::SIGSTOP => 19,
    }
}

impl SIGNALS {
    /// The signal number handed to the kernel.
    pub fn number(&self) -> (n: i32)
        ensures
            n == spec_signal_number(*self),
    {
        match self {
            SIGNALS::SIGINT => 2,
            SIGNALS::SIGCONT => 18,
            SIGNALS::SIGSTOP => 19,
        }
    }
}

/// The low seven bits of a wait status: the terminating signal, or zero on exit.
pub open spec fn spec_low_bits(wait_status: i32) -> i32 {
    wait_status & 0x7f
}

/// Bits 8..16 of a wait status: the exit code or the stop signal.
pub open spec fn spec_high_byte(wait_status: i32) -> u8 {
    ((wait_status & 0xff00) >> 8) as u8
}

/// The child exited normally.
pub open spec fn spec_wifexited(wait_status: i32) -> bool {
    spec_low_bits(wait_status) == 0
}

/// The child was reported as killed by a signal: `((status & 0x7f) + 1) >> 1 > 0`,
/// computed on 32-bit integers.
pub open spec fn spec_wifsignaled(wait_status: i32) -> bool {
    ((spec_low_bits(wait_status) + 1) as i32 >> 1) > 0
}

/// The child is stopped: the low byte of the status is `0x7f`.
pub open spec fn spec_wifstopped(wait_status: i32) -> bool {
    wait_status & 0xff == 0x7f
}

/// The fields of a wait status are its bits: the low seven bits the
/// terminating signal, bits 8..16 the exit code or stop signal, and the low
/// byte the stop marker `0x7f`.
pub proof fn lemma_wait_status_fields(wait_status: i32)
    ensures
        spec_high_byte(wait_status) as int == (wait_status as u32 as int / 256) % 256,
        spec_low_bits(wait_status) as int == wait_status as u32 as int % 128,
        spec_wifexited(wait_status) <==> wait_status as u32 as int % 128 == 0,
        spec_wifstopped(wait_status) <==> wait_status as u32 as int % 256 == 0x7f,
{
    let u = wait_status as u32;
    assert(((((wait_status & 0xff00) >> 8) as u8) as u32) == (u / 256) % 256) by (bit_vector)
        requires
            u == wait_status as u32,
    ;
    assert((wait_status & 0x7f) as u32 == u % 128 && 0 <= (wait_status & 0x7f) < 128) by (bit_vector)
        requires
            u == wait_status as u32,
    ;
    assert(((wait_status & 0xff) == 0x7f) <==> (u % 256 == 0x7f)) by (bit_vector)
        requires
            u == wait_status as u32,
    ;
}

/// A child that called `exit(code)` reports the status `256 * code`: it
/// exited, with that code.
pub proof fn lemma_exit_code_round_trip(code: u8)
    ensures
        spec_wifexited((256 * (code as i32)) as i32),
        spec_high_byte((256 * (code as i32)) as i32) == code,
{
    let s: i32 = (256 * (code as i32)) as i32;
    assert(s & 0x7f == 0 && ((s & 0xff00) >> 8) as u8 == code) by (bit_vector)
        requires
            s == 256 * (code as i32),
    ;
}

/// A child killed by signal `sig` (1 to 127, with or without the core dump
/// flag) reports the status `sig` or `sig | 0x80`: it did not exit, and the
/// low seven bits give the signal.
pub proof fn lemma_signal_round_trip(sig: u8, core_dumped: bool)
    requires
        1 <= sig < 128,
    ensures
        ({
            let s: i32 = if core_dumped { (sig as i32) | 0x80 } else { sig as i32 };
            &&& !spec_wifexited(s)
            &&& spec_low_bits(s) == sig as i32
            &&& spec_wifsignaled(s)
        }),
{
    let s: i32 = if core_dumped { (sig as i32) | 0x80 } else { sig as i32 };
    assert(s & 0x7f == sig as i32 && ((((s & 0x7f) + 1) as i32 >> 1) > 0)) by (bit_vector)
        requires
            s == (sig as i32) | 0x80 || s == sig as i32,
            1 <= sig < 128,
    ;
}

/// `WIFEXITED`.
pub fn wifexited(wait_status: i32) -> (r: bool)
    ensures
        r == spec_wifexited(wait_status),
{
    (wait_status & 0x7f) == 0
}

/// `WEXITSTATUS`.
pub fn wexitstatus(wait_status: i32) -> (r: u8)
    ensures
        r == spec_high_byte(wait_status),
{
    ((wait_status & 0xff00) >> 8) as u8
}

/// `WIFSIGNALED`, as the debugger computes it.
pub fn wifsignaled(wait_status: i32) -> (r: bool)
    ensures
        r == spec_wifsignaled(wait_status),
        r <==> spec_low_bits(wait_status) != 0,
{
    let low = wait_status & 0x7f;
    assert(0 <= low <= 0x7f && ((((low + 1) as i32 >> 1) > 0) <==> low != 0)) by (bit_vector)
        requires
            low == wait_status & 0x7f,
    ;
    ((low + 1) >> 1) > 0
}

/// `WTERMSIG`.
pub fn wtermsig(wait_status: i32) -> (r: u8)
    ensures
        r == spec_low_bits(wait_status),
{
    let low = wait_status & 0x7f;
    assert(0 <= low <= 0x7f) by (bit_vector)
        requires
            low == wait_status & 0x7f,
    ;
    low as u8
}

/// `WIFSTOPPED`.
pub fn wifstopped(wait_status: i32) -> (r: bool)
    ensures
        r == spec_wifstopped(wait_status),
{
    (wait_status & 0xff) == 0x7f
}

/// `WSTOPSIG`.
pub fn wstopsig(wait_status: i32) -> (r: u8)
    ensures
        r == spec_high_byte(wait_status),
{
    ((wait_status & 0xff00) >> 8) as u8
}

} // verus!
