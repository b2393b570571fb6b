//! The state of a traced process and the decisions taken around each system
//! call that controls it. The calls themselves are made by the caller, who
//! hands their outcome in: `Ok` with what the call returned, or `Err` with
//! the operating system's description of the failure.
use vstd::prelude::*;
use vstd::bytes::{lemma_auto_spec_u64_to_from_le_bytes, spec_u64_to_le_bytes};
use crate::bindings::{
    lemma_exit_code_round_trip, lemma_signal_round_trip,
    SIGNALS, pid_t, spec_high_byte, spec_low_bits, spec_wifexited, spec_wifsignaled,
    spec_wifstopped, wexitstatus, wifexited, wifsignaled, wifstopped, wstopsig, wtermsig,
};
use crate::error::Error;
use crate::register_info::{
    RegisterId, USER_AREA_SIZE, USER_DEBUGREG_OFFSET, USER_FPREGS_OFFSET, USER_FPREGS_SIZE,
    USER_REGS_SIZE, lemma_debug_register_offset, register_info_by_id, RegisterClass,
    lemma_fpr_within_fpregs, lemma_register_in_user_area, lemma_subregister_within_parent,
    spec_register_class, spec_register_offset, spec_register_size,
};
use crate::registers::{Registers, spec_register_bytes};
use crate::text::{spec_utf8_text, utf8_text};

verus! {

/// What the traced process is doing.
#[derive(Clone, Copy, Debug, PartialEq, Eq, Structural)]
pub enum ProcessState {
    Stopped,
    Running,
    Exited,
    Terminated,
}

/// Why the traced process last changed state: how it ended or stopped, and
/// the exit code or signal number.
#[derive(Clone, Copy, Debug, PartialEq, Eq)]
pub struct StopReason {
    pub reason: ProcessState,
    pub info: u8,
}

/// The reason that a wait status reports.
pub open spec fn spec_stop_reason(wait_status: i32) -> StopReason {
    if spec_wifexited(wait_status) {
        StopReason { reason: ProcessState::Exited, info: spec_high_byte(wait_status) }
    } else if spec_wifsignaled(wait_status) {
        StopReason { reason: ProcessState::Terminated, info: spec_low_bits(wait_status) as u8 }
    } else if spec_wifstopped(wait_status) {
        StopReason { reason: ProcessState::Stopped, info: spec_high_byte(wait_status) }
    } else {
        StopReason { reason: ProcessState::Stopped, info: 0 }
    }
}

impl StopReason {
    /// Decodes a wait status.
    pub fn new(wait_status: i32) -> (r: StopReason)
        ensures
            r == spec_stop_reason(wait_status),
    {
        let mut process_state = ProcessState::Stopped;
        let mut info: u8 = 0;
        if wifexited(wait_status) {
            process_state = ProcessState::Exited;
            info = wexitstatus(wait_status);
        } else if wifsignaled(wait_status) {
            process_state = ProcessState::Terminated;
            info = wtermsig(wait_status);
        } else if wifstopped(wait_status) {
            process_state = ProcessState::Stopped;
            info = wstopsig(wait_status);
        }
        StopReason { reason: process_state, info }
    }
}

/// A wait status whose low seven bits are zero reports an exit with the
/// status in bits 8..16; any other reports termination by the signal in its
/// low seven bits, a number from 1 to 127.
pub proof fn lemma_stop_reason_classification(wait_status: i32)
    ensures
        spec_low_bits(wait_status) == 0 ==> spec_stop_reason(wait_status) == (StopReason {
            reason: ProcessState::Exited,
            info: spec_high_byte(wait_status),
        }),
        spec_low_bits(wait_status) != 0 ==> {
            &&& spec_stop_reason(wait_status).reason == ProcessState::Terminated
            &&& spec_stop_reason(wait_status).info as i32 == spec_low_bits(wait_status)
            &&& 1 <= spec_stop_reason(wait_status).info <= 127
        },
{
    let low = spec_low_bits(wait_status);
    assert(0 <= low <= 0x7f && ((((low + 1) as i32 >> 1) > 0) <==> low != 0)) by (bit_vector)
        requires
            low == wait_status & 0x7f,
    ;
}

/// A child that called `exit(code)` is reported as exited with that code.
pub proof fn lemma_exit_reported(code: u8)
    ensures
        spec_stop_reason((256 * (code as i32)) as i32) == (StopReason {
            reason: ProcessState::Exited,
            info: code,
        }),
{
    lemma_exit_code_round_trip(code);
}

/// A child killed by signal `sig` is reported as terminated by that signal,
/// whether or not it dumped core.
pub proof fn lemma_kill_reported(sig: u8, core_dumped: bool)
    requires
        1 <= sig < 128,
    ensures
        spec_stop_reason(if core_dumped { (sig as i32) | 0x80 } else { sig as i32 }) == (StopReason {
            reason: ProcessState::Terminated,
            info: sig,
        }),
{
    lemma_signal_round_trip(sig, core_dumped);
}

/// How the debugger lets go of a process with a nonzero pid:
/// - one that it launched is interrupted and then reaped, as the last two steps;
/// - one that it traces is detached and then continued, after being stopped
///   and waited for first if it was running;
/// - a signal is sent only for these reasons, and nothing else is done.
/// A process with pid zero is left alone.
pub proof fn lemma_teardown_laws(pid: pid_t, is_attached: bool, terminate_on_end: bool, state: ProcessState)
    ensures
        ({
            let steps = spec_teardown_steps(pid, is_attached, terminate_on_end, state);
            let stopping = is_attached && state == ProcessState::Running;
            &&& pid == 0 ==> steps.len() == 0
            &&& pid != 0 ==> steps.len() == (if stopping { 2int } else { 0 }) + (if is_attached {
                2int
            } else {
                0
            }) + (if terminate_on_end { 2int } else { 0 })
            &&& pid != 0 && terminate_on_end ==> steps.len() >= 2 && steps[steps.len() - 2]
                == TeardownStep::Kill(SIGNALS::SIGINT) && steps[steps.len() - 1] == TeardownStep::WaitPid
            &&& pid != 0 && stopping ==> steps[0] == TeardownStep::Kill(SIGNALS::SIGSTOP) && steps[1]
                == TeardownStep::WaitPid
            &&& pid != 0 && is_attached ==> ({
                let k = if stopping { 2int } else { 0 };
                steps[k] == TeardownStep::Detach && steps[k + 1] == TeardownStep::Kill(SIGNALS::SIGCONT)
            })
            &&& !is_attached ==> forall|i: int|
                0 <= i < steps.len() ==> steps[i] != TeardownStep::Detach && steps[i]
                    != TeardownStep::Kill(SIGNALS::SIGSTOP) && steps[i] != TeardownStep::Kill(
                    SIGNALS::SIGCONT,
                )
            &&& !terminate_on_end ==> forall|i: int|
                0 <= i < steps.len() ==> steps[i] != TeardownStep::Kill(SIGNALS::SIGINT)
        }),
{
}

/// A process just taken hold of has the pid and the flags it was taken
/// with, is stopped, and has a register file of the user area's size whose
/// bytes are all zero.
pub proof fn lemma_fresh_process(p: Process, pid: pid_t, terminate_on_end: bool, is_attached: bool)
    requires
        spec_is_fresh(p, pid, terminate_on_end, is_attached),
    ensures
        p.spec_pid() == pid,
        p.spec_terminate_on_end() == terminate_on_end,
        p.spec_is_attached() == is_attached,
        p.spec_state() == ProcessState::Stopped,
        p.spec_registers() matches Some(r) && r@.len() == USER_AREA_SIZE && forall|i: int|
            0 <= i < USER_AREA_SIZE ==> #[trigger] r@[i] == 0u8,
{
    crate::types::lemma_zeros(USER_AREA_SIZE as nat);
}

/// The reads of the registers come in this order: the general purpose
/// registers, the floating point area, then debug registers 0 to 7, each at
/// its word of `u_debugreg`; after the eighth, no read is left.
pub proof fn lemma_register_read_order(gprs: Seq<u8>, fprs: Seq<u8>, debug: Seq<u64>)
    ensures
        spec_next_read(None, None, Seq::empty(), None) == Some(RegisterRead::Gprs),
        spec_next_read(Some(gprs), None, Seq::empty(), None) == Some(RegisterRead::Fprs),
        debug.len() < 8 ==> (spec_next_read(Some(gprs), Some(fprs), debug, None) matches Some(
            RegisterRead::DebugRegister { index, offset },
        ) && index == debug.len() && offset == USER_DEBUGREG_OFFSET + 8 * debug.len()),
        debug.len() >= 8 ==> spec_next_read(Some(gprs), Some(fprs), debug, None) is None,
{
}

/// After the register reads, each register holds what the kernel gave for
/// it: a general purpose register, or part of one, its bytes of the general
/// purpose block; a floating point register its bytes of the floating point
/// area; debug register `n` the word read for it.
pub proof fn lemma_loaded_register_bytes(
    old_image: Seq<u8>,
    gprs: Seq<u8>,
    fprs: Seq<u8>,
    debug_words: Seq<u64>,
    image: Seq<u8>,
    id: RegisterId,
)
    requires
        spec_loaded_registers(old_image, gprs, fprs, debug_words, image),
        old_image.len() == USER_AREA_SIZE,
        gprs.len() == USER_REGS_SIZE,
        fprs.len() == USER_FPREGS_SIZE,
    ensures
        match spec_register_class(id) {
            RegisterClass::Fpr { .. } | RegisterClass::St { .. } | RegisterClass::Mm { .. }
            | RegisterClass::Xmm { .. } => spec_register_bytes(image, id) == fprs.subrange(
                spec_register_offset(id) - USER_FPREGS_OFFSET,
                spec_register_offset(id) - USER_FPREGS_OFFSET + spec_register_size(id),
            ),
            RegisterClass::Dr { number } => spec_register_bytes(image, id) == spec_u64_to_le_bytes(
                debug_words[number as int],
            ),
            _ => spec_register_bytes(image, id) == gprs.subrange(
                spec_register_offset(id),
                spec_register_offset(id) + spec_register_size(id),
            ),
        },
        forall|i: int|
            (USER_REGS_SIZE <= i < USER_FPREGS_OFFSET || USER_FPREGS_OFFSET + USER_FPREGS_SIZE <= i
                < USER_DEBUGREG_OFFSET) ==> #[trigger] image[i] == old_image[i],
{
    assert forall|i: int|
        (USER_REGS_SIZE <= i < USER_FPREGS_OFFSET || USER_FPREGS_OFFSET + USER_FPREGS_SIZE <= i
            < USER_DEBUGREG_OFFSET) implies #[trigger] image[i] == old_image[i] by {
        if i < USER_FPREGS_OFFSET {
            assert(image.subrange(USER_REGS_SIZE as int, USER_FPREGS_OFFSET as int)[i - USER_REGS_SIZE]
                == old_image.subrange(USER_REGS_SIZE as int, USER_FPREGS_OFFSET as int)[i - USER_REGS_SIZE]);
        } else {
            assert(image.subrange(USER_FPREGS_OFFSET + USER_FPREGS_SIZE, USER_DEBUGREG_OFFSET as int)[i
                - (USER_FPREGS_OFFSET + USER_FPREGS_SIZE)] == old_image.subrange(
                USER_FPREGS_OFFSET + USER_FPREGS_SIZE,
                USER_DEBUGREG_OFFSET as int,
            )[i - (USER_FPREGS_OFFSET + USER_FPREGS_SIZE)]);
        }
    }
    lemma_register_in_user_area(id);
    lemma_subregister_within_parent(id);
    lemma_fpr_within_fpregs(id);
    lemma_debug_register_offset(id);
    let off = spec_register_offset(id);
    let size = spec_register_size(id);
    match spec_register_class(id) {
        RegisterClass::Fpr { .. } | RegisterClass::St { .. } | RegisterClass::Mm { .. }
        | RegisterClass::Xmm { .. } => {
            let area = image.subrange(USER_FPREGS_OFFSET as int, USER_FPREGS_OFFSET + USER_FPREGS_SIZE);
            assert(area == fprs);
            assert(spec_register_bytes(image, id) =~= area.subrange(
                off - USER_FPREGS_OFFSET,
                off - USER_FPREGS_OFFSET + size,
            ));
        },
        RegisterClass::Dr { number } => {
            assert(image.subrange(
                USER_DEBUGREG_OFFSET + 8 * (number as int),
                USER_DEBUGREG_OFFSET + 8 * (number as int) + 8,
            ) == spec_u64_to_le_bytes(debug_words[number as int]));
            assert(spec_register_bytes(image, id) =~= image.subrange(
                USER_DEBUGREG_OFFSET + 8 * (number as int),
                USER_DEBUGREG_OFFSET + 8 * (number as int) + 8,
            ));
        },
        _ => {
            let block = image.subrange(0, USER_REGS_SIZE as int);
            assert(block == gprs);
            assert(spec_register_bytes(image, id) =~= block.subrange(off, off + size));
        },
    }
}

/// One step of letting go of a traced process.
#[derive(Clone, Copy, Debug, PartialEq, Eq)]
pub enum TeardownStep {
    /// Send this signal to the process.
    Kill(SIGNALS),
    /// Wait for the process to change state.
    WaitPid,
    /// Stop tracing the process.
    Detach,
}

/// A traced process.
pub struct Process {
    pid: pid_t,
    terminate_on_end: bool,
    is_attached: bool,
    state: ProcessState,
    pub registers: Option<Registers>,
}

/// The steps that let go of a process: one that runs under the debugger is
/// stopped first; an attached one is detached and continued; one that the
/// debugger launched is interrupted and reaped.
pub open spec fn spec_teardown_steps(
    pid: pid_t,
    is_attached: bool,
    terminate_on_end: bool,
    state: ProcessState,
) -> Seq<TeardownStep> {
    if pid == 0 {
        seq![]
    } else {
        let stop = if is_attached && state == ProcessState::Running {
            seq![TeardownStep::Kill(SIGNALS::SIGSTOP), TeardownStep::WaitPid]
        } else {
            seq![]
        };
        let detach = if is_attached {
            seq![TeardownStep::Detach, TeardownStep::Kill(SIGNALS::SIGCONT)]
        } else {
            seq![]
        };
        let end = if terminate_on_end {
            seq![TeardownStep::Kill(SIGNALS::SIGINT), TeardownStep::WaitPid]
        } else {
            seq![]
        };
        stop + detach + end
    }
}

/// The bytes of the user area after the register reads: the general purpose
/// registers, the floating point area and the debug registers as the kernel
/// gave them; all other bytes as they were.
pub open spec fn spec_loaded_registers(
    old_image: Seq<u8>,
    gprs: Seq<u8>,
    fprs: Seq<u8>,
    debug_words: Seq<u64>,
    image: Seq<u8>,
) -> bool {
    &&& image.len() == USER_AREA_SIZE
    &&& image.subrange(0, USER_REGS_SIZE as int) == gprs
    &&& image.subrange(USER_REGS_SIZE as int, USER_FPREGS_OFFSET as int) == old_image.subrange(
        USER_REGS_SIZE as int,
        USER_FPREGS_OFFSET as int,
    )
    &&& image.subrange(USER_FPREGS_OFFSET as int, USER_FPREGS_OFFSET + USER_FPREGS_SIZE) == fprs
    &&& image.subrange(USER_FPREGS_OFFSET + USER_FPREGS_SIZE, USER_DEBUGREG_OFFSET as int)
        == old_image.subrange(USER_FPREGS_OFFSET + USER_FPREGS_SIZE, USER_DEBUGREG_OFFSET as int)
    &&& forall|i: int|
        0 <= i < 8 ==> #[trigger] image.subrange(
            USER_DEBUGREG_OFFSET + 8 * i,
            USER_DEBUGREG_OFFSET + 8 * i + 8,
        ) == spec_u64_to_le_bytes(debug_words[i])
}

/// One read of the registers of a traced process.
#[derive(Clone, Copy, Debug, PartialEq, Eq)]
pub enum RegisterRead {
    /// Read `struct user_regs_struct`.
    Gprs,
    /// Read `struct user_fpregs_struct`.
    Fprs,
    /// Read debug register `index`, the word of the user area at `offset`.
    DebugRegister { index: usize, offset: usize },
}

/// The reads of a process's registers, in their order: the general purpose
/// registers, the floating point area, then the eight debug registers one by
/// one. The first failed read ends them.
pub struct RegisterReads {
    gprs: Option<Vec<u8>>,
    fprs: Option<Vec<u8>>,
    debug: Vec<u64>,
    failure: Option<Error>,
}

/// The read that comes after those that `reads` holds, if any.
pub open spec fn spec_next_read(
    gprs: Option<Seq<u8>>,
    fprs: Option<Seq<u8>>,
    debug: Seq<u64>,
    failure: Option<Seq<char>>,
) -> Option<RegisterRead> {
    if failure is Some {
        None
    } else if gprs is None {
        Some(RegisterRead::Gprs)
    } else if fprs is None {
        Some(RegisterRead::Fprs)
    } else if debug.len() < 8 {
        Some(
            RegisterRead::DebugRegister {
                index: debug.len() as usize,
                offset: (USER_DEBUGREG_OFFSET + 8 * debug.len()) as usize,
            },
        )
    } else {
        None
    }
}

/// No read follows a failed one.
pub proof fn lemma_no_read_after_failure(
    gprs: Option<Seq<u8>>,
    fprs: Option<Seq<u8>>,
    debug: Seq<u64>,
    failure: Seq<char>,
)
    ensures
        spec_next_read(gprs, fprs, debug, Some(failure)) is None,
{
}

impl RegisterReads {
    #[verifier::type_invariant]
    spec fn wf(self) -> bool {
        &&& self.gprs matches Some(b) ==> b@.len() == USER_REGS_SIZE
        &&& self.fprs matches Some(b) ==> b@.len() == USER_FPREGS_SIZE
        &&& self.fprs is Some ==> self.gprs is Some
        &&& self.debug@.len() > 0 ==> self.fprs is Some
        &&& self.debug@.len() <= 8
    }

    /// The general purpose registers as read, if they were.
    pub closed spec fn spec_gprs(&self) -> Option<Seq<u8>> {
        match self.gprs {
            Some(b) => Some(b@),
            None => None,
        }
    }

    /// The floating point area as read, if it was.
    pub closed spec fn spec_fprs(&self) -> Option<Seq<u8>> {
        match self.fprs {
            Some(b) => Some(b@),
            None => None,
        }
    }

    /// The debug registers read so far.
    pub closed spec fn spec_debug(&self) -> Seq<u64> {
        self.debug@
    }

    /// The error of the failed read, if one failed.
    pub closed spec fn spec_failure(&self) -> Option<Seq<char>> {
        match self.failure {
            Some(e) => Some(e@),
            None => None,
        }
    }

    /// The read that comes next, if any.
    pub open spec fn spec_next_read(&self) -> Option<RegisterRead> {
        spec_next_read(self.spec_gprs(), self.spec_fprs(), self.spec_debug(), self.spec_failure())
    }

    /// No read made yet.
    pub fn new() -> (r: RegisterReads)
        ensures
            r.spec_gprs() is None,
            r.spec_fprs() is None,
            r.spec_debug() == Seq::<u64>::empty(),
            r.spec_failure() is None,
    {
        RegisterReads { gprs: None, fprs: None, debug: Vec::new(), failure: None }
    }

    /// The read to make next; none after the last or after a failed one.
    pub fn next_read(&self) -> (r: Option<RegisterRead>)
        ensures
            r == self.spec_next_read(),
    {
        proof {
            use_type_invariant(self);
        }
        if self.failure.is_some() {
            None
        } else if self.gprs.is_none() {
            Some(RegisterRead::Gprs)
        } else if self.fprs.is_none() {
            Some(RegisterRead::Fprs)
        } else if self.debug.len() < 8 {
            let index = self.debug.len();
            Some(RegisterRead::DebugRegister { index, offset: Process::debug_register_offset(index) })
        } else {
            None
        }
    }

    /// Records the outcome of reading the general purpose registers.
    pub fn record_gprs(&mut self, read: Result<Vec<u8>, String>)
        requires
            old(self).spec_next_read() == Some(RegisterRead::Gprs),
            read matches Ok(b) ==> b@.len() == USER_REGS_SIZE,
        ensures
            final(self).spec_fprs() == old(self).spec_fprs(),
            final(self).spec_debug() == old(self).spec_debug(),
            match read {
                Ok(b) => final(self).spec_gprs() == Some(b@) && final(self).spec_failure() is None,
                Err(reason) => final(self).spec_gprs() is None && final(self).spec_failure() == Some(
                    "Could not read GPR registers"@ + ": "@ + reason@,
                ),
            },
    {
        proof {
            use_type_invariant(&*self);
        }
        match read {
            Ok(bytes) => self.gprs = Some(bytes),
            Err(reason) => {
                self.failure = Some(Error::send_errno("Could not read GPR registers", reason.as_str()))
            },
        }
    }

    /// Records the outcome of reading the floating point area.
    pub fn record_fprs(&mut self, read: Result<Vec<u8>, String>)
        requires
            old(self).spec_next_read() == Some(RegisterRead::Fprs),
            read matches Ok(b) ==> b@.len() == USER_FPREGS_SIZE,
        ensures
            final(self).spec_gprs() == old(self).spec_gprs(),
            final(self).spec_debug() == old(self).spec_debug(),
            match read {
                Ok(b) => final(self).spec_fprs() == Some(b@) && final(self).spec_failure() is None,
                Err(reason) => final(self).spec_fprs() is None && final(self).spec_failure() == Some(
                    "Could not read FPR registers"@ + ": "@ + reason@,
                ),
            },
    {
        proof {
            use_type_invariant(&*self);
        }
        match read {
            Ok(bytes) => self.fprs = Some(bytes),
            Err(reason) => {
                self.failure = Some(Error::send_errno("Could not read FPR registers", reason.as_str()))
            },
        }
    }

    /// Records the outcome of reading the next debug register.
    pub fn record_debug_register(&mut self, read: Result<u64, String>)
        requires
            old(self).spec_next_read() matches Some(RegisterRead::DebugRegister { .. }),
        ensures
            final(self).spec_gprs() == old(self).spec_gprs(),
            final(self).spec_fprs() == old(self).spec_fprs(),
            match read {
                Ok(word) => final(self).spec_debug() == old(self).spec_debug().push(word)
                    && final(self).spec_failure() is None,
                Err(reason) => final(self).spec_debug() == old(self).spec_debug()
                    && final(self).spec_failure() == Some(
                    "Could not read from debug registers"@ + ": "@ + reason@,
                ),
            },
    {
        proof {
            use_type_invariant(&*self);
        }
        match read {
            Ok(word) => {
                let mut debug = self.debug.clone();
                assert(debug@ =~= self.debug@);
                debug.push(word);
                self.debug = debug;
            },
            Err(reason) => {
                self.failure = Some(
                    Error::send_errno("Could not read from debug registers", reason.as_str()),
                )
            },
        }
    }
}

/// A request to trace the running process with a positive pid.
pub struct AttachRequest {
    pid: pid_t,
}

impl AttachRequest {
    #[verifier::type_invariant]
    spec fn wf(self) -> bool {
        self.pid > 0
    }

    /// The pid of the process to trace.
    pub closed spec fn spec_pid(&self) -> pid_t {
        self.pid
    }

    /// The pid of the process to trace, always positive.
    pub fn pid(&self) -> (p: pid_t)
        ensures
            p == self.spec_pid(),
            p > 0,
    {
        proof {
            use_type_invariant(self);
        }
        self.pid
    }

    /// Takes over the process once the request was made; `attached` is its
    /// outcome. The process is attached, stopped, left running when the
    /// debugger lets go of it, and is to be waited for.
    pub fn attached(self, attached: Result<(), String>) -> (r: Result<Started, Error>)
        ensures
            match attached {
                Err(reason) => r matches Err(e) && e@ == "Couldn't attach to process"@ + ": "@
                    + reason@,
                Ok(_) => r matches Ok(started) && spec_is_fresh(
                    started.process,
                    self.spec_pid(),
                    false,
                    true,
                ) && started.wait_for_stop,
            },
    {
        match attached {
            Err(reason) => Err(Error::send_errno("Couldn't attach to process", reason.as_str())),
            Ok(()) => Ok(Started { process: Process::new(self.pid, false, true), wait_for_stop: true }),
        }
    }
}

/// A process the debugger took hold of, and whether to wait for it to stop
/// before anything else.
pub struct Started {
    pub process: Process,
    pub wait_for_stop: bool,
}

/// Where a launch stands after the fork.
pub enum Launched {
    /// The child failed to start the program: reap it.
    ReapFailedChild { pid: pid_t },
    /// The child runs the program.
    Started(Started),
}

/// `p` is a process just taken hold of: stopped, with a zeroed register file.
pub open spec fn spec_is_fresh(p: Process, pid: pid_t, terminate_on_end: bool, is_attached: bool) -> bool {
    &&& p.spec_pid() == pid
    &&& p.spec_terminate_on_end() == terminate_on_end
    &&& p.spec_is_attached() == is_attached
    &&& p.spec_state() == ProcessState::Stopped
    &&& p.spec_registers() matches Some(r) && r@ == crate::types::spec_zeros(USER_AREA_SIZE as nat)
}

impl Process {
    /// Pid of the process.
    pub closed spec fn spec_pid(&self) -> pid_t {
        self.pid
    }

    /// The process is ended when the debugger lets go of it.
    pub closed spec fn spec_terminate_on_end(&self) -> bool {
        self.terminate_on_end
    }

    /// The debugger traces the process.
    pub closed spec fn spec_is_attached(&self) -> bool {
        self.is_attached
    }

    /// The register file, as last read.
    pub closed spec fn spec_registers(&self) -> Option<Registers> {
        self.registers
    }

    /// What the process is doing, as last observed.
    pub closed spec fn spec_state(&self) -> ProcessState {
        self.state
    }

    /// A stopped process with a zeroed register file.
    pub fn new(pid: pid_t, terminate_on_end: bool, is_attached: bool) -> (p: Process)
        ensures
            p.spec_pid() == pid,
            p.spec_terminate_on_end() == terminate_on_end,
            p.spec_is_attached() == is_attached,
            p.spec_state() == ProcessState::Stopped,
            p.spec_registers() matches Some(r) && r@ == crate::types::spec_zeros(USER_AREA_SIZE as nat),
    {
        Process {
            pid,
            terminate_on_end,
            is_attached,
            state: ProcessState::Stopped,
            registers: Some(Registers::new()),
        }
    }

    /// Checks a pid before the request to trace it: only a positive pid may
    /// be traced, and only for one is a request handed out.
    pub fn attach(pid: pid_t) -> (r: Result<AttachRequest, Error>)
        ensures
            pid <= 0 ==> (r matches Err(e) && e@ == "Invalid pid"@),
            pid > 0 ==> (r matches Ok(request) && request.spec_pid() == pid),
    {
        if pid <= 0 {
            return Err(Error::send("Invalid pid"));
        }
        Ok(AttachRequest { pid })
    }

    /// Takes over a process just forked to run a program. `forked` is the
    /// outcome of the fork, with the child's pid; `child_report` is what the
    /// child wrote before failing to start the program, empty when it
    /// started. A child that failed is to be reaped, and its failure then
    /// read with `launch_failed`; a child that started is ended when the
    /// debugger lets go of it, and is waited for when it runs under the
    /// debugger.
    pub fn launch(forked: Result<pid_t, String>, debug: bool, child_report: &[u8]) -> (r: Result<
        Launched,
        Error,
    >)
        requires
            forked matches Ok(pid) ==> pid > 0,
        ensures
            match forked {
                Err(reason) => r matches Err(e) && e@ == "Fork failed"@ + ": "@ + reason@,
                Ok(pid) => if child_report@.len() > 0 {
                    r matches Ok(Launched::ReapFailedChild { pid: child }) && child == pid
                } else {
                    r matches Ok(Launched::Started(started)) && spec_is_fresh(
                        started.process,
                        pid,
                        true,
                        debug,
                    ) && started.wait_for_stop == debug
                },
            },
    {
        let pid = match forked {
            Err(reason) => return Err(Error::send_errno("Fork failed", reason.as_str())),
            Ok(pid) => pid,
        };
        if child_report.len() > 0 {
            return Ok(Launched::ReapFailedChild { pid });
        }
        Ok(Launched::Started(Started { process: Self::new(pid, true, debug), wait_for_stop: debug }))
    }

    /// The error of a launch whose child failed to start the program:
    /// `child_report` is what the child wrote, `reaped` the outcome of
    /// reaping it.
    pub fn launch_failed(child_report: &[u8], reaped: Result<(), String>) -> (e: Error)
        ensures
            match reaped {
                Err(reason) => e@ == "Waitpid failed"@ + ": "@ + reason@,
                Ok(_) => e@ == match spec_utf8_text(child_report@) {
                    Some(text) => text,
                    None => "Error building chars from pipe"@,
                },
            },
    {
        if let Err(reason) = reaped {
            return Error::send_errno("Waitpid failed", reason.as_str());
        }
        match utf8_text(child_report) {
            Some(text) => Error::send(text.as_str()),
            None => Error::send("Error building chars from pipe"),
        }
    }

    /// Records that the process was let run; `continued` is the outcome of
    /// the request to continue it.
    pub fn resume(&mut self, continued: Result<(), String>) -> (r: Result<(), Error>)
        ensures
            final(self).spec_pid() == old(self).spec_pid(),
            final(self).spec_is_attached() == old(self).spec_is_attached(),
            final(self).spec_terminate_on_end() == old(self).spec_terminate_on_end(),
            final(self).spec_registers() == old(self).spec_registers(),
            match continued {
                Err(reason) => r matches Err(e) && e@ == "Could not resume"@ + ": "@ + reason@
                    && final(self).spec_state() == old(self).spec_state(),
                Ok(_) => r is Ok && final(self).spec_state() == ProcessState::Running,
            },
    {
        match continued {
            Err(reason) => Err(Error::send_errno("Could not resume", reason.as_str())),
            Ok(()) => {
                self.state = ProcessState::Running;
                Ok(())
            },
        }
    }

    /// Records what a wait on the process observed; `waited` is the outcome
    /// of the wait, with the wait status.
    pub fn wait_on_signal(&mut self, waited: Result<i32, String>) -> (r: Result<StopReason, Error>)
        ensures
            final(self).spec_pid() == old(self).spec_pid(),
            final(self).spec_is_attached() == old(self).spec_is_attached(),
            final(self).spec_terminate_on_end() == old(self).spec_terminate_on_end(),
            final(self).spec_registers() == old(self).spec_registers(),
            match waited {
                Err(reason) => r matches Err(e) && e@ == "Waitpid failed"@ + ": "@ + reason@
                    && final(self).spec_state() == old(self).spec_state(),
                Ok(status) => r matches Ok(reason) && reason == spec_stop_reason(status)
                    && final(self).spec_state() == reason.reason,
            },
    {
        match waited {
            Err(reason) => Err(Error::send_errno("Waitpid failed", reason.as_str())),
            Ok(status) => {
                let reason = StopReason::new(status);
                self.state = reason.reason;
                Ok(reason)
            },
        }
    }

    /// After a wait, the registers are read again when the debugger traces the
    /// process and the process stopped.
    pub fn should_read_registers(&self) -> (b: bool)
        ensures
            b == (self.spec_is_attached() && self.spec_state() == ProcessState::Stopped),
    {
        self.is_attached && self.state == ProcessState::Stopped
    }

    /// Offset in the user area of debug register `index`, read one by one.
    pub fn debug_register_offset(index: usize) -> (o: usize)
        requires
            index < 8,
        ensures
            o == USER_DEBUGREG_OFFSET + 8 * index,
    {
        let id = match index {
            0 => RegisterId::dr0,
            1 => RegisterId::dr1,
            2 => RegisterId::dr2,
            3 => RegisterId::dr3,
            4 => RegisterId::dr4,
            5 => RegisterId::dr5,
            6 => RegisterId::dr6,
            _ => RegisterId::dr7,
        };
        proof {
            lemma_debug_register_offset(id);
        }
        register_info_by_id(id).unwrap().offset
    }

    /// Records the registers read from the process, once the reads are
    /// over. A failed read leaves the process without a register file and
    /// gives the read's error; otherwise the register file holds what the
    /// reads gave.
    pub fn read_all_registers(&mut self, reads: RegisterReads) -> (r: Result<(), Error>)
        requires
            old(self).spec_registers() is Some,
            reads.spec_next_read() is None,
        ensures
            final(self).spec_pid() == old(self).spec_pid(),
            final(self).spec_is_attached() == old(self).spec_is_attached(),
            final(self).spec_terminate_on_end() == old(self).spec_terminate_on_end(),
            final(self).spec_state() == old(self).spec_state(),
            reads.spec_failure() matches Some(message) ==> {
                &&& r matches Err(e) && e@ == message
                &&& final(self).spec_registers() is None
            },
            reads.spec_failure() is None ==> {
                &&& r is Ok
                &&& final(self).spec_registers() matches Some(regs)
                &&& old(self).spec_registers() matches Some(old_regs)
                &&& spec_loaded_registers(
                    old_regs@,
                    reads.spec_gprs().unwrap(),
                    reads.spec_fprs().unwrap(),
                    reads.spec_debug(),
                    regs@,
                )
            },
    {
        let mut regs = self.registers.take().unwrap();
        proof {
            use_type_invariant(&reads);
        }
        let RegisterReads { gprs, fprs, debug, failure } = reads;
        if let Some(error) = failure {
            return Err(error);
        }
        let gpr_bytes = gprs.unwrap();
        let fpr_bytes = fprs.unwrap();
        let ghost old_image = regs@;
        regs.store_gprs(gpr_bytes.as_slice());
        regs.store_fprs(fpr_bytes.as_slice());
        let ghost loaded = regs@;
        proof {
            assert(loaded.subrange(0, USER_REGS_SIZE as int) =~= gpr_bytes@);
            assert(loaded.subrange(USER_REGS_SIZE as int, USER_FPREGS_OFFSET as int)
                =~= old_image.subrange(USER_REGS_SIZE as int, USER_FPREGS_OFFSET as int));
            assert(loaded.subrange(USER_FPREGS_OFFSET as int, USER_FPREGS_OFFSET + USER_FPREGS_SIZE)
                =~= fpr_bytes@);
            assert(loaded.subrange(USER_FPREGS_OFFSET + USER_FPREGS_SIZE, USER_DEBUGREG_OFFSET as int)
                =~= old_image.subrange(USER_FPREGS_OFFSET + USER_FPREGS_SIZE, USER_DEBUGREG_OFFSET as int));
            lemma_auto_spec_u64_to_from_le_bytes();
        }
        let mut i: usize = 0;
        while i < 8
            invariant
                debug@.len() == 8,
                i <= 8,
                regs@.len() == USER_AREA_SIZE,
                loaded.len() == USER_AREA_SIZE,
                forall|k: int| 0 <= k < USER_DEBUGREG_OFFSET ==> regs@[k] == loaded[k],
                forall|j: int|
                    0 <= j < i ==> #[trigger] regs@.subrange(
                        USER_DEBUGREG_OFFSET + 8 * j,
                        USER_DEBUGREG_OFFSET + 8 * j + 8,
                    ) == spec_u64_to_le_bytes(debug@[j]),
            decreases 8 - i,
        {
            let ghost before = regs@;
            regs.store_debug_register(i, debug[i]);
            proof {
                lemma_auto_spec_u64_to_from_le_bytes();
                assert forall|j: int| 0 <= j < i implies #[trigger] regs@.subrange(
                    USER_DEBUGREG_OFFSET + 8 * j,
                    USER_DEBUGREG_OFFSET + 8 * j + 8,
                ) == spec_u64_to_le_bytes(debug@[j]) by {
                    assert(regs@.subrange(
                        USER_DEBUGREG_OFFSET + 8 * j,
                        USER_DEBUGREG_OFFSET + 8 * j + 8,
                    ) =~= before.subrange(
                        USER_DEBUGREG_OFFSET + 8 * j,
                        USER_DEBUGREG_OFFSET + 8 * j + 8,
                    ));
                }
                assert(regs@.subrange(
                    USER_DEBUGREG_OFFSET + 8 * i,
                    USER_DEBUGREG_OFFSET + 8 * i + 8,
                ) =~= spec_u64_to_le_bytes(debug@[i as int]));
            }
            i = i + 1;
        }
        proof {
            assert(regs@.subrange(0, USER_REGS_SIZE as int) =~= loaded.subrange(0, USER_REGS_SIZE as int));
            assert(regs@.subrange(USER_REGS_SIZE as int, USER_FPREGS_OFFSET as int)
                =~= loaded.subrange(USER_REGS_SIZE as int, USER_FPREGS_OFFSET as int));
            assert(regs@.subrange(USER_FPREGS_OFFSET as int, USER_FPREGS_OFFSET + USER_FPREGS_SIZE)
                =~= loaded.subrange(USER_FPREGS_OFFSET as int, USER_FPREGS_OFFSET + USER_FPREGS_SIZE));
            assert(regs@.subrange(USER_FPREGS_OFFSET + USER_FPREGS_SIZE, USER_DEBUGREG_OFFSET as int)
                =~= loaded.subrange(USER_FPREGS_OFFSET + USER_FPREGS_SIZE, USER_DEBUGREG_OFFSET as int));
        }
        self.registers = Some(regs);
        Ok(())
    }

    /// Records the outcome of carrying a register write to the process, by a
    /// poke of one word of the user area or by a store of the floating point
    /// area.
    pub fn write_user_area(&self, written: Result<(), String>) -> (r: Result<(), Error>)
        ensures
            match written {
                Err(reason) => r matches Err(e) && e@ == "Could not write to user area"@ + ": "@
                    + reason@,
                Ok(_) => r is Ok,
            },
    {
        match written {
            Err(reason) => Err(Error::send_errno("Could not write to user area", reason.as_str())),
            Ok(()) => Ok(()),
        }
    }

    /// The steps that let go of the process; see `spec_teardown_steps`.
    pub fn teardown_steps(&self) -> (steps: Vec<TeardownStep>)
        ensures
            steps@ == spec_teardown_steps(
                self.spec_pid(),
                self.spec_is_attached(),
                self.spec_terminate_on_end(),
                self.spec_state(),
            ),
    {
        let mut steps: Vec<TeardownStep> = Vec::new();
        if self.pid != 0 {
            if self.is_attached {
                if self.state == ProcessState::Running {
                    steps.push(TeardownStep::Kill(SIGNALS::SIGSTOP));
                    steps.push(TeardownStep::WaitPid);
                }
                steps.push(TeardownStep::Detach);
                steps.push(TeardownStep::Kill(SIGNALS::SIGCONT));
            }
            if self.terminate_on_end {
                steps.push(TeardownStep::Kill(SIGNALS::SIGINT));
                steps.push(TeardownStep::WaitPid);
            }
        }
        assert(steps@ =~= spec_teardown_steps(
            self.spec_pid(),
            self.spec_is_attached(),
            self.spec_terminate_on_end(),
            self.spec_state(),
        ));
        steps
    }

    /// Pid of the process.
    pub fn pid(&self) -> (p: pid_t)
        ensures
            p == self.spec_pid(),
    {
        self.pid
    }

    /// What the process is doing, as last observed.
    pub fn state(&self) -> (s: ProcessState)
        ensures
            s == self.spec_state(),
    {
        self.state
    }

    /// The debugger traces the process.
    pub fn is_attached(&self) -> (b: bool)
        ensures
            b == self.spec_is_attached(),
    {
        self.is_attached
    }

    /// The process is ended when the debugger lets go of it.
    pub fn terminate_on_end(&self) -> (b: bool)
        ensures
            b == self.spec_terminate_on_end(),
    {
        self.terminate_on_end
    }
}

} // verus!
