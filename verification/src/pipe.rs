//! A pipe between the debugger and a child it starts, as a pair of file
//! descriptors. The descriptors are created, read, written and closed by the
//! caller; the pipe records which of them are still open.
use vstd::prelude::*;
use crate::bindings::O_CLOEXEC;

verus! {

/// Index of the read end.
pub const READ_FD: usize = 0;

/// Index of the write end.
pub const WRITE_FD: usize = 1;

/// Size of the buffer one read of the pipe fills.
pub const BUF_SIZE: usize = 1024;

/// The descriptor value of a closed end.
pub const CLOSED_FD: i32 = -1;

/// A pipe: its read end and its write end.
pub struct Pipe {
    fds: [i32; 2],
}

/// What closing an end with descriptor `fd` yields: the descriptor to close,
/// if the end was open, and the end's new descriptor.
pub open spec fn spec_close_end(fd: i32) -> (Option<i32>, i32) {
    if fd != CLOSED_FD {
        (Some(fd), CLOSED_FD)
    } else {
        (None, fd)
    }
}

/// The operating system fills in the read end first and the write end
/// second, and a closed end has no valid descriptor. Closing an open end yields its descriptor to close and leaves it closed;
/// closing a closed end yields nothing.
pub proof fn lemma_close_end(fd: i32)
    ensures
        READ_FD == 0 && WRITE_FD == 1,
        CLOSED_FD < 0,
        fd != CLOSED_FD ==> spec_close_end(fd) == (Some(fd), CLOSED_FD),
        fd == CLOSED_FD ==> spec_close_end(fd) == (None::<i32>, CLOSED_FD),
{
}

/// An end is closed at most once: closing it again yields nothing to close.
pub proof fn lemma_close_end_once(fd: i32)
    ensures
        spec_close_end(spec_close_end(fd).1).0 is None,
        spec_close_end(spec_close_end(fd).1).1 == spec_close_end(fd).1,
{
}

impl Pipe {
    /// Descriptor of the read end.
    pub closed spec fn spec_read_fd(&self) -> i32 {
        self.fds[READ_FD as int]
    }

    /// Descriptor of the write end.
    pub closed spec fn spec_write_fd(&self) -> i32 {
        self.fds[WRITE_FD as int]
    }

    /// The flags with which to create the pipe.
    pub fn creation_flags(close_on_exec: bool) -> (f: i32)
        ensures
            f == if close_on_exec { O_CLOEXEC } else { 0 },
    {
        match close_on_exec {
            true => O_CLOEXEC,
            false => 0,
        }
    }

    /// The pipe whose read end is `fds[0]` and whose write end is `fds[1]`,
    /// as the operating system filled them in.
    pub fn new(fds: [i32; 2]) -> (p: Pipe)
        ensures
            p.spec_read_fd() == fds[READ_FD as int],
            p.spec_write_fd() == fds[WRITE_FD as int],
    {
        Pipe { fds }
    }

    /// Descriptor of the read end.
    pub fn get_read(&self) -> (fd: i32)
        ensures
            fd == self.spec_read_fd(),
    {
        self.fds[READ_FD]
    }

    /// Descriptor of the write end.
    pub fn get_write(&self) -> (fd: i32)
        ensures
            fd == self.spec_write_fd(),
    {
        self.fds[WRITE_FD]
    }

    /// Marks the read end closed; yields the descriptor to close, if it was open.
    pub fn close_read(&mut self) -> (closed: Option<i32>)
        ensures
            (closed, final(self).spec_read_fd()) == spec_close_end(old(self).spec_read_fd()),
            final(self).spec_write_fd() == old(self).spec_write_fd(),
    {
        let fd = self.fds[READ_FD];
        if fd != CLOSED_FD {
            self.fds[READ_FD] = CLOSED_FD;
            Some(fd)
        } else {
            None
        }
    }

    /// Marks the write end closed; yields the descriptor to close, if it was open.
    pub fn close_write(&mut self) -> (closed: Option<i32>)
        ensures
            (closed, final(self).spec_write_fd()) == spec_close_end(old(self).spec_write_fd()),
            final(self).spec_read_fd() == old(self).spec_read_fd(),
    {
        let fd = self.fds[WRITE_FD];
        if fd != CLOSED_FD {
            self.fds[WRITE_FD] = CLOSED_FD;
            Some(fd)
        } else {
            None
        }
    }
}

} // verus!
