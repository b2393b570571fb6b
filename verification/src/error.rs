//! The error type of the debugger: a message.
use vstd::prelude::*;
use vstd::string::*;

verus! {

/// An error carrying a human-readable message.
#[derive(Debug)]
pub struct Error {
    err: String,
}

impl View for Error {
    type V = Seq<char>;

    /// The message of the error.
    closed spec fn view(&self) -> Seq<char> {
        self.err@
    }
}

impl Error {
    fn new(err: String) -> (e: Error)
        ensures
            e@ == err@,
    {
        Error { err }
    }

    /// An error whose message is `what`.
    pub fn send(what: &str) -> (e: Error)
        ensures
            e@ == what@,
    {
        Self::new(String::from_str(what))
    }

    /// An error whose message is `prefix`, a colon, a space and `reason`, the
    /// operating system's description of the last failure.
    pub fn send_errno(prefix: &str, reason: &str) -> (e: Error)
        ensures
            e@ == prefix@ + ": "@ + reason@,
    {
        let mut msg = String::from_str(prefix);
        msg.append(": ");
        msg.append(reason);
        Self::new(msg)
    }

    /// The message of the error.
    pub fn message(&self) -> (m: String)
        ensures
            m@ == self@,
    {
        self.err.clone()
    }
}

} // verus!
