//! How a child process ended.

use vstd::prelude::*;
use vstd::string::StringExecFns;
use crate::text::{decimal, decimal_string};

verus! {

/// The way a child process terminated, as the operating system reports it.
#[derive(Clone, Copy, Debug, PartialEq, Eq, Structural)]
pub enum ExitStatus {
    /// The process returned from `main` or called `exit` with this code.
    Exited(i32),
    /// The process was terminated by the signal with this number.
    Signaled(i32),
    /// The process changed state without terminating (stopped or continued).
    Other,
}

impl ExitStatus {
    /// The exit code, for a process that exited by itself.
    pub open spec fn spec_code(self) -> Option<i32> {
        match self {
            ExitStatus::Exited(code) => Some(code),
            _ => None,
        }
    }

    /// The number of the terminating signal, for a process that was signaled.
    pub open spec fn spec_signal(self) -> Option<i32> {
        match self {
            ExitStatus::Signaled(signal) => Some(signal),
            _ => None,
        }
    }

    /// A process succeeded when it exited by itself with code zero.
    pub open spec fn spec_success(self) -> bool {
        self == ExitStatus::Exited(0)
    }

    #[verifier::when_used_as_spec(spec_code)]
    pub fn code(self) -> (code: Option<i32>)
        ensures
            code == self.spec_code(),
    {
        match self {
            ExitStatus::Exited(code) => Some(code),
            _ => None,
        }
    }

    #[verifier::when_used_as_spec(spec_signal)]
    pub fn signal(self) -> (signal: Option<i32>)
        ensures
            signal == self.spec_signal(),
    {
        match self {
            ExitStatus::Signaled(signal) => Some(signal),
            _ => None,
        }
    }

    #[verifier::when_used_as_spec(spec_success)]
    pub fn success(self) -> (ok: bool)
        ensures
            ok == self.spec_success(),
    {
        match self {
            ExitStatus::Exited(code) => code == 0,
            _ => false,
        }
    }
}

impl ExitStatus {
    /// The status in words: `exit status: N` for an exit with code `N`, `signal: N` for a
    /// termination by signal `N`.
    pub open spec fn text(self) -> Seq<char> {
        match self {
            ExitStatus::Exited(code) => "exit status: "@ + decimal(code as int),
            ExitStatus::Signaled(signal) => "signal: "@ + decimal(signal as int),
            ExitStatus::Other => "unrecognised wait status"@,
        }
    }

    /// The status in words.
    pub fn to_string(&self) -> (s: String)
        ensures
            s@ == self.text(),
    {
        match *self {
            ExitStatus::Exited(code) => String::from_str("exit status: ").concat(
                decimal_string(code).as_str(),
            ),
            ExitStatus::Signaled(signal) => String::from_str("signal: ").concat(
                decimal_string(signal).as_str(),
            ),
            ExitStatus::Other => String::from_str("unrecognised wait status"),
        }
    }
}

impl Default for ExitStatus {
    /// The status of a process that succeeded.
    fn default() -> (status: ExitStatus)
        ensures
            status == ExitStatus::Exited(0),
    {
        ExitStatus::Exited(0)
    }
}

} // verus!
