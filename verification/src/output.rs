//! The terminal result of a run.

use vstd::prelude::*;
use crate::errors::{CmdError, Error};
use crate::signals::{sigint, sigkill};
use crate::status::ExitStatus;

verus! {

/// The number of the interrupt signal.
pub const SIGINT: i32 = 2;

/// The number of the signal that a kill sends.
pub const SIGKILL: i32 = 9;

/// What a finished run produced: the status of its process and everything the process wrote.
#[derive(Clone, PartialEq, Eq, Debug)]
pub struct Output {
    pub status: ExitStatus,
    pub stdout: Vec<u8>,
    pub stderr: Vec<u8>,
}

/// Questions about a terminal result.
pub trait OutputExt {
    /// Whether the process exited with code zero.
    fn success(&self) -> bool;

    /// Whether the process did anything but exit with code zero.
    fn error(&self) -> bool;

    /// Whether the process wrote anything to its output stream.
    fn has_stdout(&self) -> bool;

    /// Whether a signal terminated the process.
    fn has_signal(&self) -> bool;

    /// The signal that terminated the process.
    fn signal(&self) -> Option<i32>;

    /// Whether the interrupt signal terminated the process.
    fn interrupt(&self) -> bool;

    /// Whether the process was killed.
    fn kill(&self) -> bool;
}

impl OutputExt for Output {
    fn success(&self) -> (ok: bool)
        ensures
            ok == (self.status == ExitStatus::Exited(0)),
    {
        self.status.success()
    }

    fn error(&self) -> (failed: bool)
        ensures
            failed == (self.status != ExitStatus::Exited(0)),
    {
        !self.status.success()
    }

    fn has_stdout(&self) -> (any: bool)
        ensures
            any == (self.stdout@.len() > 0),
    {
        !self.stdout.is_empty()
    }

    fn has_signal(&self) -> (signaled: bool)
        ensures
            signaled == (self.status is Signaled),
    {
        self.status.signal().is_some()
    }

    fn signal(&self) -> (signal: Option<i32>)
        ensures
            signal == self.status.signal(),
    {
        self.status.signal()
    }

    fn interrupt(&self) -> (interrupted: bool)
        ensures
            interrupted == (self.status == ExitStatus::Signaled(SIGINT)),
    {
        match self.status.signal() {
            Some(signal) => signal == sigint(),
            None => false,
        }
    }

    fn kill(&self) -> (killed: bool)
        ensures
            killed == (self.status == ExitStatus::Signaled(SIGKILL)),
    {
        match self.status.signal() {
            Some(signal) => signal == sigkill(),
            None => false,
        }
    }
}

impl Output {
    /// Puts the two halves of a run together: the status that its monitor recorded and the
    /// bytes that its drainer captured. A failed drain fails the run, whatever the status.
    /// A drain that succeeded needs the status to be there.
    pub fn assemble(status: Option<ExitStatus>, captured: Result<(Vec<u8>, Vec<u8>), Error>) -> (run:
        Result<Output, Error>)
        requires
            captured is Ok ==> status is Some,
        ensures
            match captured {
                Ok((stdout, stderr)) => run == Ok::<Output, Error>(
                    Output { status: status.unwrap(), stdout, stderr },
                ),
                Err(e) => run == Err::<Output, Error>(e),
            },
    {
        match captured {
            Ok((stdout, stderr)) => Ok(Output { status: status.unwrap(), stdout, stderr }),
            Err(e) => Err(e),
        }
    }

    /// Whether the run is of use as it stands: the process succeeded and wrote nothing to
    /// its error stream.
    pub open spec fn is_clean(&self) -> bool {
        self.status == ExitStatus::Exited(0) && self.stderr@.len() == 0
    }

    /// The error that this result underlies when it is not of use.
    pub open spec fn as_error(&self) -> Error {
        Error::CommandError(
            CmdError { status: Some(self.status), stdout: self.stdout, stderr: self.stderr },
        )
    }

    /// The captured output of a run that succeeded and wrote nothing to its error stream;
    /// for any other run, an error that carries status, output and error stream.
    pub fn to_result(&self) -> (r: Result<Vec<u8>, Error>)
        ensures
            self.is_clean() ==> r is Ok && r->Ok_0@ == self.stdout@,
            !self.is_clean() ==> r is Err && r->Err_0 is CommandError && {
                let e = r->Err_0->CommandError_0;
                &&& e.status == Some(self.status)
                &&& e.stdout@ == self.stdout@
                &&& e.stderr@ == self.stderr@
            },
    {
        if self.status.success() && self.stderr.is_empty() {
            Ok(self.stdout.clone())
        } else {
            Err(
                Error::CommandError(
                    CmdError::from_err(self.status, self.stdout.clone(), self.stderr.clone()),
                ),
            )
        }
    }

    /// Like [`Output::to_result`], for a process that is not expected to exit by itself:
    /// the output counts when the process has no exit code and wrote nothing to its error
    /// stream.
    pub fn try_to_result(&self) -> (r: Result<Vec<u8>, Error>)
        ensures
            (self.status.code() is None && self.stderr@.len() == 0) ==> r is Ok && r->Ok_0@
                == self.stdout@,
            !(self.status.code() is None && self.stderr@.len() == 0) ==> r is Err && r->Err_0 is CommandError
                && {
                let e = r->Err_0->CommandError_0;
                &&& e.status == Some(self.status)
                &&& e.stdout@ == self.stdout@
                &&& e.stderr@ == self.stderr@
            },
    {
        if self.status.code().is_none() && self.stderr.is_empty() {
            Ok(self.stdout.clone())
        } else {
            Err(
                Error::CommandError(
                    CmdError::from_err(self.status, self.stdout.clone(), self.stderr.clone()),
                ),
            )
        }
    }
}

} // verus!
