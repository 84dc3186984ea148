//! What a run that did not succeed leaves behind.

use vstd::prelude::*;
use vstd::string::{StringExecFns, StringSliceAdditionalSpecFns, StrSliceExecFns};
use vstd::std_specs::convert::FromSpecImpl;
use crate::output::Output;
use crate::status::ExitStatus;
use crate::text::{decimal, decimal_string, text_of, text_or_empty};

verus! {

/// `std::io::Error`, the failure of an operation of the operating system. It is carried
/// through as it is.
#[verifier::external_type_specification]
#[verifier::external_body]
pub struct ExIoError(std::io::Error);

/// How a command that ran ended, in the coarsest terms.
#[derive(Clone, Copy, Debug, PartialEq, Eq, Structural)]
pub enum Termination {
    /// The process exited by itself with this code.
    Exited(i32),
    /// The process was terminated by this signal; a kill by the supervisor shows up here.
    Signaled(i32),
    /// Nothing is known of how the process ended.
    Indeterminate,
}

/// The outcome of a command that failed: its status, if there is one, and what it wrote.
#[derive(Clone, PartialEq, Eq, Debug)]
pub struct CmdError {
    pub status: Option<ExitStatus>,
    pub stdout: Vec<u8>,
    pub stderr: Vec<u8>,
}

/// The first part of an error's message: the exit code where the process has one, else the
/// status in words. An error without a status is worded as a status of success.
pub open spec fn headline(status: Option<ExitStatus>) -> Seq<char> {
    match status {
        Some(ExitStatus::Exited(code)) => "exit code: "@ + decimal(code as int),
        Some(status) => "exit status: "@ + status.text(),
        None => "exit status: "@ + ExitStatus::Exited(0).text(),
    }
}

/// The second part of an error's message: the error stream if the process wrote to it, else
/// the output stream. A stream that is not valid UTF-8 is shown as empty.
pub open spec fn detail(stdout: Seq<u8>, stderr: Seq<u8>) -> Seq<char> {
    if stderr.len() > 0 {
        ", stderr: "@ + text_of(stderr)
    } else {
        ", stdout: "@ + text_of(stdout)
    }
}

impl CmdError {
    /// The error of a process that ended with `status` and wrote `stdout` and `stderr`.
    pub fn from_err(status: ExitStatus, stdout: Vec<u8>, stderr: Vec<u8>) -> (e: CmdError)
        ensures
            e.status == Some(status),
            e.stdout == stdout,
            e.stderr == stderr,
    {
        CmdError { status: Some(status), stdout, stderr }
    }

    /// The error of a process that ended with `status` and wrote nothing.
    pub fn from_status(status: ExitStatus) -> (e: CmdError)
        ensures
            e.status == Some(status),
            e.stdout@ == Seq::<u8>::empty(),
            e.stderr@ == Seq::<u8>::empty(),
    {
        CmdError { status: Some(status), stdout: Vec::new(), stderr: Vec::new() }
    }

    /// An error that is only a message: no status, and the message on the error stream.
    pub fn from_str(msg: &str) -> (e: CmdError)
        ensures
            e.status is None,
            e.stdout@ == Seq::<u8>::empty(),
            e.stderr@ == msg.spec_bytes(),
    {
        CmdError { status: None, stdout: Vec::new(), stderr: msg.as_bytes_vec() }
    }

    /// The exit code of the process, if it exited by itself.
    pub fn exit_code(&self) -> (code: Option<i32>)
        ensures
            code == match self.status {
                Some(status) => status.code(),
                None => None,
            },
    {
        match self.status {
            Some(s) => s.code(),
            None => None,
        }
    }

    /// How the process ended.
    pub open spec fn spec_termination(&self) -> Termination {
        match self.status {
            Some(ExitStatus::Exited(code)) => Termination::Exited(code),
            Some(ExitStatus::Signaled(signal)) => Termination::Signaled(signal),
            _ => Termination::Indeterminate,
        }
    }

    /// How the process ended.
    #[verifier::when_used_as_spec(spec_termination)]
    pub fn termination(&self) -> (t: Termination)
        ensures
            t == self.spec_termination(),
    {
        match self.status {
            Some(ExitStatus::Exited(code)) => Termination::Exited(code),
            Some(ExitStatus::Signaled(signal)) => Termination::Signaled(signal),
            _ => Termination::Indeterminate,
        }
    }

    /// The error as one line of text.
    pub fn to_string(&self) -> (s: String)
        ensures
            s@ == headline(self.status) + detail(self.stdout@, self.stderr@),
    {
        let mut s = match self.status {
            Some(ExitStatus::Exited(code)) => String::from_str("exit code: ").concat(
                decimal_string(code).as_str(),
            ),
            Some(status) => String::from_str("exit status: ").concat(status.to_string().as_str()),
            None => String::from_str("exit status: ").concat(
                ExitStatus::default().to_string().as_str(),
            ),
        };
        if !self.stderr.is_empty() {
            s.append(", stderr: ");
            s.append(text_or_empty(&self.stderr).as_str());
        } else {
            s.append(", stdout: ");
            s.append(text_or_empty(&self.stdout).as_str());
        }
        assert(s@ =~= headline(self.status) + detail(self.stdout@, self.stderr@));
        s
    }
}

impl From<Output> for CmdError {
    fn from(value: Output) -> (e: CmdError) {
        CmdError::from_err(value.status, value.stdout, value.stderr)
    }
}

impl FromSpecImpl<Output> for CmdError {
    open spec fn obeys_from_spec() -> bool {
        true
    }

    open spec fn from_spec(value: Output) -> CmdError {
        CmdError { status: Some(value.status), stdout: value.stdout, stderr: value.stderr }
    }
}

/// Why a run produced no output to use.
#[derive(Debug)]
pub enum Error {
    /// The command ran and failed.
    CommandError(CmdError),
    /// The operating system refused something: the spawn, a read, a thread.
    IoError(std::io::Error),
}

impl From<CmdError> for Error {
    fn from(value: CmdError) -> (e: Error) {
        Error::CommandError(value)
    }
}

impl FromSpecImpl<CmdError> for Error {
    open spec fn obeys_from_spec() -> bool {
        true
    }

    open spec fn from_spec(value: CmdError) -> Error {
        Error::CommandError(value)
    }
}

impl From<std::io::Error> for Error {
    fn from(value: std::io::Error) -> (e: Error) {
        Error::IoError(value)
    }
}

impl FromSpecImpl<std::io::Error> for Error {
    open spec fn obeys_from_spec() -> bool {
        true
    }

    open spec fn from_spec(value: std::io::Error) -> Error {
        Error::IoError(value)
    }
}

impl From<Output> for Error {
    fn from(value: Output) -> (e: Error) {
        Error::CommandError(CmdError::from_err(value.status, value.stdout, value.stderr))
    }
}

impl FromSpecImpl<Output> for Error {
    open spec fn obeys_from_spec() -> bool {
        true
    }

    open spec fn from_spec(value: Output) -> Error {
        Error::CommandError(
            CmdError { status: Some(value.status), stdout: value.stdout, stderr: value.stderr },
        )
    }
}

} // verus!
