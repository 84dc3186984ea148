use simple_cmd::errors::{CmdError, Error};
use simple_cmd::output::{Output, OutputExt, SIGINT, SIGKILL};
use simple_cmd::status::ExitStatus;
use std::io::{Error as IoError, ErrorKind};

fn output(status: ExitStatus, stdout: &[u8], stderr: &[u8]) -> Output {
    Output { status, stdout: stdout.to_vec(), stderr: stderr.to_vec() }
}

#[test]
fn successful_run_answers() {
    let o = output(ExitStatus::Exited(0), b"listing\n", b"");
    assert!(o.success());
    assert!(!o.error());
    assert!(o.has_stdout());
    assert!(!o.has_signal());
    assert!(!o.interrupt());
    assert!(!o.kill());
    assert!(o.signal().is_none());
}

#[test]
fn failed_run_answers() {
    let o = output(ExitStatus::Exited(1), b"", b"no such file\n");
    assert!(!o.success());
    assert!(o.error());
    assert!(!o.has_stdout());
    assert!(!o.has_signal());
    assert_eq!(o.signal(), None);
}

#[test]
fn killed_run_answers() {
    let o = output(ExitStatus::Signaled(9), b"", b"");
    assert!(!o.success());
    assert!(o.error());
    assert!(o.has_signal());
    assert_eq!(o.signal(), Some(9));
    assert!(o.kill());
    assert!(!o.interrupt());
    assert_eq!(SIGKILL, 9);
}

#[test]
fn interrupted_run_answers() {
    let o = output(ExitStatus::Signaled(2), b"", b"");
    assert!(o.has_signal());
    assert!(o.interrupt());
    assert!(!o.kill());
    assert_eq!(SIGINT, 2);
    let term = output(ExitStatus::Signaled(15), b"", b"");
    assert!(term.has_signal());
    assert!(!term.interrupt());
    assert!(!term.kill());
}

#[test]
fn exit_code_that_looks_like_a_signal_is_no_signal() {
    let o = output(ExitStatus::Exited(9), b"", b"");
    assert!(!o.kill());
    assert!(!o.has_signal());
    let o = output(ExitStatus::Other, b"", b"");
    assert!(!o.success());
    assert!(!o.has_signal());
}

#[test]
fn clean_run_gives_its_output() {
    let o = output(ExitStatus::Exited(0), b"data", b"");
    assert_eq!(o.to_result().unwrap(), b"data".to_vec());
}

#[test]
fn run_that_failed_or_complained_gives_an_error() {
    let failed = output(ExitStatus::Exited(2), b"out", b"");
    match failed.to_result() {
        Err(Error::CommandError(e)) => {
            assert_eq!(e, CmdError { status: Some(ExitStatus::Exited(2)), stdout: b"out".to_vec(), stderr: vec![] });
        }
        other => panic!("unexpected result {:?}", other),
    }
    let complained = output(ExitStatus::Exited(0), b"out", b"warn");
    match complained.to_result() {
        Err(Error::CommandError(e)) => {
            assert_eq!(e, CmdError { status: Some(ExitStatus::Exited(0)), stdout: b"out".to_vec(), stderr: b"warn".to_vec() });
        }
        other => panic!("unexpected result {:?}", other),
    }
    let killed = output(ExitStatus::Signaled(9), b"", b"");
    assert!(killed.to_result().is_err());
}

#[test]
fn try_to_result_counts_runs_without_an_exit_code() {
    let killed = output(ExitStatus::Signaled(9), b"partial", b"");
    assert_eq!(killed.try_to_result().unwrap(), b"partial".to_vec());
    let exited = output(ExitStatus::Exited(0), b"out", b"");
    match exited.try_to_result() {
        Err(Error::CommandError(e)) => assert_eq!(e.status, Some(ExitStatus::Exited(0))),
        other => panic!("unexpected result {:?}", other),
    }
    let noisy = output(ExitStatus::Signaled(9), b"", b"err");
    assert!(noisy.try_to_result().is_err());
}

#[test]
fn assemble_joins_status_and_bytes() {
    let run = Output::assemble(Some(ExitStatus::Exited(0)), Ok((b"o".to_vec(), b"e".to_vec()))).unwrap();
    assert_eq!(run, output(ExitStatus::Exited(0), b"o", b"e"));
}

#[test]
fn assemble_hands_a_drain_failure_on() {
    let failure = Error::IoError(IoError::new(ErrorKind::UnexpectedEof, "cut short"));
    match Output::assemble(Some(ExitStatus::Exited(0)), Err(failure)) {
        Err(Error::IoError(e)) => assert_eq!(e.kind(), ErrorKind::UnexpectedEof),
        other => panic!("unexpected result {:?}", other),
    }
    let failure = Error::IoError(IoError::new(ErrorKind::UnexpectedEof, "cut short"));
    assert!(Output::assemble(None, Err(failure)).is_err());
}
