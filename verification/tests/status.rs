use simple_cmd::status::ExitStatus;

#[test]
fn exit_has_a_code_and_no_signal() {
    let s = ExitStatus::Exited(5);
    assert_eq!(s.code(), Some(5));
    assert_eq!(s.signal(), None);
    assert!(!s.success());
    assert!(ExitStatus::Exited(0).success());
}

#[test]
fn signal_has_no_code() {
    let s = ExitStatus::Signaled(9);
    assert_eq!(s.code(), None);
    assert_eq!(s.signal(), Some(9));
    assert!(!s.success());
    assert_eq!(ExitStatus::Other.code(), None);
    assert_eq!(ExitStatus::Other.signal(), None);
    assert!(!ExitStatus::Other.success());
}

#[test]
fn default_status_is_success() {
    assert_eq!(ExitStatus::default(), ExitStatus::Exited(0));
}

#[test]
fn status_in_words() {
    assert_eq!(ExitStatus::Exited(0).to_string(), "exit status: 0");
    assert_eq!(ExitStatus::Exited(255).to_string(), "exit status: 255");
    assert_eq!(ExitStatus::Signaled(15).to_string(), "signal: 15");
    assert_eq!(ExitStatus::Other.to_string(), "unrecognised wait status");
}
