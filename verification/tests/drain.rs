use simple_cmd::drain::{Drainer, Stage, Stream};
use simple_cmd::errors::Error;
use simple_cmd::{Cmd, LinesVec};
use std::io::{Error as IoError, ErrorKind};

fn drain(stdout: Option<&[u8]>, stderr: Option<&[u8]>) -> (Vec<u8>, Vec<u8>) {
    let mut out = stdout.map(|bytes| LinesVec::new(bytes.to_vec()));
    let mut err = stderr.map(|bytes| LinesVec::new(bytes.to_vec()));
    let mut drainer = Drainer::new(out.is_some(), err.is_some());
    while let Some(stream) = drainer.wants() {
        let source = match stream {
            Stream::Stdout => out.as_mut().unwrap(),
            Stream::Stderr => err.as_mut().unwrap(),
        };
        let chunk = source.next().unwrap_or_default();
        drainer.on_read(Ok(chunk)).unwrap();
    }
    drainer.finish().unwrap()
}

#[test]
fn drain_keeps_every_byte_of_both_streams() {
    let (out, err) = drain(Some(b"line 1\nline 2\n"), Some(b"warning\nno newline at end"));
    assert_eq!(out, b"line 1\nline 2\n".to_vec());
    assert_eq!(err, b"warning\nno newline at end".to_vec());
}

#[test]
fn filtered_text_comes_out_byte_for_byte() {
    // What `printf 'a.\nb\nc.\n' | grep '\.$'` hands to the drainer of the downstream child.
    let (out, err) = drain(Some(b"a.\nc.\n"), Some(b""));
    assert_eq!(out, b"a.\nc.\n".to_vec());
    assert_eq!(err, Vec::<u8>::new());
    assert_eq!(LinesVec::new(out).collect().len(), 2);
}

#[test]
fn absent_streams_are_not_read() {
    assert_eq!(drain(None, None), (vec![], vec![]));
    assert_eq!(drain(Some(b"x"), None), (b"x".to_vec(), vec![]));
    assert_eq!(drain(None, Some(b"y\n")), (vec![], b"y\n".to_vec()));
    let drainer = Drainer::new(false, false);
    assert_eq!(drainer.wants(), None);
    assert_eq!(drainer.stage(), Stage::Done);
    let drainer = Drainer::new(false, true);
    assert_eq!(drainer.wants(), Some(Stream::Stderr));
}

#[test]
fn output_stream_is_read_to_its_end_first() {
    let mut drainer = Drainer::new(true, true);
    assert_eq!(drainer.wants(), Some(Stream::Stdout));
    drainer.on_read(Ok(b"a\n".to_vec())).unwrap();
    assert_eq!(drainer.wants(), Some(Stream::Stdout));
    drainer.on_read(Ok(b"b".to_vec())).unwrap();
    assert_eq!(drainer.wants(), Some(Stream::Stdout));
    drainer.on_read(Ok(vec![])).unwrap();
    assert_eq!(drainer.wants(), Some(Stream::Stderr));
    drainer.on_read(Ok(b"e\n".to_vec())).unwrap();
    assert_eq!(drainer.wants(), Some(Stream::Stderr));
    drainer.on_read(Ok(vec![])).unwrap();
    assert_eq!(drainer.wants(), None);
    assert_eq!(drainer.stage(), Stage::Done);
    assert_eq!(drainer.finish(), Some((b"a\nb".to_vec(), b"e\n".to_vec())));
}

#[test]
fn reads_after_the_end_are_dropped() {
    let mut drainer = Drainer::new(true, false);
    drainer.on_read(Ok(b"a".to_vec())).unwrap();
    drainer.on_read(Ok(vec![])).unwrap();
    assert_eq!(drainer.stage(), Stage::Done);
    drainer.on_read(Ok(b"late".to_vec())).unwrap();
    assert_eq!(drainer.stage(), Stage::Done);
    assert_eq!(drainer.finish(), Some((b"a".to_vec(), vec![])));
}

#[test]
fn failed_read_fails_the_drain() {
    let mut drainer = Drainer::new(true, true);
    drainer.on_read(Ok(b"partial".to_vec())).unwrap();
    let failure = drainer.on_read(Err(IoError::new(ErrorKind::BrokenPipe, "pipe broke")));
    match failure {
        Err(Error::IoError(e)) => {
            assert_eq!(e.kind(), ErrorKind::BrokenPipe);
            assert_eq!(e.to_string(), "pipe broke");
        }
        other => panic!("unexpected result {:?}", other),
    }
    assert_eq!(drainer.stage(), Stage::Failed);
    assert_eq!(drainer.wants(), None);
    assert_eq!(drainer.finish(), None);
}

#[test]
fn unfinished_drain_hands_nothing_over() {
    let mut drainer = Drainer::new(true, true);
    drainer.on_read(Ok(b"a".to_vec())).unwrap();
    assert_eq!(drainer.finish(), None);
    let mut drainer = Drainer::new(true, true);
    drainer.on_read(Ok(vec![])).unwrap();
    assert_eq!(drainer.stage(), Stage::Reading(Stream::Stderr));
    assert_eq!(drainer.finish(), None);
}

#[test]
fn failure_after_the_end_changes_nothing() {
    let mut drainer = Drainer::new(false, true);
    drainer.on_read(Ok(vec![])).unwrap();
    assert!(drainer.on_read(Err(IoError::new(ErrorKind::Other, "late"))).is_err());
    assert_eq!(drainer.stage(), Stage::Done);
    assert_eq!(drainer.finish(), Some((vec![], vec![])));
}

#[test]
fn read_to_end_gives_both_streams_whole() {
    let stdout = LinesVec::new(b"a.\nc.\n".to_vec());
    let stderr = LinesVec::new(b"warn\nlast".to_vec());
    let (out, err) = Cmd::read_to_end(Some(stdout), Some(stderr)).unwrap();
    assert_eq!(out, b"a.\nc.\n".to_vec());
    assert_eq!(err, b"warn\nlast".to_vec());
}

#[test]
fn read_to_end_of_absent_streams_is_empty() {
    assert_eq!(Cmd::read_to_end(None, None).unwrap(), (vec![], vec![]));
    let (out, err) = Cmd::read_to_end(None, Some(LinesVec::new(b"e".to_vec()))).unwrap();
    assert_eq!((out, err), (vec![], b"e".to_vec()));
    let (out, err) = Cmd::read_to_end(Some(LinesVec::new(b"\n\n".to_vec())), None).unwrap();
    assert_eq!((out, err), (b"\n\n".to_vec(), vec![]));
}

#[test]
fn read_to_end_starts_where_the_cursor_stands() {
    let mut stdout = LinesVec::new(b"skip\nkeep\n".to_vec());
    assert_eq!(stdout.next(), Some(b"skip\n".to_vec()));
    let (out, _) = Cmd::read_to_end(Some(stdout), None).unwrap();
    assert_eq!(out, b"keep\n".to_vec());
}
