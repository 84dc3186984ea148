//! The drainer of a supervised run.
//!
//! A child writes to up to two streams. The drainer reads the output stream to its end, then
//! the error stream, and keeps every byte. It does not read by itself: it says which stream
//! it wants read next, and is handed what each read produced. A read that produced nothing
//! marks the end of its stream; a read that failed ends the drain.

use vstd::prelude::*;
use crate::command::Cmd;
use crate::errors::Error;
use crate::lines::{is_split, lemma_split_lines, lemma_split_rebuilds, LinesVec};

verus! {

/// One of the two streams that a child writes to.
#[derive(Clone, Copy, Debug, PartialEq, Eq, Structural)]
pub enum Stream {
    Stdout,
    Stderr,
}

/// How far a drain has got.
#[derive(Clone, Copy, Debug, PartialEq, Eq, Structural)]
pub enum Stage {
    /// This stream is being read.
    Reading(Stream),
    /// Every stream has been read to its end.
    Done,
    /// A read failed.
    Failed,
}

/// The state of a drain.
pub struct DrainState {
    pub stage: Stage,
    /// Whether the error stream is still to be read once the output stream has ended.
    pub stderr_follows: bool,
    /// What has been read from the output stream.
    pub stdout: Seq<u8>,
    /// What has been read from the error stream.
    pub stderr: Seq<u8>,
}

/// The state of a drain that has read nothing yet, of a child with these streams.
pub open spec fn start(has_stdout: bool, has_stderr: bool) -> DrainState {
    DrainState {
        stage: if has_stdout {
            Stage::Reading(Stream::Stdout)
        } else if has_stderr {
            Stage::Reading(Stream::Stderr)
        } else {
            Stage::Done
        },
        stderr_follows: has_stdout && has_stderr,
        stdout: Seq::empty(),
        stderr: Seq::empty(),
    }
}

/// The state after a read of the current stream produced `chunk`. An empty chunk is the end
/// of the stream; any other is appended to what the stream has given so far. A drain that is
/// over takes nothing more.
pub open spec fn after_read(s: DrainState, chunk: Seq<u8>) -> DrainState {
    match s.stage {
        Stage::Reading(Stream::Stdout) => if chunk.len() == 0 {
            DrainState {
                stage: if s.stderr_follows {
                    Stage::Reading(Stream::Stderr)
                } else {
                    Stage::Done
                },
                stderr_follows: false,
                ..s
            }
        } else {
            DrainState { stdout: s.stdout + chunk, ..s }
        },
        Stage::Reading(Stream::Stderr) => if chunk.len() == 0 {
            DrainState { stage: Stage::Done, ..s }
        } else {
            DrainState { stderr: s.stderr + chunk, ..s }
        },
        _ => s,
    }
}

/// The state after a read of the current stream failed.
pub open spec fn after_failure(s: DrainState) -> DrainState {
    match s.stage {
        Stage::Reading(_) => DrainState { stage: Stage::Failed, ..s },
        _ => s,
    }
}

/// The state after one read after the other produced `chunks`.
pub open spec fn after_reads(s: DrainState, chunks: Seq<Seq<u8>>) -> DrainState
    decreases chunks.len(),
{
    if chunks.len() == 0 {
        s
    } else {
        after_reads(after_read(s, chunks[0]), chunks.drop_first())
    }
}

/// What the reads of one stream produce when the stream delivers `chunks` and then ends; a
/// stream that the child does not have is not read at all.
pub open spec fn reads_of(present: bool, chunks: Seq<Seq<u8>>) -> Seq<Seq<u8>> {
    if present {
        chunks.push(Seq::empty())
    } else {
        Seq::empty()
    }
}

/// Reading in two goes is reading in one.
pub proof fn lemma_after_reads_concat(s: DrainState, a: Seq<Seq<u8>>, b: Seq<Seq<u8>>)
    ensures
        after_reads(s, a + b) == after_reads(after_reads(s, a), b),
    decreases a.len(),
{
    if a.len() == 0 {
        assert(a + b =~= b);
    } else {
        assert((a + b).drop_first() =~= a.drop_first() + b);
        lemma_after_reads_concat(after_read(s, a[0]), a.drop_first(), b);
    }
}

/// While a stream delivers non-empty chunks, the drain stays with it and appends them in
/// order to what the stream has given so far; nothing else changes.
pub proof fn lemma_chunks_accumulate(s: DrainState, stream: Stream, chunks: Seq<Seq<u8>>)
    requires
        s.stage == Stage::Reading(stream),
        forall|i: int| 0 <= i < chunks.len() ==> (#[trigger] chunks[i]).len() > 0,
    ensures
        after_reads(s, chunks) == match stream {
            Stream::Stdout => DrainState { stdout: s.stdout + chunks.flatten(), ..s },
            Stream::Stderr => DrainState { stderr: s.stderr + chunks.flatten(), ..s },
        },
    decreases chunks.len(),
{
    if chunks.len() == 0 {
        assert(s.stdout + chunks.flatten() =~= s.stdout);
        assert(s.stderr + chunks.flatten() =~= s.stderr);
    } else {
        let s1 = after_read(s, chunks[0]);
        let rest = chunks.drop_first();
        assert forall|i: int| 0 <= i < rest.len() implies (#[trigger] rest[i]).len() > 0 by {
            assert(rest[i] == chunks[i + 1]);
        }
        lemma_chunks_accumulate(s1, stream, rest);
        assert(s.stdout + chunks[0] + rest.flatten() =~= s.stdout + chunks.flatten());
        assert(s.stderr + chunks[0] + rest.flatten() =~= s.stderr + chunks.flatten());
    }
}

/// A drain keeps every byte and mixes nothing up. Whatever non-empty chunks the output
/// stream and the error stream deliver before they end, and whichever of the two the child
/// has, the drain ends with exactly the bytes of each stream, in the order they came:
/// the buffer of a stream is the concatenation of its chunks and owes nothing to the other.
pub proof fn lemma_drain_keeps_every_byte(
    has_stdout: bool,
    has_stderr: bool,
    out: Seq<Seq<u8>>,
    err: Seq<Seq<u8>>,
)
    requires
        forall|i: int| 0 <= i < out.len() ==> (#[trigger] out[i]).len() > 0,
        forall|i: int| 0 <= i < err.len() ==> (#[trigger] err[i]).len() > 0,
    ensures
        ({
            let end = after_reads(
                start(has_stdout, has_stderr),
                reads_of(has_stdout, out) + reads_of(has_stderr, err),
            );
            &&& end.stage == Stage::Done
            &&& end.stdout == if has_stdout {
                out.flatten()
            } else {
                Seq::empty()
            }
            &&& end.stderr == if has_stderr {
                err.flatten()
            } else {
                Seq::empty()
            }
        }),
{
    let s0 = start(has_stdout, has_stderr);
    let eof = seq![Seq::<u8>::empty()];
    let a = reads_of(has_stdout, out);
    let b = reads_of(has_stderr, err);
    lemma_after_reads_concat(s0, a, b);
    let s1 = after_reads(s0, a);
    if has_stdout {
        assert(a =~= out + eof);
        lemma_after_reads_concat(s0, out, eof);
        lemma_chunks_accumulate(s0, Stream::Stdout, out);
        let mid = after_reads(s0, out);
        assert(eof.drop_first() =~= Seq::<Seq<u8>>::empty());
        assert(after_reads(mid, eof) == after_read(mid, eof[0])) by {
            reveal_with_fuel(after_reads, 2);
        }
        assert(s1.stdout =~= out.flatten());
    } else {
        assert(s1 == s0);
    }
    if has_stderr {
        assert(b =~= err + eof);
        lemma_after_reads_concat(s1, err, eof);
        lemma_chunks_accumulate(s1, Stream::Stderr, err);
        let mid = after_reads(s1, err);
        assert(eof.drop_first() =~= Seq::<Seq<u8>>::empty());
        assert(after_reads(mid, eof) == after_read(mid, eof[0])) by {
            reveal_with_fuel(after_reads, 2);
        }
        assert(after_reads(s1, b).stderr =~= err.flatten());
    } else {
        assert(after_reads(s1, b) == s1);
    }
}

/// Reading line by line changes nothing: when each stream is delivered as its lines,
/// delimiters included, the drain ends with the bytes of each stream exactly, whether or
/// not the last line of a stream ends in a line feed.
pub proof fn lemma_line_reads_keep_every_byte(
    stdout: Seq<u8>,
    stderr: Seq<u8>,
    out_lines: Seq<Seq<u8>>,
    err_lines: Seq<Seq<u8>>,
)
    requires
        is_split(out_lines, stdout),
        is_split(err_lines, stderr),
    ensures
        ({
            let end = after_reads(
                start(true, true),
                reads_of(true, out_lines) + reads_of(true, err_lines),
            );
            &&& end.stage == Stage::Done
            &&& end.stdout == stdout
            &&& end.stderr == stderr
        }),
{
    assert forall|i: int| 0 <= i < out_lines.len() implies (#[trigger] out_lines[i]).len()
        > 0 by {
        lemma_split_lines(out_lines, stdout, i);
    }
    assert forall|i: int| 0 <= i < err_lines.len() implies (#[trigger] err_lines[i]).len()
        > 0 by {
        lemma_split_lines(err_lines, stderr, i);
    }
    lemma_split_rebuilds(out_lines, stdout);
    lemma_split_rebuilds(err_lines, stderr);
    lemma_drain_keeps_every_byte(true, true, out_lines, err_lines);
}

/// The drainer of one run.
pub struct Drainer {
    stage: Stage,
    stderr_follows: bool,
    stdout: Vec<u8>,
    stderr: Vec<u8>,
}

impl View for Drainer {
    type V = DrainState;

    closed spec fn view(&self) -> DrainState {
        DrainState {
            stage: self.stage,
            stderr_follows: self.stderr_follows,
            stdout: self.stdout@,
            stderr: self.stderr@,
        }
    }
}

impl Drainer {
    /// A drainer for a child with these streams.
    pub fn new(has_stdout: bool, has_stderr: bool) -> (drainer: Drainer)
        ensures
            drainer@ == start(has_stdout, has_stderr),
    {
        let stage = if has_stdout {
            Stage::Reading(Stream::Stdout)
        } else if has_stderr {
            Stage::Reading(Stream::Stderr)
        } else {
            Stage::Done
        };
        Drainer {
            stage,
            stderr_follows: has_stdout && has_stderr,
            stdout: Vec::new(),
            stderr: Vec::new(),
        }
    }

    /// How far the drain has got.
    pub fn stage(&self) -> (stage: Stage)
        ensures
            stage == self@.stage,
    {
        self.stage
    }

    /// The stream to read next, if the drain is not over.
    pub fn wants(&self) -> (stream: Option<Stream>)
        ensures
            stream == match self@.stage {
                Stage::Reading(stream) => Some(stream),
                _ => None,
            },
    {
        match self.stage {
            Stage::Reading(stream) => Some(stream),
            _ => None,
        }
    }

    /// Takes what a read of the wanted stream produced: a chunk, empty at the end of the
    /// stream, or the failure of the read, which is handed back as the failure of the drain.
    pub fn on_read(&mut self, read: Result<Vec<u8>, std::io::Error>) -> (r: Result<(), Error>)
        ensures
            match read {
                Ok(chunk) => r is Ok && final(self)@ == after_read(old(self)@, chunk@),
                Err(e) => r == Err::<(), Error>(Error::IoError(e)) && final(self)@
                    == after_failure(old(self)@),
            },
    {
        match read {
            Ok(chunk) => {
                let mut chunk = chunk;
                match self.stage {
                    Stage::Reading(Stream::Stdout) => {
                        if chunk.len() == 0 {
                            self.stage = if self.stderr_follows {
                                Stage::Reading(Stream::Stderr)
                            } else {
                                Stage::Done
                            };
                            self.stderr_follows = false;
                        } else {
                            self.stdout.append(&mut chunk);
                        }
                    },
                    Stage::Reading(Stream::Stderr) => {
                        if chunk.len() == 0 {
                            self.stage = Stage::Done;
                        } else {
                            self.stderr.append(&mut chunk);
                        }
                    },
                    _ => {},
                }
                Ok(())
            },
            Err(e) => {
                match self.stage {
                    Stage::Reading(_) => {
                        self.stage = Stage::Failed;
                    },
                    _ => {},
                }
                Err(Error::IoError(e))
            },
        }
    }

    /// What the drain captured, output stream first, once every stream has been read to its
    /// end. A drain that is still going on, or that failed, has nothing to hand over.
    pub fn finish(self) -> (captured: Option<(Vec<u8>, Vec<u8>)>)
        ensures
            self@.stage == Stage::Done ==> captured is Some && captured.unwrap().0@
                == self@.stdout && captured.unwrap().1@ == self@.stderr,
            self@.stage != Stage::Done ==> captured is None,
    {
        match self.stage {
            Stage::Done => Some((self.stdout, self.stderr)),
            _ => None,
        }
    }
}

/// The bytes that a stream holds, none for a stream that is not there.
pub open spec fn bytes_of(stream: Option<LinesVec>) -> Seq<u8> {
    match stream {
        Some(lines) => lines@,
        None => Seq::empty(),
    }
}

/// How many reads a drain still has before it, counted generously: one for every byte left
/// and one for the end of every stream left.
spec fn reads_left(stage: Stage, stderr_follows: bool, out: Seq<u8>, err: Seq<u8>) -> nat {
    match stage {
        Stage::Reading(Stream::Stdout) => out.len() + 1 + if stderr_follows {
            err.len() + 1
        } else {
            0
        },
        Stage::Reading(Stream::Stderr) => err.len() + 1,
        _ => 0,
    }
}

impl Cmd {
    /// Drains two streams that are already in memory, line by line: the bytes of the output
    /// stream and of the error stream, each complete and in order. A stream that is not
    /// there gives no bytes.
    pub fn read_to_end(stdout: Option<LinesVec>, stderr: Option<LinesVec>) -> (captured: Result<
        (Vec<u8>, Vec<u8>),
        Error,
    >)
        ensures
            captured is Ok,
            captured->Ok_0.0@ == bytes_of(stdout),
            captured->Ok_0.1@ == bytes_of(stderr),
    {
        let mut drainer = Drainer::new(stdout.is_some(), stderr.is_some());
        let mut out = match stdout {
            Some(lines) => lines,
            None => LinesVec::new(Vec::new()),
        };
        let mut err = match stderr {
            Some(lines) => lines,
            None => LinesVec::new(Vec::new()),
        };
        assert(drainer@.stdout + out@ =~= bytes_of(stdout));
        assert(drainer@.stderr + err@ =~= bytes_of(stderr));
        loop
            invariant
                drainer@.stdout + out@ == bytes_of(stdout),
                drainer@.stderr + err@ == bytes_of(stderr),
                drainer@.stage != Stage::Failed,
                drainer@.stage == Stage::Reading(Stream::Stderr) ==> out@.len() == 0,
                drainer@.stage == Stage::Done ==> out@.len() == 0 && err@.len() == 0,
                drainer@.stage == Stage::Reading(Stream::Stdout) && !drainer@.stderr_follows
                    ==> err@.len() == 0,
            ensures
                drainer@.stage == Stage::Done,
                drainer@.stdout == bytes_of(stdout),
                drainer@.stderr == bytes_of(stderr),
            decreases reads_left(drainer@.stage, drainer@.stderr_follows, out@, err@),
        {
            let ghost before = drainer@;
            let ghost out_before = out@;
            let ghost err_before = err@;
            let chunk = match drainer.wants() {
                None => {
                    assert(drainer@.stdout =~= drainer@.stdout + out@);
                    assert(drainer@.stderr =~= drainer@.stderr + err@);
                    break ;
                },
                Some(Stream::Stdout) => out.next(),
                Some(Stream::Stderr) => err.next(),
            };
            let chunk = match chunk {
                Some(chunk) => chunk,
                None => Vec::new(),
            };
            let ghost read = chunk@;
            let _ = drainer.on_read(Ok(chunk));
            proof {
                if read.len() > 0 {
                    if before.stage == Stage::Reading(Stream::Stdout) {
                        assert(out_before =~= read + out@);
                        assert(drainer@.stdout + out@ =~= before.stdout + out_before);
                    } else {
                        assert(err_before =~= read + err@);
                        assert(drainer@.stderr + err@ =~= before.stderr + err_before);
                    }
                }
            }
        }
        Ok(drainer.finish().unwrap())
    }
}

} // verus!
