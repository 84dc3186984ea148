//! Captured bytes, cut into lines without losing a byte.
//!
//! A line is everything up to and including a line feed; what follows the last line feed is a
//! line too, though it has no delimiter. The lines of a buffer, put together again, are the
//! buffer.

use vstd::prelude::*;

verus! {

/// The line feed, the byte that ends a line.
pub const NEWLINE: u8 = 10;

/// Whether `line` is the first line of `bytes`: a non-empty prefix that stops at the first
/// line feed, or at the end of `bytes` where there is none.
pub open spec fn is_first_line(line: Seq<u8>, bytes: Seq<u8>) -> bool {
    &&& 0 < line.len() <= bytes.len()
    &&& line == bytes.take(line.len() as int)
    &&& forall|i: int| 0 <= i < line.len() - 1 ==> line[i] != NEWLINE
    &&& (line.last() == NEWLINE || line.len() == bytes.len())
}

/// Whether `lines` is `bytes` cut into its lines, in order.
pub open spec fn is_split(lines: Seq<Seq<u8>>, bytes: Seq<u8>) -> bool
    decreases lines.len(),
{
    if lines.len() == 0 {
        bytes.len() == 0
    } else {
        &&& is_first_line(lines[0], bytes)
        &&& is_split(lines.drop_first(), bytes.skip(lines[0].len() as int))
    }
}

/// A buffer has one first line only.
pub proof fn lemma_first_line_unique(a: Seq<u8>, b: Seq<u8>, bytes: Seq<u8>)
    requires
        is_first_line(a, bytes),
        is_first_line(b, bytes),
    ensures
        a == b,
{
    if a.len() < b.len() {
        assert(a.last() == NEWLINE);
        assert(b[a.len() - 1] == bytes[a.len() - 1]);
        assert(a[a.len() - 1] == bytes[a.len() - 1]);
    } else if b.len() < a.len() {
        assert(b.last() == NEWLINE);
        assert(a[b.len() - 1] == bytes[b.len() - 1]);
        assert(b[b.len() - 1] == bytes[b.len() - 1]);
    }
    assert(a =~= b);
}

/// A buffer is cut into lines in one way only.
pub proof fn lemma_split_unique(x: Seq<Seq<u8>>, y: Seq<Seq<u8>>, bytes: Seq<u8>)
    requires
        is_split(x, bytes),
        is_split(y, bytes),
    ensures
        x == y,
    decreases x.len(),
{
    if x.len() == 0 || y.len() == 0 {
        assert(x.len() == 0 && y.len() == 0);
        assert(x =~= y);
    } else {
        lemma_first_line_unique(x[0], y[0], bytes);
        lemma_split_unique(x.drop_first(), y.drop_first(), bytes.skip(x[0].len() as int));
        assert(x =~= seq![x[0]] + x.drop_first());
        assert(y =~= seq![y[0]] + y.drop_first());
    }
}

/// Cutting into lines loses nothing and adds nothing: the lines of a buffer, concatenated
/// in order, are the buffer, byte for byte, whether or not it ends in a line feed.
pub proof fn lemma_split_rebuilds(lines: Seq<Seq<u8>>, bytes: Seq<u8>)
    requires
        is_split(lines, bytes),
    ensures
        lines.flatten() == bytes,
    decreases lines.len(),
{
    if lines.len() == 0 {
        assert(lines.flatten() =~= bytes);
    } else {
        let n = lines[0].len() as int;
        lemma_split_rebuilds(lines.drop_first(), bytes.skip(n));
        assert(bytes =~= bytes.take(n) + bytes.skip(n));
    }
}

/// No line of a buffer is empty, and only the last can lack the line feed.
pub proof fn lemma_split_lines(lines: Seq<Seq<u8>>, bytes: Seq<u8>, i: int)
    requires
        is_split(lines, bytes),
        0 <= i < lines.len(),
    ensures
        lines[i].len() > 0,
        i < lines.len() - 1 ==> lines[i].last() == NEWLINE,
    decreases lines.len(),
{
    let rest = bytes.skip(lines[0].len() as int);
    if i == 0 {
        if lines.len() > 1 {
            assert(is_split(lines.drop_first(), rest));
            assert(is_first_line(lines.drop_first()[0], rest));
        }
    } else {
        lemma_split_lines(lines.drop_first(), rest, i - 1);
    }
}

/// The contents of a list of buffers.
pub open spec fn contents(buffers: Seq<Vec<u8>>) -> Seq<Seq<u8>> {
    buffers.map_values(|buffer: Vec<u8>| buffer@)
}

/// A cursor that hands out a captured buffer line by line, delimiters included.
pub struct LinesVec {
    buf: Vec<u8>,
    pos: usize,
}

impl View for LinesVec {
    type V = Seq<u8>;

    /// The bytes not handed out yet.
    closed spec fn view(&self) -> Seq<u8> {
        self.buf@.skip(self.pos as int)
    }
}

impl LinesVec {
    #[verifier::type_invariant]
    spec fn inv(&self) -> bool {
        self.pos <= self.buf@.len()
    }

    /// A cursor at the start of `buf`.
    pub fn new(buf: Vec<u8>) -> (lines: LinesVec)
        ensures
            lines@ == buf@,
    {
        LinesVec { buf, pos: 0 }
    }

    /// The next line, or `None` when every byte has been handed out.
    pub fn next(&mut self) -> (line: Option<Vec<u8>>)
        ensures
            old(self)@.len() == 0 ==> line is None && final(self)@ == old(self)@,
            old(self)@.len() > 0 ==> line is Some && is_first_line(line.unwrap()@, old(self)@)
                && final(self)@ == old(self)@.skip(line.unwrap()@.len() as int),
    {
        proof {
            use_type_invariant(&*self);
        }
        let len = self.buf.len();
        let start = self.pos;
        if start == len {
            return None;
        }
        let mut line: Vec<u8> = Vec::new();
        let mut at = start;
        let mut ended = false;
        while at < len && !ended
            invariant
                start <= at <= len,
                len == self.buf@.len(),
                line@ == self.buf@.subrange(start as int, at as int),
                ended ==> at > start && self.buf@[at - 1] == NEWLINE,
                forall|i: int| start <= i < at - 1 ==> self.buf@[i] != NEWLINE,
                !ended && at > start ==> self.buf@[at - 1] != NEWLINE,
            decreases len - at,
        {
            let byte = self.buf[at];
            line.push(byte);
            at = at + 1;
            ended = byte == NEWLINE;
            assert(line@ =~= self.buf@.subrange(start as int, at as int));
        }
        self.pos = at;
        proof {
            let before = self.buf@.skip(start as int);
            assert(line@ =~= before.take(line@.len() as int));
            assert(self.buf@.skip(at as int) =~= before.skip(line@.len() as int));
        }
        Some(line)
    }

    /// All the lines that are left, in order.
    pub fn collect(self) -> (lines: Vec<Vec<u8>>)
        ensures
            is_split(contents(lines@), self@),
    {
        let mut cursor = self;
        let mut lines: Vec<Vec<u8>> = Vec::new();
        let ghost all = cursor@;
        loop
            invariant
                forall|rest: Seq<Seq<u8>>| #[trigger]
                    is_split(rest, cursor@) ==> is_split(contents(lines@) + rest, all),
            ensures
                is_split(contents(lines@), all),
            decreases cursor@.len(),
        {
            let ghost left = cursor@;
            let ghost done = contents(lines@);
            match cursor.next() {
                None => {
                    proof {
                        let none = Seq::<Seq<u8>>::empty();
                        assert(is_split(none, left));
                        assert(done + none =~= done);
                    }
                    break ;
                },
                Some(line) => {
                    let ghost head = line@;
                    lines.push(line);
                    proof {
                        assert(contents(lines@) =~= done.push(head));
                        assert forall|rest: Seq<Seq<u8>>| #[trigger]
                            is_split(rest, cursor@) implies is_split(
                            contents(lines@) + rest,
                            all,
                        ) by {
                            let more = seq![head] + rest;
                            assert(more.drop_first() =~= rest);
                            assert(is_split(more, left));
                            assert(done.push(head) + rest =~= done + more);
                        }
                    }
                },
            }
        }
        lines
    }
}

} // verus!
