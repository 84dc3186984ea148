//! Text that the library writes and reads: decimal numbers, joined words, bytes as UTF-8.

use vstd::prelude::*;
use vstd::string::{StringExecFns, StringSliceAdditionalSpecFns};
use vstd::utf8::{decode_utf8, valid_utf8};

verus! {

/// The character of a decimal digit.
pub open spec fn digit(d: int) -> char
    recommends
        0 <= d <= 9,
{
    ((48 + d) as u8) as char
}

/// A natural number in decimal, without leading zeros.
pub open spec fn decimal_nat(n: nat) -> Seq<char>
    decreases n,
{
    if n < 10 {
        seq![digit(n as int)]
    } else {
        decimal_nat(n / 10).push(digit((n % 10) as int))
    }
}

/// An integer in decimal, with a minus sign if it is negative.
pub open spec fn decimal(n: int) -> Seq<char> {
    if n < 0 {
        seq!['-'] + decimal_nat((-n) as nat)
    } else {
        decimal_nat(n as nat)
    }
}

fn digit_str(d: u64) -> (s: &'static str)
    requires
        d <= 9,
    ensures
        s@ == seq![digit(d as int)],
{
    proof {
        reveal_strlit("0");
        reveal_strlit("1");
        reveal_strlit("2");
        reveal_strlit("3");
        reveal_strlit("4");
        reveal_strlit("5");
        reveal_strlit("6");
        reveal_strlit("7");
        reveal_strlit("8");
        reveal_strlit("9");
    }
    let s = if d == 0 {
        "0"
    } else if d == 1 {
        "1"
    } else if d == 2 {
        "2"
    } else if d == 3 {
        "3"
    } else if d == 4 {
        "4"
    } else if d == 5 {
        "5"
    } else if d == 6 {
        "6"
    } else if d == 7 {
        "7"
    } else if d == 8 {
        "8"
    } else {
        "9"
    };
    assert(s@ =~= seq![digit(d as int)]);
    s
}

fn push_decimal_nat(out: &mut String, n: u64)
    ensures
        final(out)@ == old(out)@ + decimal_nat(n as nat),
    decreases n,
{
    if n >= 10 {
        push_decimal_nat(out, n / 10);
    }
    out.append(digit_str(n % 10));
    assert(out@ =~= old(out)@ + decimal_nat(n as nat));
}

/// Writes `n` in decimal.
pub fn decimal_string(n: i32) -> (s: String)
    ensures
        s@ == decimal(n as int),
{
    let mut s = String::new();
    if n < 0 {
        proof {
            reveal_strlit("-");
        }
        s.append("-");
        let magnitude: u64 = (0 - (n as i64)) as u64;
        push_decimal_nat(&mut s, magnitude);
    } else {
        push_decimal_nat(&mut s, n as u64);
    }
    assert(s@ =~= decimal(n as int));
    s
}

/// Words joined by single spaces.
pub open spec fn join_words(words: Seq<Seq<char>>) -> Seq<char>
    decreases words.len(),
{
    if words.len() == 0 {
        Seq::empty()
    } else if words.len() == 1 {
        words[0]
    } else {
        join_words(words.drop_last()) + seq![' '] + words.last()
    }
}

/// The texts of a list of strings.
pub open spec fn texts(words: Seq<String>) -> Seq<Seq<char>> {
    words.map_values(|word: String| word@)
}

/// Joins `words` with single spaces.
pub fn join(words: &Vec<String>) -> (joined: String)
    ensures
        joined@ == join_words(texts(words@)),
{
    let mut joined = String::new();
    let mut i: usize = 0;
    while i < words.len()
        invariant
            i <= words.len(),
            joined@ == join_words(texts(words@).take(i as int)),
        decreases words.len() - i,
    {
        let ghost before = texts(words@).take(i as int);
        if i > 0 {
            proof {
                reveal_strlit(" ");
            }
            joined.append(" ");
        }
        joined.append(words[i].as_str());
        i = i + 1;
        proof {
            let now = texts(words@).take(i as int);
            assert(now.drop_last() =~= before);
            assert(now.last() == words@[i - 1]@);
            assert(joined@ =~= join_words(now));
        }
    }
    assert(texts(words@).take(i as int) =~= texts(words@));
    joined
}

/// What a byte buffer says when read as UTF-8: its characters, or nothing if the bytes are
/// not valid UTF-8.
pub open spec fn text_of(bytes: Seq<u8>) -> Seq<char> {
    if valid_utf8(bytes) {
        decode_utf8(bytes)
    } else {
        Seq::empty()
    }
}

/// `std::str::from_utf8`: the bytes as a string slice, exactly when they are valid UTF-8.
/// The slice is the same bytes, not a copy.
#[verifier::external_body]
pub(crate) fn from_utf8(bytes: &[u8]) -> (text: Option<&str>)
    ensures
        text is Some <==> valid_utf8(bytes@),
        text matches Some(s) ==> s.spec_bytes() == bytes@,
{
    std::str::from_utf8(bytes).ok()
}

/// Reading a byte buffer as text.
pub trait Vec8ToString {
    /// The buffer as a string slice, if it holds valid UTF-8.
    fn as_str(&self) -> Option<&str>;
}

impl Vec8ToString for Vec<u8> {
    fn as_str(&self) -> (text: Option<&str>)
        ensures
            text is Some <==> valid_utf8(self@),
            text matches Some(s) ==> s.spec_bytes() == self@ && s@ == text_of(self@),
    {
        let text = from_utf8(self.as_slice());
        proof {
            if let Some(s) = text {
                vstd::utf8::encode_utf8_decode_utf8(s@);
            }
        }
        text
    }
}

/// The text of a buffer as an owned string; empty where the buffer is not valid UTF-8.
pub fn text_or_empty(bytes: &Vec<u8>) -> (text: String)
    ensures
        text@ == text_of(bytes@),
{
    match bytes.as_str() {
        Some(s) => String::from_str(s),
        None => String::new(),
    }
}

} // verus!
