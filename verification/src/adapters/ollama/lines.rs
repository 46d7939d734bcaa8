//! Newline-delimited framing of a byte stream (one JSON document per line).

use vstd::prelude::*;
use vstd::utf8::{valid_utf8, decode_utf8};
use crate::text::{lossy_text, utf8_lossy, trim, trimmed, string_from_chars, chars_of};

verus! {

/// The number of characters of `s` before its first newline (all of `s` when
/// it holds none).
pub open spec fn line_len(s: Seq<char>) -> nat
    decreases s.len(),
{
    if s.len() == 0 || s[0] == '\n' {
        0
    } else {
        1 + line_len(s.drop_first())
    }
}

/// `line_len` is the position of the first newline: the characters before it
/// are not newlines, and the character at it (if any) is one.
pub proof fn lemma_line_len(s: Seq<char>)
    ensures
        line_len(s) <= s.len(),
        forall|k: int| 0 <= k < line_len(s) ==> s[k] != '\n',
        line_len(s) < s.len() ==> s[line_len(s) as int] == '\n',
    decreases s.len(),
{
    if s.len() > 0 && s[0] != '\n' {
        lemma_line_len(s.drop_first());
        assert forall|k: int| 0 <= k < line_len(s) implies s[k] != '\n' by {
            if k > 0 {
                assert(s[k] == s.drop_first()[k - 1]);
            }
        }
    }
}

/// Text received but not yet split into lines.
#[derive(Debug)]
pub struct LineBuffer {
    pending: Vec<char>,
}

impl View for LineBuffer {
    type V = Seq<char>;

    closed spec fn view(&self) -> Seq<char> {
        self.pending@
    }
}

impl LineBuffer {
    /// An empty buffer.
    pub fn new() -> (b: Self)
        ensures
            b@ == Seq::<char>::empty(),
    {
        LineBuffer { pending: Vec::new() }
    }

    /// Appends the (lossily decoded) text of a chunk of bytes.
    pub fn feed(&mut self, bytes: &[u8])
        ensures
            final(self)@ == old(self)@ + utf8_lossy(bytes@),
            valid_utf8(bytes@) ==> final(self)@ == old(self)@ + decode_utf8(bytes@),
    {
        let text = lossy_text(bytes);
        let cs = chars_of(text.as_str());
        let mut i: usize = 0;
        while i < cs.len()
            invariant
                i <= cs@.len(),
                cs@ == utf8_lossy(bytes@),
                self.pending@ == old(self)@ + cs@.take(i as int),
            decreases cs@.len() - i,
        {
            self.pending.push(cs[i]);
            assert(old(self)@ + cs@.take(i + 1) =~= (old(self)@ + cs@.take(i as int)).push(
                cs@[i as int],
            ));
            i = i + 1;
        }
        assert(cs@.take(i as int) =~= cs@);
    }

    /// Removes the first complete line (up to and including its newline) and
    /// returns it trimmed; without a complete line, returns `None` and keeps
    /// the buffer as it is.
    pub fn take_line(&mut self) -> (r: Option<String>)
        ensures
            line_len(old(self)@) <= old(self)@.len(),
            line_len(old(self)@) == old(self)@.len() ==> r is None && final(self)@ == old(self)@,
            line_len(old(self)@) < old(self)@.len() ==> r is Some && r->0@ == trim(
                old(self)@.take(line_len(old(self)@) as int),
            ) && final(self)@ == old(self)@.skip(line_len(old(self)@) as int + 1),
    {
        let ghost s = self.pending@;
        proof {
            lemma_line_len(s);
        }
        let n = self.pending.len();
        let mut i: usize = 0;
        assert(s.skip(0) =~= s);
        while i < n && self.pending[i] != '\n'
            invariant
                s == self.pending@,
                n == s.len(),
                i <= n,
                line_len(s) == i + line_len(s.skip(i as int)),
            decreases n - i,
        {
            assert(s.skip(i as int).drop_first() =~= s.skip(i + 1));
            i = i + 1;
        }
        if i == n {
            assert(s.skip(i as int).len() == 0);
            return None;
        }
        assert(s.skip(i as int)[0] == '\n');
        let line = trimmed(&self.pending.as_slice()[0..i]);
        let mut rest: Vec<char> = Vec::new();
        let mut k: usize = i + 1;
        while k < n
            invariant
                s == self.pending@,
                n == s.len(),
                i + 1 <= k <= n,
                rest@ == s.subrange(i + 1, k as int),
            decreases n - k,
        {
            rest.push(self.pending[k]);
            assert(s.subrange(i + 1, k + 1) =~= s.subrange(i + 1, k as int).push(s[k as int]));
            k = k + 1;
        }
        assert(rest@ =~= s.skip(i + 1));
        self.pending = rest;
        Some(string_from_chars(line.as_slice()))
    }

    /// Empties the buffer and returns what it held, trimmed.
    pub fn take_rest(&mut self) -> (r: String)
        ensures
            r@ == trim(old(self)@),
            final(self)@ == Seq::<char>::empty(),
    {
        let t = trimmed(self.pending.as_slice());
        self.pending = Vec::new();
        string_from_chars(t.as_slice())
    }

    /// Whether the buffer holds nothing but whitespace.
    pub fn is_blank(&self) -> (r: bool)
        ensures
            r == (trim(self@).len() == 0),
    {
        let t = trimmed(self.pending.as_slice());
        t.len() == 0
    }
}

} // verus!
