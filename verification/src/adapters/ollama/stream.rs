//! Decoding of a streamed chat reply into tokens.
//!
//! The server sends one JSON document per line.  The caller reads bytes from
//! the network, parses each line this decoder hands out, and hands the parsed
//! fields back; the decoder decides what the stream yields next.

use vstd::prelude::*;
use vstd::utf8::{valid_utf8, decode_utf8, is_char_boundary, valid_utf8_split, decode_utf8_split};
use crate::adapters::ollama::lines::{LineBuffer, line_len};
use crate::domain::error::OddOnkeyError;
use crate::text::{trim, utf8_lossy, append_str};

verus! {

/// The fields of one parsed stream line that the decoder reads: the `done`
/// flag and the text of the `message`, each when present.
#[derive(Debug)]
pub struct ChunkFields {
    pub done: Option<bool>,
    pub content: Option<String>,
}

/// The text a parsed line contributes: its message text, or nothing.
pub open spec fn chunk_text(c: ChunkFields) -> Seq<char> {
    match c.content {
        Some(t) => t@,
        None => Seq::empty(),
    }
}

/// What the stream should do next, once the buffered text has been looked at.
#[derive(Debug, PartialEq, Eq)]
pub enum PollStep {
    /// The stream has ended: yield nothing, now and forever.
    Finished,
    /// A blank line was dropped: poll again.
    Skip,
    /// A complete line, trimmed: parse it and pass the result to `on_chunk`.
    Decode(String),
    /// No complete line is buffered: read more bytes and `feed` them.
    NeedBytes,
}

/// The abstract state of a [`TokenStream`]: the text not yet split into
/// lines, and whether the stream has ended.
pub struct TokenStreamView {
    pub pending: Seq<char>,
    pub done: bool,
}

/// A decoder for a stream of token strings as they arrive from the model.
#[derive(Debug)]
pub struct TokenStream {
    buffer: LineBuffer,
    done: bool,
}

impl View for TokenStream {
    type V = TokenStreamView;

    closed spec fn view(&self) -> TokenStreamView {
        TokenStreamView { pending: self.buffer@, done: self.done }
    }
}

/// The error reported for a line that is not a valid stream chunk.
pub open spec fn stream_parse_message(error: Seq<char>, line: Seq<char>) -> Seq<char> {
    "stream JSON parse: "@ + error + " – line: "@ + line
}

impl TokenStream {
    /// A decoder with nothing buffered.
    pub fn new() -> (s: Self)
        ensures
            s@ == (TokenStreamView { pending: Seq::empty(), done: false }),
    {
        TokenStream { buffer: LineBuffer::new(), done: false }
    }

    /// Whether the stream has ended.
    pub fn is_done(&self) -> (r: bool)
        ensures
            r == self@.done,
    {
        self.done
    }

    /// Buffers a chunk of bytes read from the network.
    pub fn feed(&mut self, bytes: &[u8])
        ensures
            final(self)@ == (TokenStreamView {
                pending: old(self)@.pending + utf8_lossy(bytes@),
                done: old(self)@.done,
            }),
            valid_utf8(bytes@) ==> final(self)@.pending == old(self)@.pending + decode_utf8(bytes@),
    {
        self.buffer.feed(bytes);
    }

    /// Looks at the buffered text: an ended stream stays ended; otherwise the
    /// first complete line, if any, is taken out of the buffer.
    pub fn poll_step(&mut self) -> (r: PollStep)
        ensures
            old(self)@.done ==> r is Finished && final(self)@ == old(self)@,
            !old(self)@.done && line_len(old(self)@.pending) == old(self)@.pending.len() ==> r is NeedBytes
                && final(self)@ == old(self)@,
            !old(self)@.done && line_len(old(self)@.pending) < old(self)@.pending.len() ==> {
                let line = trim(old(self)@.pending.take(line_len(old(self)@.pending) as int));
                &&& final(self)@ == (TokenStreamView {
                    pending: old(self)@.pending.skip(line_len(old(self)@.pending) as int + 1),
                    done: false,
                })
                &&& line.len() == 0 ==> r is Skip
                &&& line.len() > 0 ==> (r matches PollStep::Decode(l) && l@ == line)
            },
    {
        if self.done {
            return PollStep::Finished;
        }
        match self.buffer.take_line() {
            Some(line) => {
                if line.as_str().is_empty() {
                    PollStep::Skip
                } else {
                    PollStep::Decode(line)
                }
            },
            None => PollStep::NeedBytes,
        }
    }

    /// What the stream yields for a decoded line: a chunk marked `done` ends
    /// the stream and yields nothing; any other chunk yields its text (empty
    /// when it has none); a line that did not parse yields a parse error.
    pub fn on_chunk(&mut self, line: &str, parsed: Result<ChunkFields, String>) -> (r: Option<
        Result<String, OddOnkeyError>,
    >)
        ensures
            match parsed {
                Ok(c) => if c.done == Some(true) {
                    r is None && final(self)@ == (TokenStreamView { done: true, ..old(self)@ })
                } else {
                    (r matches Some(Ok(t)) && t@ == chunk_text(c)) && final(self)@ == old(self)@
                        && (c.content matches Some(s) ==> (r matches Some(Ok(t)) && t@ == s@))
                },
                Err(e) => (r matches Some(Err(OddOnkeyError::Parse(m))) && m@
                    == stream_parse_message(e@, line@)) && final(self)@ == old(self)@,
            },
    {
        match parsed {
            Ok(c) => {
                if c.done == Some(true) {
                    self.done = true;
                    None
                } else {
                    match c.content {
                        Some(t) => Some(Ok(t)),
                        None => Some(Ok(String::new())),
                    }
                }
            },
            Err(e) => {
                let mut m = String::from_str("stream JSON parse: ");
                append_str(&mut m, e.as_str());
                append_str(&mut m, " – line: ");
                append_str(&mut m, line);
                Some(Err(OddOnkeyError::Parse(m)))
            },
        }
    }

    /// The network stream has ended: the decoder ends too, and hands out what
    /// is left in its buffer, trimmed, when that is not blank.
    pub fn end_of_input(&mut self) -> (r: Option<String>)
        ensures
            final(self)@.done,
            trim(old(self)@.pending).len() == 0 ==> r is None,
            trim(old(self)@.pending).len() > 0 ==> (r matches Some(t) && t@ == trim(
                old(self)@.pending,
            )),
    {
        self.done = true;
        if self.buffer.is_blank() {
            None
        } else {
            Some(self.buffer.take_rest())
        }
    }

    /// What the stream yields for the unterminated last line: its text when it
    /// parsed and the text is not empty, else nothing.
    pub fn on_tail(parsed: Result<ChunkFields, String>) -> (r: Option<String>)
        ensures
            match parsed {
                Ok(c) => {
                    &&& if chunk_text(c).len() > 0 {
                        r matches Some(t) && t@ == chunk_text(c)
                    } else {
                        r is None
                    }
                    &&& c.content matches Some(s) ==> (s@.len() > 0 ==> (r matches Some(t) && t@ == s@))
                },
                Err(_) => r is None,
            },
    {
        match parsed {
            Ok(c) => match c.content {
                Some(t) => if t.as_str().is_empty() {
                    None
                } else {
                    Some(t)
                },
                None => None,
            },
            Err(_) => None,
        }
    }
}

/// Where the network splits a well-formed UTF-8 reply does not matter:
/// feeding the two pieces of a valid byte sequence cut at a character
/// boundary buffers the same text as feeding it whole.
pub proof fn lemma_chunking_is_invisible(pending: Seq<char>, bytes: Seq<u8>, cut: int)
    requires
        valid_utf8(bytes),
        is_char_boundary(bytes, cut),
    ensures
        valid_utf8(bytes.subrange(0, cut)),
        valid_utf8(bytes.subrange(cut, bytes.len() as int)),
        pending + decode_utf8(bytes.subrange(0, cut)) + decode_utf8(
            bytes.subrange(cut, bytes.len() as int),
        ) == pending + decode_utf8(bytes),
{
    valid_utf8_split(bytes, cut);
    decode_utf8_split(bytes, cut);
    assert(pending + decode_utf8(bytes.subrange(0, cut)) + decode_utf8(
        bytes.subrange(cut, bytes.len() as int),
    ) =~= pending + decode_utf8(bytes));
}

/// Tokens are streamed exactly as the server sent them: the text a parsed line
/// contributes is its message content, unchanged (leading and trailing spaces
/// kept), so consecutive tokens concatenate to the reply; a line without a
/// message contributes nothing, and a non-empty content is never dropped.
pub proof fn lemma_tokens_pass_through(c: ChunkFields, d: ChunkFields)
    ensures
        c.content matches Some(t) ==> chunk_text(c) == t@,
        c.content is None ==> chunk_text(c).len() == 0,
        c.content matches Some(t) && t@.len() > 0 ==> chunk_text(c).len() > 0,
        c.content matches Some(s) ==> (d.content matches Some(t) ==> chunk_text(c) + chunk_text(d)
            == s@ + t@),
{
}

} // verus!
