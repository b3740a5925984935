//! The render buffer: an in-memory accumulator of pending screen output.
//! Every component that draws writes into this buffer; a frame reaches the
//! terminal only through `flush`, which hands the whole pending content to
//! the output stream in one write and then clears it. The ghost field
//! `emitted` models the output stream: it records everything successfully
//! handed over, so contracts can speak about what the terminal was shown.

use vstd::prelude::*;
use vstd::string::StringExecFns;
use crate::errors::TermError;
use crate::term::{push_char, stdout_flush, stdout_write, utf8_decode, utf8_to_string};

verus! {

/// An append-only accumulator of not-yet-displayed output.
pub struct AppendBuffer {
    /// The pending content: exactly the text queued since the last
    /// successful flush.
    pub content: String,
    /// Everything handed to the output stream so far (a model of the
    /// stream, not carried at run time).
    pub emitted: Ghost<Seq<char>>,
}

impl AppendBuffer {
    /// A fresh buffer: nothing pending, nothing emitted.
    pub fn new() -> (r: AppendBuffer)
        ensures
            r.content@ == Seq::<char>::empty(),
            r.emitted@ == Seq::<char>::empty(),
    {
        AppendBuffer { content: String::new(), emitted: Ghost(Seq::empty()) }
    }

    /// Append one character to the pending content.
    pub fn push(&mut self, ch: char)
        ensures
            final(self).content@ == old(self).content@.push(ch),
            final(self).emitted == old(self).emitted,
    {
        push_char(&mut self.content, ch);
    }

    /// Append a string to the pending content.
    pub fn push_string(&mut self, string: &str)
        ensures
            final(self).content@ == buffer_after_append(old(self).content@, string@),
            final(self).emitted == old(self).emitted,
    {
        self.content.append(string);
    }

    /// Append a byte sequence, provided it is valid text. Bytes that do
    /// not decode as UTF-8 are refused whole: the pending content is left
    /// untouched and zero bytes are accepted. On success the number of
    /// bytes accepted — all of them — is returned.
    pub fn write(&mut self, buf: &[u8]) -> (r: Result<usize, TermError>)
        ensures
            (r is Ok) == (utf8_decode(buf@) is Some),
            r is Ok ==> r == Ok::<usize, TermError>(buf@.len() as usize)
                && final(self).content@ == buffer_after_append(
                    old(self).content@,
                    utf8_decode(buf@).unwrap(),
                ),
            r is Err ==> r == Err::<usize, TermError>(TermError::Encoding)
                && *final(self) == *old(self),
            final(self).emitted == old(self).emitted,
    {
        match utf8_to_string(buf) {
            Some(text) => {
                self.content.append(text.as_str());
                Ok(buf.len())
            },
            None => Err(TermError::Encoding),
        }
    }

    /// Hand the whole pending content to the output stream in one write,
    /// flush that stream, and clear the pending content. On success the
    /// emitted output has grown by exactly what was pending and nothing
    /// else, and the buffer is empty, ready for the next frame.
    pub fn flush(&mut self) -> (r: Result<(), TermError>)
        ensures
            r is Ok ==> final(self).content@ == Seq::<char>::empty()
                && final(self).emitted@ == output_after_flush(
                    old(self).emitted@,
                    old(self).content@,
                ),
            r is Err ==> r == Err::<(), TermError>(TermError::Render),
    {
        let wrote = stdout_write(self.content.as_str());
        match stdout_flush() {
            Err(_) => {
                return Err(TermError::Render);
            },
            Ok(_) => {},
        }
        match wrote {
            Ok(_) => {
                self.emitted = Ghost(self.emitted@ + self.content@);
                self.content = String::new();
                Ok(())
            },
            Err(_) => {
                self.content = String::new();
                Err(TermError::Render)
            },
        }
    }
}

/// What the pending content is after an append.
pub open spec fn buffer_after_append(pending: Seq<char>, text: Seq<char>) -> Seq<char> {
    pending + text
}

/// What the emitted output is after a successful flush of a pending
/// content.
pub open spec fn output_after_flush(emitted: Seq<char>, pending: Seq<char>) -> Seq<char> {
    emitted + pending
}

/// Appending to a freshly flushed (hence empty) buffer and then flushing
/// emits exactly the appended text — no residue of earlier frames — and
/// `flush`'s own contract leaves the buffer empty again.
pub proof fn lemma_flush_emits_exactly_the_appended_text(emitted: Seq<char>, text: Seq<char>)
    ensures
        output_after_flush(emitted, buffer_after_append(Seq::<char>::empty(), text))
            == emitted + text,
{
    assert(buffer_after_append(Seq::<char>::empty(), text) =~= text);
}

} // verus!
