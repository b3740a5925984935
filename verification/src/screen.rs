//! The screen: the captured terminal dimensions and a render buffer. One
//! refresh queues a whole frame — clear, home, the border pattern, home —
//! into the buffer and flushes it in a single write, so the frame appears
//! atomically.

use vstd::prelude::*;
use vstd::string::StringExecFns;
use crate::buffer::{output_after_flush, AppendBuffer};
use crate::errors::TermError;
use crate::term::{
    ansi_clear_all, ansi_move_home, clear_all_seq, move_home_seq, stdout_flush, stdout_write,
    terminal_size,
};

verus! {

/// The border pattern for a screen of `rows` rows: one `>` glyph per row,
/// rows separated by `\r\n`, with no line break after the last glyph (so
/// the cursor does not scroll the screen by one extra line).
pub open spec fn border_content(rows: nat) -> Seq<char>
    decreases rows,
{
    if rows == 0 {
        Seq::empty()
    } else if rows == 1 {
        seq!['>']
    } else {
        seq!['>', '\r', '\n'] + border_content((rows - 1) as nat)
    }
}

/// Everything one refresh queues: clear the screen, home the cursor, draw
/// the borders, home the cursor again.
pub open spec fn frame_seq(rows: nat) -> Seq<char> {
    clear_all_seq() + move_home_seq() + border_content(rows) + move_home_seq()
}

/// How many times `c` occurs in `s`.
pub open spec fn count_char(s: Seq<char>, c: char) -> nat
    decreases s.len(),
{
    if s.len() == 0 {
        0
    } else {
        count_char(s.drop_first(), c) + if s.first() == c {
            1nat
        } else {
            0nat
        }
    }
}

/// Occurrences in a concatenation are the occurrences in each part.
pub proof fn lemma_count_char_concat(a: Seq<char>, b: Seq<char>, c: char)
    ensures
        count_char(a + b, c) == count_char(a, c) + count_char(b, c),
    decreases a.len(),
{
    if a.len() == 0 {
        assert(a + b =~= b);
    } else {
        assert((a + b).drop_first() =~= a.drop_first() + b);
        lemma_count_char_concat(a.drop_first(), b, c);
    }
}

/// The shape of the border pattern, for any row count of at least one:
/// exactly `rows` glyphs, exactly `rows - 1` line-break pairs, and no
/// trailing line break — the pattern ends on a glyph.
pub proof fn lemma_border_shape(rows: nat)
    requires
        rows >= 1,
    ensures
        count_char(border_content(rows), '>') == rows,
        count_char(border_content(rows), '\r') == rows - 1,
        count_char(border_content(rows), '\n') == rows - 1,
        border_content(rows).len() == 3 * rows - 2,
        border_content(rows).last() == '>',
    decreases rows,
{
    if rows == 1 {
        lemma_count_char_glyph('>');
        lemma_count_char_glyph('\r');
        lemma_count_char_glyph('\n');
    } else {
        let head = seq!['>', '\r', '\n'];
        let rest = border_content((rows - 1) as nat);
        lemma_border_shape((rows - 1) as nat);
        lemma_count_char_concat(head, rest, '>');
        lemma_count_char_concat(head, rest, '\r');
        lemma_count_char_concat(head, rest, '\n');
        lemma_count_char_head('>');
        lemma_count_char_head('\r');
        lemma_count_char_head('\n');
        assert((head + rest).last() == rest.last());
    }
}

/// How often `c` occurs in the one-glyph pattern.
proof fn lemma_count_char_glyph(c: char)
    ensures
        count_char(seq!['>'], c) == if c == '>' {
            1nat
        } else {
            0nat
        },
{
    assert(seq!['>'].drop_first() =~= Seq::<char>::empty());
    assert(count_char(Seq::<char>::empty(), c) == 0);
}

/// How often `c` occurs in one full row of the pattern — glyph, carriage
/// return, line feed: once for each of the three, never otherwise.
proof fn lemma_count_char_head(c: char)
    ensures
        count_char(seq!['>', '\r', '\n'], c) == if c == '>' || c == '\r' || c == '\n' {
            1nat
        } else {
            0nat
        },
{
    assert(seq!['>', '\r', '\n'].drop_first() =~= seq!['\r', '\n']);
    assert(seq!['\r', '\n'].drop_first() =~= seq!['\n']);
    assert(seq!['\n'].drop_first() =~= Seq::<char>::empty());
    assert(count_char(Seq::<char>::empty(), c) == 0);
    assert(count_char(seq!['\n'], c) == if c == '\n' {
        1nat
    } else {
        0nat
    });
    assert(count_char(seq!['\r', '\n'], c) == if c == '\r' || c == '\n' {
        1nat
    } else {
        0nat
    });
}

/// `c` does not occur in `s` when no position holds it.
proof fn lemma_count_char_absent(s: Seq<char>, c: char)
    requires
        forall|i: int| 0 <= i < s.len() ==> s[i] != c,
    ensures
        count_char(s, c) == 0,
    decreases s.len(),
{
    if s.len() > 0 {
        assert(forall|i: int|
            0 <= i < s.drop_first().len() ==> s.drop_first()[i] == s[i + 1]);
        lemma_count_char_absent(s.drop_first(), c);
    }
}

/// The two control sequences a frame starts and ends with hold neither a
/// border glyph nor a line-break character.
proof fn lemma_ansi_without_content_chars(c: char)
    requires
        c == '>' || c == '\r' || c == '\n',
    ensures
        count_char(clear_all_seq(), c) == 0,
        count_char(move_home_seq(), c) == 0,
{
    assert forall|i: int| 0 <= i < clear_all_seq().len() implies clear_all_seq()[i] != c by {
        if i == 0 {
        } else if i == 1 {
        } else if i == 2 {
        } else {
            assert(i == 3);
        }
    }
    assert forall|i: int| 0 <= i < move_home_seq().len() implies move_home_seq()[i] != c by {
        if i == 0 {
        } else if i == 1 {
        } else if i == 2 {
        } else if i == 3 {
        } else if i == 4 {
        } else {
            assert(i == 5);
        }
    }
    lemma_count_char_absent(clear_all_seq(), c);
    lemma_count_char_absent(move_home_seq(), c);
}

/// The shape of one whole frame, as the terminal is shown it: for any row
/// count of at least one, exactly `rows` border glyphs and exactly
/// `rows - 1` line-break pairs — the surrounding control sequences add no
/// glyph and no break of their own.
pub proof fn lemma_frame_shape(rows: nat)
    requires
        rows >= 1,
    ensures
        count_char(frame_seq(rows), '>') == rows,
        count_char(frame_seq(rows), '\r') == rows - 1,
        count_char(frame_seq(rows), '\n') == rows - 1,
{
    lemma_border_shape(rows);
    lemma_frame_count(rows, '>');
    lemma_frame_count(rows, '\r');
    lemma_frame_count(rows, '\n');
}

/// Occurrences of a content character in a frame all come from the border
/// pattern.
proof fn lemma_frame_count(rows: nat, c: char)
    requires
        c == '>' || c == '\r' || c == '\n',
    ensures
        count_char(frame_seq(rows), c) == count_char(border_content(rows), c),
{
    lemma_ansi_without_content_chars(c);
    lemma_count_char_concat(clear_all_seq(), move_home_seq(), c);
    lemma_count_char_concat(clear_all_seq() + move_home_seq(), border_content(rows), c);
    lemma_count_char_concat(
        clear_all_seq() + move_home_seq() + border_content(rows),
        move_home_seq(),
        c,
    );
}

/// The screen: captured terminal dimensions as `(columns, rows)`, and the
/// buffer every frame is drawn into.
pub struct Display {
    pub bordersize: (usize, usize),
    pub content: AppendBuffer,
}

impl Display {
    /// A screen for the live terminal: its dimensions are captured once,
    /// here, and never re-queried (resizing is unsupported).
    pub fn create() -> (r: Result<Display, TermError>)
        ensures
            r is Ok ==> r.unwrap().content.content@ == Seq::<char>::empty()
                && r.unwrap().content.emitted@ == Seq::<char>::empty(),
            r is Err ==> r == Err::<Display, TermError>(TermError::Render),
    {
        match terminal_size() {
            Ok((columns, rows)) => Ok(Display {
                bordersize: (columns as usize, rows as usize),
                content: AppendBuffer::new(),
            }),
            Err(_) => Err(TermError::Render),
        }
    }

    /// A screen with the given dimensions, for use where they are already
    /// known — no terminal is touched.
    pub fn with_size(columns: usize, rows: usize) -> (r: Display)
        ensures
            r.bordersize == (columns, rows),
            r.content.content@ == Seq::<char>::empty(),
            r.content.emitted@ == Seq::<char>::empty(),
    {
        Display { bordersize: (columns, rows), content: AppendBuffer::new() }
    }

    /// The captured row count.
    pub open spec fn rows(&self) -> nat {
        self.bordersize.1 as nat
    }

    /// Everything teardown sends: the clear-screen command followed by the
    /// cursor-home command.
    pub open spec fn wipe_seq() -> Seq<char> {
        clear_all_seq() + move_home_seq()
    }

    /// The combined teardown sequence as one piece of text, pinned exactly
    /// to the two commands it is made of.
    pub fn wipe_sequence() -> (r: String)
        ensures
            r@ == Display::wipe_seq(),
    {
        let mut commands = ansi_clear_all();
        let home = ansi_move_home();
        commands.append(home.as_str());
        commands
    }

    /// Clear the whole visible screen and home the cursor: the two
    /// commands, pinned by `wipe_sequence`, are handed to the output
    /// directly (unbuffered) in one write — this bypasses the frame cycle
    /// and is what teardown uses.
    pub fn wipe_screen() -> (r: Result<(), TermError>)
        ensures
            r is Err ==> r == Err::<(), TermError>(TermError::Render),
    {
        let commands = Display::wipe_sequence();
        match stdout_write(commands.as_str()) {
            Err(_) => {
                return Err(TermError::Render);
            },
            Ok(_) => {},
        }
        match stdout_flush() {
            Err(_) => Err(TermError::Render),
            Ok(_) => Ok(()),
        }
    }

    /// Queue the border pattern: one glyph per row, a line break after
    /// every row but the last.
    pub fn borders(&mut self)
        ensures
            final(self).content.content@ == old(self).content.content@
                + border_content(old(self).rows()),
            final(self).content.emitted == old(self).content.emitted,
            final(self).bordersize == old(self).bordersize,
    {
        let line_start = self.bordersize.1;
        let ghost start = self.content.content@;
        let mut x: usize = 0;
        while x < line_start
            invariant
                x <= line_start,
                x < line_start ==> self.content.content@ == start + border_chunk(x as nat),
                x == line_start ==> self.content.content@ == start + border_content(
                    line_start as nat,
                ),
                self.content.emitted == old(self).content.emitted,
                self.bordersize == old(self).bordersize,
                line_start == old(self).bordersize.1,
            decreases line_start - x,
        {
            proof {
                reveal_strlit("\r\n");
            }
            self.content.push('>');
            if x < line_start - 1 {
                self.content.push_string("\r\n");
                proof {
                    assert(self.content.content@ =~= start + border_chunk((x + 1) as nat));
                }
            } else {
                proof {
                    lemma_chunk_then_glyph((x + 1) as nat);
                    assert(self.content.content@ =~= start + border_content((x + 1) as nat));
                }
            }
            x = x + 1;
        }
        proof {
            if line_start == 0 {
                assert(self.content.content@ =~= start + border_content(0));
            }
        }
    }

    /// Queue one whole frame into the buffer: clear, home, borders, home.
    /// Nothing reaches the terminal yet.
    pub fn queue_frame(&mut self)
        ensures
            final(self).content.content@ == old(self).content.content@
                + frame_seq(old(self).rows()),
            final(self).content.emitted == old(self).content.emitted,
            final(self).bordersize == old(self).bordersize,
    {
        let clear = ansi_clear_all();
        self.content.push_string(clear.as_str());
        let home = ansi_move_home();
        self.content.push_string(home.as_str());
        self.borders();
        self.content.push_string(home.as_str());
        proof {
            assert(self.content.content@ =~= old(self).content.content@
                + frame_seq(old(self).rows()));
        }
    }

    /// One buffered refresh: queue the whole frame, then flush it to the
    /// terminal in a single write. On success the buffer is empty again
    /// and the terminal was shown exactly one more frame (after whatever
    /// was still pending); the frame appeared atomically because nothing
    /// was written before the flush.
    pub fn refresh_screen(&mut self) -> (r: Result<(), TermError>)
        ensures
            r is Ok ==> final(self).content.content@ == Seq::<char>::empty()
                && final(self).content.emitted@ == output_after_flush(
                    old(self).content.emitted@,
                    old(self).content.content@ + frame_seq(old(self).rows()),
                ),
            r is Err ==> r == Err::<(), TermError>(TermError::Render),
            final(self).bordersize == old(self).bordersize,
    {
        self.queue_frame();
        self.content.flush()
    }
}

/// The first `x` full rows of the border pattern: `x` copies of the glyph
/// followed by a line break — what the loop has queued after `x` complete
/// iterations that were not the last.
pub open spec fn border_chunk(x: nat) -> Seq<char>
    decreases x,
{
    if x == 0 {
        Seq::empty()
    } else {
        border_chunk((x - 1) as nat) + seq!['>', '\r', '\n']
    }
}

/// The repeated block commutes with the chunk it repeats in: prepending
/// one more block is the same as appending it.
proof fn lemma_chunk_block_comm(x: nat)
    ensures
        seq!['>', '\r', '\n'] + border_chunk(x) =~= border_chunk(x) + seq!['>', '\r', '\n'],
    decreases x,
{
    if x > 0 {
        lemma_chunk_block_comm((x - 1) as nat);
        assert(seq!['>', '\r', '\n'] + border_chunk(x) =~= (seq!['>', '\r', '\n'] + border_chunk(
            (x - 1) as nat,
        )) + seq!['>', '\r', '\n']);
    }
}

/// The whole pattern of `rows` rows is the first `rows - 1` full rows
/// followed by the bare final glyph.
proof fn lemma_chunk_then_glyph(rows: nat)
    requires
        rows >= 1,
    ensures
        border_content(rows) =~= border_chunk((rows - 1) as nat) + seq!['>'],
    decreases rows,
{
    if rows > 1 {
        lemma_chunk_then_glyph((rows - 1) as nat);
        lemma_chunk_block_comm((rows - 2) as nat);
        assert(border_content(rows) =~= seq!['>', '\r', '\n'] + (border_chunk(
            (rows - 2) as nat,
        ) + seq!['>']));
    }
}

} // verus!
