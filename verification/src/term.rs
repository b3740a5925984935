//! The trusted boundary of the library: every call into crossterm or into a
//! part of std that vstd gives no specification for lives here, each behind
//! a small wrapper whose contract states only what the callee's source or
//! documentation shows.

use vstd::prelude::*;
use crate::input::{InputEvent, KeyCode, KeyEvent, Modifiers};
use std::io::Write as StdIoWrite;
use crossterm::Command as CrosstermCommand;
use crossterm::event::{Event, KeyEventKind, KeyCode as CtKeyCode, KeyModifiers as CtMod};

verus! {

/// The I/O error type of std, carried opaquely through the library's
/// trusted wrappers.
#[verifier::external_type_specification]
#[verifier::external_body]
pub struct ExIoError(std::io::Error);

/// The characters that decoding a byte sequence as UTF-8 yields, or `None`
/// where the bytes are not valid UTF-8. Left uninterpreted: what the
/// decoding is on given bytes is std's business, not this library's.
pub uninterp spec fn utf8_decode(bytes: Seq<u8>) -> Option<Seq<char>>;

/// Relies on `std::str::from_utf8`: it succeeds exactly on valid UTF-8 and
/// returns the decoded text; the `to_string` on the result only copies it.
#[verifier::external_body]
pub fn utf8_to_string(bytes: &[u8]) -> (r: Option<String>)
    ensures
        (r is Some) == (utf8_decode(bytes@) is Some),
        r is Some ==> r.unwrap()@ == utf8_decode(bytes@).unwrap(),
{
    match std::str::from_utf8(bytes) {
        Ok(s) => Some(s.to_string()),
        Err(_) => None,
    }
}

/// Relies on `String::push`: it appends exactly the given character.
#[verifier::external_body]
pub fn push_char(s: &mut String, ch: char)
    ensures
        final(s)@ == old(s)@.push(ch),
{
    s.push(ch);
}

/// Relies on `write!` to `std::io::stdout`: on success the whole text was
/// handed to the standard output stream. Nothing is promised of the stream
/// itself, so the contract is empty; callers record what they handed over.
#[verifier::external_body]
pub fn stdout_write(s: &str) -> (r: Result<(), std::io::Error>)
{
    write!(std::io::stdout(), "{}", s)
}

/// Relies on `std::io::Stdout::flush`: it pushes buffered output out to the
/// terminal. Nothing further can be promised of it.
#[verifier::external_body]
pub fn stdout_flush() -> (r: Result<(), std::io::Error>)
{
    std::io::stdout().flush()
}

/// Relies on `crossterm::event::poll`: `Ok(true)` exactly when an event can
/// be read without blocking within the given window. Whether one arrives
/// depends on the user, so nothing is promised of the result.
#[verifier::external_body]
pub fn poll_input(timeout_ms: u64) -> (r: Result<bool, std::io::Error>)
{
    crossterm::event::poll(std::time::Duration::from_millis(timeout_ms))
}

/// Relies on `crossterm::event::read`: it blocks until one event is
/// available and returns it. The body only sorts the event into the
/// library's own model: a key press (its character and modifier flags,
/// with `more` for any modifier beyond shift/control/alt) or `Other` for
/// everything else — releases, repeats, resizes, mouse and focus events.
/// What arrives depends on the user, so nothing is promised of the result.
#[verifier::external_body]
pub fn read_event() -> (r: Result<InputEvent, std::io::Error>)
{
    match crossterm::event::read() {
        Err(e) => Err(e),
        Ok(Event::Key(k)) if k.kind == KeyEventKind::Press => Ok(InputEvent::Key(KeyEvent {
            code: match k.code { CtKeyCode::Char(c) => KeyCode::Char(c), _ => KeyCode::Other },
            modifiers: Modifiers {
                shift: k.modifiers.contains(CtMod::SHIFT),
                control: k.modifiers.contains(CtMod::CONTROL),
                alt: k.modifiers.contains(CtMod::ALT),
                more: !k.modifiers.difference(CtMod::SHIFT | CtMod::CONTROL | CtMod::ALT).is_empty(),
            },
        })),
        Ok(_) => Ok(InputEvent::Other),
    }
}

/// Relies on `crossterm::terminal::size`: it returns the live terminal's
/// `(columns, rows)`. The value depends on the terminal, so nothing is
/// promised of it.
#[verifier::external_body]
pub fn terminal_size() -> (r: Result<(u16, u16), std::io::Error>)
{
    crossterm::terminal::size()
}

/// Relies on `crossterm::terminal::disable_raw_mode`: it returns the
/// terminal driver to canonical (cooked) mode.
#[verifier::external_body]
pub fn raw_mode_disable() -> (r: Result<(), std::io::Error>)
{
    crossterm::terminal::disable_raw_mode()
}

/// The control sequence that clears the whole screen.
pub open spec fn clear_all_seq() -> Seq<char> {
    seq!['\u{1b}', '[', '2', 'J']
}

/// The control sequence that moves the cursor to the home position
/// (row 0, column 0).
pub open spec fn move_home_seq() -> Seq<char> {
    seq!['\u{1b}', '[', '1', ';', '1', 'H']
}

/// Relies on `crossterm::terminal::Clear(ClearType::All)`, whose
/// `write_ansi` emits exactly `CSI 2 J`; writing into a `String` cannot
/// fail.
#[verifier::external_body]
pub fn ansi_clear_all() -> (r: String)
    ensures
        r@ == clear_all_seq(),
{
    let mut s = String::new();
    let _ = crossterm::terminal::Clear(crossterm::terminal::ClearType::All).write_ansi(&mut s);
    s
}

/// Relies on `crossterm::cursor::MoveTo(0, 0)`, whose `write_ansi` emits
/// exactly `CSI 1 ; 1 H` (the sequence is one-based); writing into a
/// `String` cannot fail.
#[verifier::external_body]
pub fn ansi_move_home() -> (r: String)
    ensures
        r@ == move_home_seq(),
{
    let mut s = String::new();
    let _ = crossterm::cursor::MoveTo(0, 0).write_ansi(&mut s);
    s
}

} // verus!
