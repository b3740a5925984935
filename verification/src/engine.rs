//! The engine: a screen and a key-event source, driven as a two-state
//! machine. Each full cycle refreshes the screen once, waits for one key
//! press, and either keeps running or — on the reserved quit combination —
//! stops. The wait for a key is unbounded in aggregate, so one call here
//! only spends a bounded poll budget; the caller loops until `Stopped` or
//! an error, which is the only way the session ends.

use vstd::prelude::*;
use crate::errors::TermError;
use crate::input::{
    scan_for_key, scan_remaining, CrosstermEvents, DetectKey, EventSource, InputEvent, KeyCode,
    KeyEvent, PollOutcome, ScanOutcome,
};
use crate::buffer::output_after_flush;
use crate::screen::{frame_seq, Display};

verus! {

/// The reserved quit combination: `q` together with exactly the ALT
/// modifier. `q` alone, or ALT with another character, or `q` with any
/// further modifier, does not quit.
pub open spec fn is_quit_key(k: KeyEvent) -> bool {
    &&& k.code == KeyCode::Char('q')
    &&& k.modifiers.alt
    &&& !k.modifiers.control
    &&& !k.modifiers.shift
    &&& !k.modifiers.more
}

/// Decide whether the frame loop keeps running after this key press:
/// `true` for every key but the reserved quit combination.
pub fn interpret_key(k: &KeyEvent) -> (keep_running: bool)
    ensures
        keep_running == !is_quit_key(*k),
{
    match k.code {
        KeyCode::Char(c) => {
            !(c == 'q' && k.modifiers.alt && !k.modifiers.control && !k.modifiers.shift
                && !k.modifiers.more)
        },
        KeyCode::Other => true,
    }
}

/// A key press without the ALT modifier never stops the loop — in
/// particular, plain `q` with no modifiers at all keeps it running.
pub proof fn quit_needs_alt(k: KeyEvent)
    requires
        !k.modifiers.alt,
    ensures
        !is_quit_key(k),
{
}

/// The two-turn session, at the level the engine's contracts speak: over
/// a source that yields one non-key event, then a key press that does not
/// quit, then the quit combination, the first wait finds the non-quit key
/// — so by `start`'s contract that turn refreshes once and keeps running —
/// and leaves exactly the quit press in the source; the second wait finds
/// the quit combination — so the second turn refreshes once and stops, the
/// source now empty. The loop runs exactly twice.
pub proof fn lemma_two_turn_session(pressed: KeyEvent, quit: KeyEvent, b1: nat, b2: nat)
    requires
        !is_quit_key(pressed),
        is_quit_key(quit),
        b1 >= 2,
        b2 >= 1,
    ensures
        scan_for_key(
            seq![
                PollOutcome::Ready(InputEvent::Other),
                PollOutcome::Ready(InputEvent::Key(pressed)),
                PollOutcome::Ready(InputEvent::Key(quit)),
            ],
            b1,
        ) == ScanOutcome::Found(pressed),
        scan_remaining(
            seq![
                PollOutcome::Ready(InputEvent::Other),
                PollOutcome::Ready(InputEvent::Key(pressed)),
                PollOutcome::Ready(InputEvent::Key(quit)),
            ],
            b1,
        ) == seq![PollOutcome::Ready(InputEvent::Key(quit))],
        scan_for_key(seq![PollOutcome::Ready(InputEvent::Key(quit))], b2)
            == ScanOutcome::Found(quit),
        scan_remaining(seq![PollOutcome::Ready(InputEvent::Key(quit))], b2)
            == Seq::<PollOutcome>::empty(),
{
    let s0 = seq![
        PollOutcome::Ready(InputEvent::Other),
        PollOutcome::Ready(InputEvent::Key(pressed)),
        PollOutcome::Ready(InputEvent::Key(quit)),
    ];
    let s1 = seq![
        PollOutcome::Ready(InputEvent::Key(pressed)),
        PollOutcome::Ready(InputEvent::Key(quit)),
    ];
    let s2 = seq![PollOutcome::Ready(InputEvent::Key(quit))];
    assert(s0.drop_first() =~= s1);
    assert(s1.drop_first() =~= s2);
    assert(s2.drop_first() =~= Seq::<PollOutcome>::empty());
    assert(scan_for_key(s0, b1) == scan_for_key(s1, (b1 - 1) as nat));
    assert(scan_for_key(s1, (b1 - 1) as nat) == ScanOutcome::Found(pressed));
    assert(scan_remaining(s0, b1) == scan_remaining(s1, (b1 - 1) as nat));
    assert(scan_remaining(s1, (b1 - 1) as nat) == s1.drop_first());
    assert(scan_remaining(s2, b2) == s2.drop_first());
}

/// What one bounded turn of the frame loop came to.
#[derive(Clone, Copy, Debug, PartialEq, Eq, Structural)]
pub enum LoopStep {
    /// The poll budget ran out before a key press arrived; call again.
    Waiting,
    /// A key press arrived and it was not the quit combination.
    Running,
    /// The quit combination arrived; the machine is in its terminal state.
    Stopped,
}

/// The engine: a key-event source and a screen.
pub struct EditKey<S: EventSource> {
    pub edit: DetectKey<S>,
    pub display: Display,
    /// Whether a fresh frame is owed before the next key press is awaited.
    /// Starts true (the first turn draws the first frame) and becomes true
    /// again each time a key press is consumed, so the screen is refreshed
    /// exactly once per cycle, not once per empty poll.
    pub frame_due: bool,
    /// The key press most recently consumed, if any (a model of the input
    /// history, not carried at run time).
    pub last_key: Ghost<Option<KeyEvent>>,
}

impl EditKey<CrosstermEvents> {
    /// An engine for the live terminal: events from crossterm, dimensions
    /// captured here, once.
    pub fn create() -> (r: Result<EditKey<CrosstermEvents>, TermError>)
        ensures
            r is Ok ==> r.unwrap().frame_due && r.unwrap().last_key@ is None
                && r.unwrap().display.content.content@ == Seq::<char>::empty()
                && r.unwrap().display.content.emitted@ == Seq::<char>::empty(),
            r is Err ==> r == Err::<EditKey<CrosstermEvents>, TermError>(TermError::Render),
    {
        match Display::create() {
            Ok(display) => Ok(EditKey {
                edit: DetectKey::new(CrosstermEvents),
                display,
                frame_due: true,
                last_key: Ghost(None),
            }),
            Err(e) => Err(e),
        }
    }
}

impl<S: EventSource> EditKey<S> {
    /// An engine over the given source and screen, for driving the frame
    /// loop against simulated input.
    pub fn with_parts(source: S, display: Display) -> (r: EditKey<S>)
        ensures
            r.edit.source == source,
            r.display == display,
            r.frame_due,
            r.last_key@ is None,
    {
        EditKey { edit: DetectKey::new(source), display, frame_due: true, last_key: Ghost(None) }
    }

    /// Wait (within the poll budget) for one key press and interpret it:
    /// `Ok(Some(true))` to keep running, `Ok(Some(false))` to stop —
    /// exactly when the quit combination was pressed — and `Ok(None)` when
    /// the budget ran out with no key press. The screen is not touched.
    /// Over a source with a determined script, the answer is pinned down:
    /// whatever key the scan of that script reaches decides it.
    pub fn constructpress(&mut self, max_polls: usize) -> (r: Result<Option<bool>, TermError>)
        ensures
            final(self).display == old(self).display,
            final(self).frame_due == old(self).frame_due,
            r is Ok && r.unwrap() is Some ==> final(self).last_key@ is Some && r.unwrap().unwrap()
                == !is_quit_key(final(self).last_key@.unwrap()),
            r is Ok && r.unwrap() is None ==> final(self).last_key == old(self).last_key,
            r is Err ==> final(self).last_key == old(self).last_key,
            old(self).edit.source.script_model() matches Some(m) ==> match scan_for_key(
                m,
                max_polls as nat,
            ) {
                ScanOutcome::Found(k) => r == Ok::<Option<bool>, TermError>(
                    Some(!is_quit_key(k)),
                ),
                ScanOutcome::OutOfBudget => r == Ok::<Option<bool>, TermError>(None),
                ScanOutcome::Failed => r == Err::<Option<bool>, TermError>(TermError::Input),
            },
            old(self).edit.source.script_model() matches Some(m)
                ==> final(self).edit.source.script_model()
                == Some(scan_remaining(m, max_polls as nat)),
    {
        match self.edit.keydetection(max_polls) {
            Err(e) => Err(e),
            Ok(None) => Ok(None),
            Ok(Some(k)) => {
                self.last_key = Ghost(Some(k));
                Ok(Some(interpret_key(&k)))
            },
        }
    }

    /// One bounded turn of the frame loop: refresh the screen where a
    /// fresh frame is owed, then wait (within the poll budget) for a key
    /// press and interpret it. The caller loops: `Waiting` and `Running`
    /// both mean "call again", `Stopped` — exactly when the consumed key
    /// press was the quit combination — ends the session, and an error is
    /// fatal and not retried.
    pub fn start(&mut self, max_polls: usize) -> (r: Result<LoopStep, TermError>)
        ensures
            final(self).display.bordersize == old(self).display.bordersize,
            !old(self).frame_due ==> final(self).display == old(self).display,
            r is Ok && old(self).frame_due ==> final(self).display.content.content@
                == Seq::<char>::empty() && final(self).display.content.emitted@
                == output_after_flush(
                old(self).display.content.emitted@,
                old(self).display.content.content@ + frame_seq(old(self).display.rows()),
            ),
            r == Ok::<LoopStep, TermError>(LoopStep::Stopped) ==> final(self).last_key@ is Some
                && is_quit_key(final(self).last_key@.unwrap()),
            r == Ok::<LoopStep, TermError>(LoopStep::Running) ==> final(self).last_key@ is Some
                && !is_quit_key(final(self).last_key@.unwrap()) && final(self).frame_due,
            r == Ok::<LoopStep, TermError>(LoopStep::Waiting) ==> final(self).last_key == old(
                self,
            ).last_key,
            r is Err ==> final(self).last_key == old(self).last_key,
            old(self).edit.source.script_model() matches Some(m) ==> {
                // A render failure happens before any polling: the source
                // is untouched and no key was consumed. Otherwise the
                // source was scanned, and holds exactly what the scan
                // leaves.
                &&& (r == Err::<LoopStep, TermError>(TermError::Render)
                    ==> final(self).edit == old(self).edit)
                &&& (r != Err::<LoopStep, TermError>(TermError::Render)
                    ==> final(self).edit.source.script_model()
                    == Some(scan_remaining(m, max_polls as nat)))
            },
            r is Ok ==> (old(self).edit.source.script_model() matches Some(m) ==> match scan_for_key(
                m,
                max_polls as nat,
            ) {
                ScanOutcome::Found(k) => r == Ok::<LoopStep, TermError>(
                    if is_quit_key(k) {
                        LoopStep::Stopped
                    } else {
                        LoopStep::Running
                    },
                ),
                ScanOutcome::OutOfBudget => r == Ok::<LoopStep, TermError>(LoopStep::Waiting),
                ScanOutcome::Failed => false,
            }),
    {
        if self.frame_due {
            match self.display.refresh_screen() {
                Err(e) => {
                    return Err(e);
                },
                Ok(_) => {},
            }
            self.frame_due = false;
        }
        match self.constructpress(max_polls) {
            Err(e) => Err(e),
            Ok(None) => Ok(LoopStep::Waiting),
            Ok(Some(true)) => {
                self.frame_due = true;
                Ok(LoopStep::Running)
            },
            Ok(Some(false)) => Ok(LoopStep::Stopped),
        }
    }
}

} // verus!
