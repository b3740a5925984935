//! The library's own model of terminal input: a key press is a key code
//! together with the set of modifier flags held down with it, and an input
//! event is either a key press or something else (resize, mouse, focus, …)
//! that the frame loop discards.

use vstd::prelude::*;
use crate::errors::TermError;
use crate::term::{poll_input, read_event};

verus! {

/// The key that was pressed. The core only ever inspects printable
/// characters; every other key is carried as `Other`.
#[derive(Clone, Copy, Debug, PartialEq, Eq, Structural)]
pub enum KeyCode {
    /// A printable character key.
    Char(char),
    /// Any non-character key (arrows, function keys, …).
    Other,
}

/// The modifier flags held down together with a key press. `more` stands
/// for any modifier beyond the three named ones (super, hyper, …), so that
/// "no other modifiers" is expressible exactly.
#[derive(Clone, Copy, Debug, PartialEq, Eq, Structural)]
pub struct Modifiers {
    pub shift: bool,
    pub control: bool,
    pub alt: bool,
    pub more: bool,
}

impl Modifiers {
    /// No modifier held down.
    pub fn none() -> (r: Modifiers)
        ensures
            r == (Modifiers { shift: false, control: false, alt: false, more: false }),
    {
        Modifiers { shift: false, control: false, alt: false, more: false }
    }

    /// Exactly the ALT modifier, nothing else.
    pub fn alt_only() -> (r: Modifiers)
        ensures
            r == (Modifiers { shift: false, control: false, alt: true, more: false }),
    {
        Modifiers { shift: false, control: false, alt: true, more: false }
    }
}

/// One key press: which key, and which modifiers were held.
#[derive(Clone, Copy, Debug, PartialEq, Eq, Structural)]
pub struct KeyEvent {
    pub code: KeyCode,
    pub modifiers: Modifiers,
}

/// One event read from the input source.
#[derive(Clone, Copy, Debug, PartialEq, Eq, Structural)]
pub enum InputEvent {
    /// A key press.
    Key(KeyEvent),
    /// Any other kind of event; the core discards these.
    Other,
}

/// What one simulated poll yields.
#[derive(Clone, Copy, Debug, PartialEq, Eq, Structural)]
pub enum PollOutcome {
    /// Nothing arrived within the poll window.
    Pending,
    /// One event arrived.
    Ready(InputEvent),
    /// The source failed.
    Failed,
}

/// How the caller of a poll sees one poll outcome.
pub open spec fn outcome_result(o: PollOutcome) -> Result<Option<InputEvent>, TermError> {
    match o {
        PollOutcome::Pending => Ok(None),
        PollOutcome::Ready(ev) => Ok(Some(ev)),
        PollOutcome::Failed => Err(TermError::Input),
    }
}

/// Where input events come from. One poll waits up to the source's window
/// for an event: `Ok(None)` when nothing arrived in time, `Ok(Some(_))`
/// for one event, `Err(_)` when the source itself failed (which is fatal —
/// the caller never retries a failure, only an empty poll).
pub trait EventSource {
    /// The outcomes this source's future polls will yield, where that is
    /// determined — `None` for a source, such as the live terminal, whose
    /// future nobody knows. Polling a determined source walks its script
    /// from the front; past the end it reports an input failure.
    spec fn script_model(&self) -> Option<Seq<PollOutcome>>;

    fn poll_event(&mut self) -> (r: Result<Option<InputEvent>, TermError>)
        ensures
            old(self).script_model() matches Some(m) ==> {
                if m.len() == 0 {
                    &&& r == Err::<Option<InputEvent>, TermError>(TermError::Input)
                    &&& final(self).script_model() == Some(m)
                } else {
                    &&& r == outcome_result(m.first())
                    &&& final(self).script_model() == Some(m.drop_first())
                }
            },
    ;
}

/// How long one poll of the live terminal waits before giving the retry
/// loop a chance to go around again, in milliseconds.
pub const POLL_TIMEOUT_MS: u64 = 1000;

/// The live terminal as an event source, polled through crossterm.
pub struct CrosstermEvents;

impl EventSource for CrosstermEvents {
    open spec fn script_model(&self) -> Option<Seq<PollOutcome>> {
        None
    }

    fn poll_event(&mut self) -> (r: Result<Option<InputEvent>, TermError>) {
        match poll_input(POLL_TIMEOUT_MS) {
            Err(_) => Err(TermError::Input),
            Ok(false) => Ok(None),
            Ok(true) => match read_event() {
                Err(_) => Err(TermError::Input),
                Ok(ev) => Ok(Some(ev)),
            },
        }
    }
}

/// A simulated event source that replays a fixed script of poll outcomes,
/// for exercising the retry loop and the engine without a terminal. A poll
/// past the end of the script reports an input failure.
pub struct ScriptedSource {
    pub script: Vec<PollOutcome>,
    pub pos: usize,
}

impl ScriptedSource {
    pub fn new(script: Vec<PollOutcome>) -> (r: ScriptedSource)
        ensures
            r.script == script,
            r.pos == 0,
    {
        ScriptedSource { script, pos: 0 }
    }
}

impl EventSource for ScriptedSource {
    open spec fn script_model(&self) -> Option<Seq<PollOutcome>> {
        if self.pos <= self.script.len() {
            Some(self.script@.skip(self.pos as int))
        } else {
            Some(Seq::empty())
        }
    }

    fn poll_event(&mut self) -> (r: Result<Option<InputEvent>, TermError>) {
        if self.pos < self.script.len() {
            let ghost m = self.script_model().unwrap();
            let item = self.script[self.pos];
            self.pos = self.pos + 1;
            proof {
                assert(item == m.first());
                assert(m.drop_first() =~= self.script@.skip(self.pos as int));
            }
            match item {
                PollOutcome::Pending => Ok(None),
                PollOutcome::Ready(ev) => Ok(Some(ev)),
                PollOutcome::Failed => Err(TermError::Input),
            }
        } else {
            proof {
                if self.pos <= self.script.len() {
                    assert(self.script@.skip(self.pos as int) =~= Seq::<PollOutcome>::empty());
                }
            }
            Err(TermError::Input)
        }
    }
}

/// What waiting for a key press comes to, over a determined script of poll
/// outcomes and a poll budget.
pub enum ScanOutcome {
    /// A key press was reached within the budget.
    Found(KeyEvent),
    /// The budget ran out first.
    OutOfBudget,
    /// The source failed (or its script ran dry) first.
    Failed,
}

/// Walk a script of poll outcomes, spending one poll of budget per empty
/// window or discarded non-key event, until a key press, a failure, or the
/// end of the budget.
pub open spec fn scan_for_key(script: Seq<PollOutcome>, budget: nat) -> ScanOutcome
    decreases budget,
{
    if budget == 0 {
        ScanOutcome::OutOfBudget
    } else if script.len() == 0 {
        ScanOutcome::Failed
    } else {
        match script.first() {
            PollOutcome::Failed => ScanOutcome::Failed,
            PollOutcome::Ready(InputEvent::Key(k)) => ScanOutcome::Found(k),
            PollOutcome::Pending => scan_for_key(script.drop_first(), (budget - 1) as nat),
            PollOutcome::Ready(InputEvent::Other) => scan_for_key(
                script.drop_first(),
                (budget - 1) as nat,
            ),
        }
    }
}

/// What is left of a script of poll outcomes after waiting for a key
/// press within a budget: everything up to and including the first key
/// press (or the failing poll) is consumed, and nothing after it — a
/// budget that runs out first leaves the rest untouched.
pub open spec fn scan_remaining(script: Seq<PollOutcome>, budget: nat) -> Seq<PollOutcome>
    decreases budget,
{
    if budget == 0 {
        script
    } else if script.len() == 0 {
        script
    } else {
        match script.first() {
            PollOutcome::Failed => script.drop_first(),
            PollOutcome::Ready(InputEvent::Key(k)) => script.drop_first(),
            PollOutcome::Pending => scan_remaining(script.drop_first(), (budget - 1) as nat),
            PollOutcome::Ready(InputEvent::Other) => scan_remaining(
                script.drop_first(),
                (budget - 1) as nat,
            ),
        }
    }
}

/// Empty poll windows only spend budget, they never lose a key press: a
/// source that yields nothing three times in a row and then a key press
/// still has that key press found, given budget for the four polls.
pub proof fn lemma_key_survives_empty_polls(k: KeyEvent, budget: nat)
    requires
        budget >= 4,
    ensures
        scan_for_key(
            seq![
                PollOutcome::Pending,
                PollOutcome::Pending,
                PollOutcome::Pending,
                PollOutcome::Ready(InputEvent::Key(k)),
            ],
            budget,
        ) == ScanOutcome::Found(k),
{
    let s0 = seq![
        PollOutcome::Pending,
        PollOutcome::Pending,
        PollOutcome::Pending,
        PollOutcome::Ready(InputEvent::Key(k)),
    ];
    let s1 = seq![
        PollOutcome::Pending,
        PollOutcome::Pending,
        PollOutcome::Ready(InputEvent::Key(k)),
    ];
    let s2 = seq![PollOutcome::Pending, PollOutcome::Ready(InputEvent::Key(k))];
    let s3 = seq![PollOutcome::Ready(InputEvent::Key(k))];
    assert(s0.drop_first() =~= s1);
    assert(s1.drop_first() =~= s2);
    assert(s2.drop_first() =~= s3);
    assert(scan_for_key(s0, budget) == scan_for_key(s1, (budget - 1) as nat));
    assert(scan_for_key(s1, (budget - 1) as nat) == scan_for_key(s2, (budget - 2) as nat));
    assert(scan_for_key(s2, (budget - 2) as nat) == scan_for_key(s3, (budget - 3) as nat));
    assert(scan_for_key(s3, (budget - 3) as nat) == ScanOutcome::Found(k));
}

/// The key-event source of the frame loop: it polls its underlying source
/// for the next genuine key press, discarding every other event. The wait
/// for a key has no overall bound; one call spends a bounded poll budget,
/// and the caller's loop supplies the unbounded retry.
pub struct DetectKey<S: EventSource> {
    pub source: S,
}

impl<S: EventSource> DetectKey<S> {
    pub fn new(source: S) -> (r: DetectKey<S>)
        ensures
            r.source == source,
    {
        DetectKey { source }
    }

    /// Wait for the next key press, polling the source at most `max_polls`
    /// times. Empty poll windows and non-key events are discarded, never
    /// returned; `Ok(None)` means the budget ran out with no key press, and
    /// the caller is expected to simply call again — the overall wait for a
    /// key has no bound, it is the caller's retry loop. A failure of the
    /// source is returned at once, never retried. Over a source with a
    /// determined script, the result is exactly what scanning that script
    /// within the budget yields, and the source is left holding exactly
    /// what the scan leaves: nothing past the returned key press (or past
    /// the failing poll) is consumed.
    pub fn keydetection(&mut self, max_polls: usize) -> (r: Result<Option<KeyEvent>, TermError>)
        ensures
            max_polls == 0 ==> r == Ok::<Option<KeyEvent>, TermError>(None),
            old(self).source.script_model() matches Some(m) ==> match scan_for_key(
                m,
                max_polls as nat,
            ) {
                ScanOutcome::Found(k) => r == Ok::<Option<KeyEvent>, TermError>(Some(k)),
                ScanOutcome::OutOfBudget => r == Ok::<Option<KeyEvent>, TermError>(None),
                ScanOutcome::Failed => r == Err::<Option<KeyEvent>, TermError>(TermError::Input),
            },
            old(self).source.script_model() matches Some(m) ==> final(self).source.script_model()
                == Some(scan_remaining(m, max_polls as nat)),
    {
        let ghost start_model = self.source.script_model();
        let mut polls_left: usize = max_polls;
        while polls_left > 0
            invariant
                polls_left <= max_polls,
                start_model == old(self).source.script_model(),
                start_model matches Some(m) ==> {
                    &&& self.source.script_model() is Some
                    &&& scan_for_key(m, max_polls as nat) == scan_for_key(
                        self.source.script_model().unwrap(),
                        polls_left as nat,
                    )
                    &&& scan_remaining(m, max_polls as nat) == scan_remaining(
                        self.source.script_model().unwrap(),
                        polls_left as nat,
                    )
                },
            decreases polls_left,
        {
            match self.source.poll_event() {
                Err(e) => {
                    return Err(e);
                },
                Ok(None) => {
                    // nothing within the poll window: wait again
                    polls_left = polls_left - 1;
                },
                Ok(Some(InputEvent::Key(k))) => {
                    return Ok(Some(k));
                },
                Ok(Some(InputEvent::Other)) => {
                    // not a key press: discard and wait again
                    polls_left = polls_left - 1;
                },
            }
        }
        Ok(None)
    }
}

} // verus!
