use termcore::buffer::AppendBuffer;
use termcore::engine::{interpret_key, EditKey, LoopStep};
use termcore::guard::guard_outcome;
use termcore::input::{
    DetectKey, InputEvent, KeyCode, KeyEvent, Modifiers, PollOutcome, ScriptedSource,
};
use termcore::screen::Display;
use termcore::TermError;

fn key(c: char, modifiers: Modifiers) -> InputEvent {
    InputEvent::Key(KeyEvent { code: KeyCode::Char(c), modifiers })
}

#[test]
fn borders_single_row_has_one_glyph_and_no_break() {
    let mut d = Display::with_size(10, 1);
    d.borders();
    assert_eq!(d.content.content.as_str(), ">");
}

#[test]
fn borders_draws_one_glyph_per_row_with_breaks_between() {
    let mut d = Display::with_size(80, 3);
    d.borders();
    assert_eq!(d.content.content.as_str(), ">\r\n>\r\n>");
}

#[test]
fn borders_has_no_trailing_break_and_exact_counts() {
    let mut d = Display::with_size(5, 4);
    d.borders();
    let s = d.content.content.as_str();
    assert_eq!(s.chars().filter(|&c| c == '>').count(), 4);
    assert_eq!(s.matches("\r\n").count(), 3);
    assert!(s.ends_with('>'));
}

#[test]
fn flush_after_append_leaves_buffer_empty() {
    let mut b = AppendBuffer::new();
    b.push_string("hello");
    b.push(' ');
    b.push_string("frame");
    let r = b.flush();
    assert!(r.is_ok());
    assert_eq!(b.content.as_str(), "");
}

#[test]
fn append_after_flush_holds_only_the_new_frame() {
    let mut b = AppendBuffer::new();
    b.push_string("first frame");
    assert!(b.flush().is_ok());
    b.push_string("second frame");
    assert_eq!(b.content.as_str(), "second frame");
}

#[test]
fn write_accepts_valid_text_whole() {
    let mut b = AppendBuffer::new();
    let r = b.write("héllo".as_bytes());
    assert_eq!(r, Ok("héllo".len()));
    assert_eq!(b.content.as_str(), "héllo");
}

#[test]
fn write_refuses_invalid_bytes_without_mutating() {
    let mut b = AppendBuffer::new();
    b.push_string("kept");
    let r = b.write(&[0xff, 0xfe, 0x01]);
    assert_eq!(r, Err(TermError::Encoding));
    assert_eq!(b.content.as_str(), "kept");
}

#[test]
fn queue_frame_queues_clear_home_borders_home() {
    let mut d = Display::with_size(4, 2);
    d.queue_frame();
    assert_eq!(d.content.content.as_str(), "\x1b[2J\x1b[1;1H>\r\n>\x1b[1;1H");
}

#[test]
fn refresh_screen_leaves_buffer_empty() {
    let mut d = Display::with_size(4, 2);
    let r = d.refresh_screen();
    assert!(r.is_ok());
    assert_eq!(d.content.content.as_str(), "");
}

#[test]
fn wipe_sequence_is_clear_then_home() {
    assert_eq!(Display::wipe_sequence().as_str(), "\x1b[2J\x1b[1;1H");
}

#[test]
fn wipe_screen_succeeds_on_a_live_output() {
    assert_eq!(Display::wipe_screen(), Ok(()));
}

#[test]
fn engine_runs_one_extra_cycle_then_stops() {
    let script = vec![
        PollOutcome::Ready(InputEvent::Other),
        PollOutcome::Ready(key('a', Modifiers::none())),
        PollOutcome::Ready(key('q', Modifiers::alt_only())),
    ];
    let mut engine = EditKey::with_parts(ScriptedSource::new(script), Display::with_size(10, 2));
    let mut steps = Vec::new();
    loop {
        match engine.start(10).expect("the scripted session must not fail") {
            LoopStep::Waiting => {},
            LoopStep::Running => steps.push(LoopStep::Running),
            LoopStep::Stopped => {
                steps.push(LoopStep::Stopped);
                break;
            },
        }
    }
    assert_eq!(steps, vec![LoopStep::Running, LoopStep::Stopped]);
    assert_eq!(engine.edit.source.pos, 3);
}

#[test]
fn plain_q_without_alt_keeps_running() {
    let k = KeyEvent { code: KeyCode::Char('q'), modifiers: Modifiers::none() };
    assert!(interpret_key(&k));
}

#[test]
fn q_with_exactly_alt_stops() {
    let k = KeyEvent { code: KeyCode::Char('q'), modifiers: Modifiers::alt_only() };
    assert!(!interpret_key(&k));
}

#[test]
fn q_with_alt_and_another_modifier_keeps_running() {
    let mut m = Modifiers::alt_only();
    m.shift = true;
    let k = KeyEvent { code: KeyCode::Char('q'), modifiers: m };
    assert!(interpret_key(&k));
}

#[test]
fn alt_with_another_character_keeps_running() {
    let k = KeyEvent { code: KeyCode::Char('x'), modifiers: Modifiers::alt_only() };
    assert!(interpret_key(&k));
}

#[test]
fn keydetection_survives_empty_polls() {
    let script = vec![
        PollOutcome::Pending,
        PollOutcome::Pending,
        PollOutcome::Pending,
        PollOutcome::Ready(key('q', Modifiers::alt_only())),
    ];
    let mut source = DetectKey::new(ScriptedSource::new(script));
    let got = source.keydetection(10).expect("polling the script must not fail");
    assert_eq!(
        got,
        Some(KeyEvent { code: KeyCode::Char('q'), modifiers: Modifiers::alt_only() })
    );
}

#[test]
fn engine_stops_after_three_empty_polls() {
    let script = vec![
        PollOutcome::Pending,
        PollOutcome::Pending,
        PollOutcome::Pending,
        PollOutcome::Ready(key('q', Modifiers::alt_only())),
    ];
    let mut engine = EditKey::with_parts(ScriptedSource::new(script), Display::with_size(10, 2));
    let step = engine.start(10).expect("the scripted session must not fail");
    assert_eq!(step, LoopStep::Stopped);
}

#[test]
fn keydetection_discards_non_key_events() {
    let script = vec![
        PollOutcome::Ready(InputEvent::Other),
        PollOutcome::Ready(key('a', Modifiers::none())),
    ];
    let mut source = DetectKey::new(ScriptedSource::new(script));
    let got = source.keydetection(10).expect("polling the script must not fail");
    assert_eq!(got, Some(KeyEvent { code: KeyCode::Char('a'), modifiers: Modifiers::none() }));
}

#[test]
fn keydetection_consumes_nothing_past_the_returned_key() {
    let script = vec![
        PollOutcome::Ready(InputEvent::Other),
        PollOutcome::Ready(key('a', Modifiers::none())),
        PollOutcome::Ready(key('q', Modifiers::alt_only())),
    ];
    let mut source = DetectKey::new(ScriptedSource::new(script));
    let got = source.keydetection(10).expect("polling the script must not fail");
    assert_eq!(got, Some(KeyEvent { code: KeyCode::Char('a'), modifiers: Modifiers::none() }));
    assert_eq!(source.source.pos, 2);
    let again = source.keydetection(10).expect("polling the script must not fail");
    assert_eq!(
        again,
        Some(KeyEvent { code: KeyCode::Char('q'), modifiers: Modifiers::alt_only() })
    );
}

#[test]
fn keydetection_reads_nothing_past_a_failure() {
    let script = vec![
        PollOutcome::Pending,
        PollOutcome::Failed,
        PollOutcome::Ready(key('a', Modifiers::none())),
    ];
    let mut source = DetectKey::new(ScriptedSource::new(script));
    assert_eq!(source.keydetection(10), Err(TermError::Input));
    assert_eq!(source.source.pos, 2);
}

#[test]
fn keydetection_gives_up_only_when_the_budget_runs_out() {
    let script = vec![PollOutcome::Pending, PollOutcome::Pending];
    let mut source = DetectKey::new(ScriptedSource::new(script));
    assert_eq!(source.keydetection(2), Ok(None));
    let mut empty = DetectKey::new(ScriptedSource::new(Vec::new()));
    assert_eq!(empty.keydetection(0), Ok(None));
}

#[test]
fn keydetection_propagates_a_source_failure() {
    let script = vec![PollOutcome::Pending, PollOutcome::Failed];
    let mut source = DetectKey::new(ScriptedSource::new(script));
    assert_eq!(source.keydetection(10), Err(TermError::Input));
}

#[test]
fn guard_reports_a_failed_restore_step() {
    assert_eq!(guard_outcome(false, true), Err(TermError::Restore));
}

#[test]
fn guard_reports_a_failed_wipe_step() {
    assert_eq!(guard_outcome(true, false), Err(TermError::Restore));
}

#[test]
fn guard_reports_when_both_steps_fail() {
    assert_eq!(guard_outcome(false, false), Err(TermError::Restore));
}

#[test]
fn guard_is_quiet_when_both_steps_succeed() {
    assert_eq!(guard_outcome(true, true), Ok(()));
}
