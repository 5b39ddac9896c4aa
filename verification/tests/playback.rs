// Behaviour of the playback controller state machine.

use voxi::controller::{Action, Controller, Event, IconState};

fn env(body: &str) -> String {
    format!("<speak version='1.0'>{}<silence msec='2000'/></speak>", body)
}

fn names(v: &[&str]) -> Vec<String> {
    v.iter().map(|s| s.to_string()).collect()
}

fn toggle(text: &str) -> Event {
    Event::ToggleRead { clipboard: Some(text.to_string()) }
}

#[test]
fn toggle_cycle_speaks_then_stops_once() {
    let mut c = Controller::new(names(&["Alpha"]));
    assert!(!c.is_speaking());
    let a1 = c.step(toggle("hello world"));
    assert!(c.is_speaking());
    assert_eq!(
        a1,
        vec![
            Action::Speak { markup: env("hello world") },
            Action::SetIcon { icon: IconState::Active },
        ]
    );
    let a2 = c.step(toggle("hello world"));
    assert!(!c.is_speaking());
    assert_eq!(a2, vec![Action::Stop, Action::SetIcon { icon: IconState::Idle }]);
    let stops = a1.iter().chain(a2.iter()).filter(|a| matches!(a, Action::Stop)).count();
    assert_eq!(stops, 1);
}

#[test]
fn blank_clipboard_is_a_no_op() {
    let mut c = Controller::new(names(&["Alpha"]));
    let a = c.step(toggle(" \t\r\n "));
    assert!(a.is_empty());
    assert!(!c.is_speaking());
}

#[test]
fn unavailable_clipboard_is_a_no_op() {
    let mut c = Controller::new(names(&["Alpha"]));
    let a = c.step(Event::ToggleRead { clipboard: None });
    assert!(a.is_empty());
    assert!(!c.is_speaking());
}

#[test]
fn poll_tick_auto_idles_exactly_once() {
    let mut c = Controller::new(names(&["Alpha"]));
    c.step(toggle("hello"));
    assert!(c.is_speaking());
    let still = c.step(Event::PollTick { engine_running: true });
    assert!(still.is_empty());
    assert!(c.is_speaking());
    let done = c.step(Event::PollTick { engine_running: false });
    assert_eq!(done, vec![Action::SetIcon { icon: IconState::Idle }]);
    assert!(!c.is_speaking());
    let again = c.step(Event::PollTick { engine_running: false });
    assert!(again.is_empty());
    assert!(!c.is_speaking());
}

#[test]
fn cycle_voice_advances_and_confirms_by_name() {
    let mut c = Controller::new(names(&["Alpha", "Beta", "Gamma"]));
    assert_eq!(c.voice_index(), 0);
    let a = c.step(Event::CycleVoice);
    assert_eq!(c.voice_index(), 1);
    assert!(c.is_speaking());
    assert_eq!(
        a,
        vec![
            Action::SetVoice { index: 1 },
            Action::Speak { markup: env("Beta") },
            Action::SetIcon { icon: IconState::Active },
        ]
    );
}

#[test]
fn cycle_voice_full_circle_returns_to_start() {
    let mut c = Controller::new(names(&["Alpha", "Beta", "Gamma"]));
    let start = c.voice_index();
    for _ in 0..3 {
        c.step(Event::CycleVoice);
    }
    assert_eq!(c.voice_index(), start);
}

#[test]
fn cycle_speed_confirms_level_and_wraps() {
    let mut c = Controller::new(names(&["Alpha"]));
    assert_eq!(c.speed_index(), 2);
    let a = c.step(Event::CycleSpeed);
    assert_eq!(c.speed_index(), 0);
    assert_eq!(
        a,
        vec![
            Action::SetRate { level: 0 },
            Action::Speak { markup: env("Speed 0") },
            Action::SetIcon { icon: IconState::Active },
        ]
    );
}

#[test]
fn cycle_speed_full_circle_returns_to_start() {
    let mut c = Controller::new(names(&["Alpha"]));
    let start = c.speed_index();
    let levels = [0, 5, 10];
    for _ in 0..levels.len() {
        c.step(Event::CycleSpeed);
    }
    assert_eq!(c.speed_index(), start);
}

#[test]
fn empty_catalog_cycle_voice_is_a_no_op() {
    let mut c = Controller::new(Vec::new());
    assert_eq!(c.voice_index(), 0);
    let a = c.step(Event::CycleVoice);
    assert!(a.is_empty());
    assert!(!c.is_speaking());
    assert_eq!(c.voice_index(), 0);
}

#[test]
fn preferred_voice_picked_case_insensitively_last_match_wins() {
    let c = Controller::new(names(&["Microsoft David", "Microsoft EVA One", "Microsoft Zira"]));
    assert_eq!(c.voice_index(), 1);
    let c = Controller::new(names(&["Eva A", "Eva B", "Other"]));
    assert_eq!(c.voice_index(), 1);
    let c = Controller::new(names(&["Alpha", "Beta"]));
    assert_eq!(c.voice_index(), 0);
}

#[test]
fn cycling_while_speaking_replaces_utterance_with_confirmation() {
    let mut c = Controller::new(names(&["Alpha", "Beta"]));
    c.step(toggle("long text"));
    assert!(c.is_speaking());
    let a = c.step(Event::CycleVoice);
    assert!(c.is_speaking());
    assert!(a.iter().any(|x| matches!(x, Action::Speak { .. })));
}

#[test]
fn exit_requests_quit() {
    let mut c = Controller::new(names(&["Alpha"]));
    let a = c.step(Event::Exit);
    assert_eq!(a, vec![Action::Quit]);
}

#[test]
fn clipboard_text_is_normalized_before_speaking() {
    let mut c = Controller::new(names(&["Alpha"]));
    let a = c.step(toggle("### note & https://www.example.com/x now"));
    assert_eq!(
        a,
        vec![
            Action::Speak { markup: env(". note &amp; example.com now") },
            Action::SetIcon { icon: IconState::Active },
        ]
    );
}

#[test]
fn default_rate_level_is_the_top_level() {
    let c = Controller::new(names(&["Alpha"]));
    assert_eq!(c.speed_index(), 2);
    assert_eq!(c.current_speed_level(), 10);
}
