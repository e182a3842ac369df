use macroboard::board::{Action, MacroBoard, Received};
use macroboard::event::{InputEvent, EV_KEY, KEY_ESC};

const KEY_A: u16 = 30;
const KEY_B: u16 = 48;

fn board() -> (crossbeam_channel::Sender<InputEvent>, MacroBoard) {
    let (tx, rx) = crossbeam_channel::unbounded();
    (tx, MacroBoard::new(rx, 0x413c, 0x2011))
}

fn run_name(a: &Action) -> Option<String> {
    match a {
        Action::RunMacro { key_name } => Some(key_name.clone()),
        _ => None,
    }
}

#[test]
fn new_board_is_running() {
    let (_tx, b) = board();
    assert!(!b.quit);
    assert_eq!(b.vendor, 0x413c);
    assert_eq!(b.product, 0x2011);
    assert!(b.keep_running(false));
    assert!(!b.keep_running(true));
}

#[test]
fn escape_release_quits_and_runs_its_macro() {
    let (_tx, mut b) = board();
    let a = b.process_event(InputEvent::key(KEY_ESC, 0));
    assert!(b.quit);
    assert!(!b.keep_running(false));
    assert_eq!(run_name(&a), Some("KEY_ESC".to_string()));
}

#[test]
fn escape_press_does_not_quit() {
    let (_tx, mut b) = board();
    let a = b.process_event(InputEvent::key(KEY_ESC, 1));
    assert!(!b.quit);
    assert!(run_name(&a).is_none());
}

#[test]
fn release_runs_macro_named_after_key() {
    let (_tx, mut b) = board();
    let a = b.process_event(InputEvent::key(KEY_A, 0));
    assert!(!b.quit);
    assert_eq!(run_name(&a), Some("KEY_A".to_string()));
    let a = b.process_event(InputEvent::key(KEY_B, 0));
    assert_eq!(run_name(&a), Some("KEY_B".to_string()));
}

#[test]
fn press_and_repeat_are_only_reported() {
    let (_tx, mut b) = board();
    for value in [1, 2, -1] {
        match b.process_event(InputEvent::key(KEY_A, value)) {
            Action::Report { key_name, value: v } => {
                assert_eq!(key_name, "KEY_A");
                assert_eq!(v, value);
            }
            other => panic!("unexpected action {:?}", other),
        }
    }
    assert!(!b.quit);
}

#[test]
fn non_key_events_are_ignored() {
    let (_tx, mut b) = board();
    // a relative motion event, and a synchronisation event
    assert!(matches!(b.process_event(InputEvent::new(2, 0, 0)), Action::Nothing));
    assert!(matches!(b.process_event(InputEvent::new(0, KEY_ESC, 0)), Action::Nothing));
    assert!(!b.quit);
}

#[test]
fn unknown_code_gets_a_name_that_names_no_key() {
    let (_tx, mut b) = board();
    let a = b.process_event(InputEvent::key(1000, 0));
    assert_eq!(run_name(&a), Some("unknown key: 1000".to_string()));
}

#[test]
fn event_from_channel_is_dispatched() {
    let (tx, mut b) = board();
    tx.send(InputEvent::key(KEY_A, 0)).unwrap();
    let (r, a) = b.process_events();
    assert_eq!(r, Received::Event(InputEvent::key(KEY_A, 0)));
    assert_eq!(run_name(&a), Some("KEY_A".to_string()));
    assert!(!b.quit);
}

#[test]
fn empty_channel_times_out() {
    let (_tx, mut b) = board();
    let (r, a) = b.process_events();
    assert_eq!(r, Received::Timeout);
    assert!(matches!(a, Action::Nothing));
    assert!(!b.quit);
}

#[test]
fn disconnected_channel_quits() {
    let (tx, mut b) = board();
    drop(tx);
    let started = std::time::Instant::now();
    let (r, a) = b.process_events();
    assert!(started.elapsed() < std::time::Duration::from_millis(100));
    assert_eq!(r, Received::Disconnected);
    assert!(matches!(a, Action::Nothing));
    assert!(b.quit);
}

#[test]
fn events_queued_before_disconnect_come_first() {
    let (tx, mut b) = board();
    tx.send(InputEvent::key(KEY_A, 1)).unwrap();
    drop(tx);
    let (r, _) = b.process_events();
    assert_eq!(r, Received::Event(InputEvent::key(KEY_A, 1)));
    assert!(!b.quit);
    let (r, _) = b.process_events();
    assert_eq!(r, Received::Disconnected);
    assert!(b.quit);
}

#[test]
fn handle_follows_each_outcome() {
    let (_tx, mut b) = board();
    assert!(matches!(b.handle(Received::Timeout), Action::Nothing));
    assert!(!b.quit);
    assert!(matches!(b.handle(Received::Disconnected), Action::Nothing));
    assert!(b.quit);
    // once quit, the state stays quit
    b.handle(Received::Event(InputEvent::key(KEY_A, 0)));
    assert!(b.quit);
}

#[test]
fn device_matching_needs_ids_and_escape() {
    let (_tx, b) = board();
    assert!(b.matches_device(0x413c, 0x2011, &vec![30, KEY_ESC, 48]));
    assert!(!b.matches_device(0x413c, 0x2011, &vec![30, 48]));
    assert!(!b.matches_device(0x413c, 0x2011, &vec![]));
    assert!(!b.matches_device(0x413d, 0x2011, &vec![KEY_ESC]));
    assert!(!b.matches_device(0x413c, 0x2012, &vec![KEY_ESC]));
}

#[test]
fn event_predicates() {
    let e = InputEvent::new(EV_KEY, KEY_ESC, 0);
    assert!(e.is_key() && e.is_release() && e.is_escape_release());
    let p = InputEvent::key(KEY_ESC, 1);
    assert!(p.is_key() && !p.is_release() && !p.is_escape_release());
    let a = InputEvent::key(KEY_A, 0);
    assert!(a.is_release() && !a.is_escape_release());
    assert!(!InputEvent::new(3, 0, 0).is_key());
}
