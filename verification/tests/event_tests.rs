use charwall::events::{
    decide_frame, should_quit, Event, KeyEvent, LoopAction, MouseButton, MouseEvent,
};

fn key(c: Option<char>) -> Event {
    Event::KeyPress(KeyEvent { char: c, keysym: 0, keysym_mod: 0 })
}

#[test]
fn destroy_quits() {
    assert!(should_quit(&Event::Destroy));
    let events = vec![Event::Destroy];
    assert!(matches!(decide_frame(&events, true), LoopAction::Quit));
}

#[test]
fn q_key_quits() {
    assert!(should_quit(&key(Some('q'))));
    let events = vec![key(Some('q'))];
    assert!(matches!(decide_frame(&events, true), LoopAction::Quit));
}

#[test]
fn other_keys_are_ignored() {
    assert!(!should_quit(&key(Some('a'))));
    assert!(!should_quit(&key(None)));
    assert!(!should_quit(&Event::KeyRelease(KeyEvent {
        char: Some('q'),
        keysym: 0,
        keysym_mod: 0
    })));
    let events = vec![key(Some('a')), key(None)];
    assert!(matches!(decide_frame(&events, true), LoopAction::RunFrame));
}

#[test]
fn mouse_and_resize_are_ignored() {
    let events = vec![
        Event::MousePress(MouseEvent { button: MouseButton::Left, x: 3, y: 4 }),
        Event::MouseMotion(MouseEvent { button: MouseButton::NoButton, x: 5, y: 6 }),
        Event::Resize(640, 480),
    ];
    assert!(matches!(decide_frame(&events, true), LoopAction::RunFrame));
}

#[test]
fn quit_wins_on_the_same_iteration() {
    // the quit key arrives after other events: the iteration must still
    // quit, with no frame run
    let events = vec![Event::Resize(640, 480), key(Some('q'))];
    assert!(matches!(decide_frame(&events, true), LoopAction::Quit));
    assert!(matches!(decide_frame(&events, false), LoopAction::Quit));
}

#[test]
fn hidden_window_idles() {
    let events: Vec<Event> = Vec::new();
    assert!(matches!(decide_frame(&events, false), LoopAction::Idle));
}

#[test]
fn visible_window_runs_a_frame() {
    let events: Vec<Event> = Vec::new();
    assert!(matches!(decide_frame(&events, true), LoopAction::RunFrame));
}
