use cozyreq::counter::{self, Counter};
use cozyreq::events::{handle_editing_mode, handle_key, handle_normal_mode, Key, Message};
use cozyreq::model::InputMode;

#[test]
fn test_handle_key_normal_mode_quit() {
    let msg = handle_key(Key::Char('q'), &InputMode::Normal);
    assert_eq!(msg, Some(Message::Quit));
}

#[test]
fn test_handle_key_normal_mode_edit() {
    let msg = handle_key(Key::Char('i'), &InputMode::Normal);
    assert_eq!(msg, Some(Message::EnterEditMode));
}

#[test]
fn test_handle_key_normal_mode_up() {
    let msg = handle_key(Key::Up, &InputMode::Normal);
    assert_eq!(msg, Some(Message::NavigateUp));
}

#[test]
fn test_handle_key_normal_mode_down() {
    let msg = handle_key(Key::Down, &InputMode::Normal);
    assert_eq!(msg, Some(Message::NavigateDown));
}

#[test]
fn test_handle_key_normal_mode_unknown() {
    let msg = handle_key(Key::Char('x'), &InputMode::Normal);
    assert_eq!(msg, None);
}

#[test]
fn test_handle_key_editing_mode_char() {
    let msg = handle_key(Key::Char('h'), &InputMode::Editing);
    assert_eq!(msg, Some(Message::InputChar('h')));
}

#[test]
fn test_handle_key_editing_mode_backspace() {
    let msg = handle_key(Key::Backspace, &InputMode::Editing);
    assert_eq!(msg, Some(Message::DeleteChar));
}

#[test]
fn test_handle_key_editing_mode_enter() {
    let msg = handle_key(Key::Enter, &InputMode::Editing);
    assert_eq!(msg, Some(Message::SubmitPrompt));
}

#[test]
fn test_handle_key_editing_mode_escape() {
    let msg = handle_key(Key::Esc, &InputMode::Editing);
    assert_eq!(msg, Some(Message::ExitEditMode));
}

#[test]
fn test_handle_key_editing_mode_navigation_ignored() {
    let msg = handle_key(Key::Up, &InputMode::Editing);
    assert_eq!(msg, None);

    let msg = handle_key(Key::Down, &InputMode::Editing);
    assert_eq!(msg, None);
}

#[test]
fn test_handle_key_with_modifiers() {
    // Modifiers are not part of `Key`: a control-q is the key `q`, which quits.
    let msg = handle_key(Key::Char('q'), &InputMode::Normal);
    assert_eq!(msg, Some(Message::Quit));
}

#[test]
fn test_handle_normal_mode() {
    assert_eq!(handle_normal_mode(Key::Char('q')), Some(Message::Quit));
    assert_eq!(handle_normal_mode(Key::Char('i')), Some(Message::EnterEditMode));
    assert_eq!(handle_normal_mode(Key::Up), Some(Message::NavigateUp));
    assert_eq!(handle_normal_mode(Key::Down), Some(Message::NavigateDown));
}

#[test]
fn test_handle_editing_mode() {
    assert_eq!(handle_editing_mode(Key::Enter), Some(Message::SubmitPrompt));
    assert_eq!(handle_editing_mode(Key::Char('a')), Some(Message::InputChar('a')));
    assert_eq!(handle_editing_mode(Key::Backspace), Some(Message::DeleteChar));
    assert_eq!(handle_editing_mode(Key::Esc), Some(Message::ExitEditMode));
}

#[test]
fn counter_counts_with_keys_and_stops_at_zero() {
    let mut c = Counter::default();
    for _ in 0..3 {
        c.on_key_pressed(Key::Char('j'));
    }
    assert_eq!(c.state, 3);
    c.on_key_pressed(Key::Down);
    assert_eq!(c.state, 2);
    c.on_key_pressed(Key::Char('x'));
    assert_eq!(c.state, 2);
    c.decrement();
    c.decrement();
    c.decrement();
    assert_eq!(c.state, 0);
}

#[test]
fn counter_screen_messages() {
    let mut m = counter::Model::default();
    assert_eq!(counter::handle_key(Key::Char('j')), Some(counter::Message::Increment));
    assert_eq!(counter::handle_key(Key::Char('z')), None);
    assert_eq!(counter::update(&mut m, counter::Message::Decrement), None);
    assert_eq!(m.counter, -1);
    counter::update(&mut m, counter::Message::Quit);
    assert_eq!(m.running_state, counter::RunningState::Stopped);
    assert!(counter::stops_app(Key::Char('q')));
    assert!(!counter::stops_app(Key::Char('j')));
}
