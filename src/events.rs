//! Key presses of the request explorer and the messages they stand for.

use vstd::prelude::*;
use crate::model::InputMode;

verus! {

/// A user action on the explorer.
#[derive(Debug, Clone, Copy, PartialEq, Eq, Structural)]
pub enum Message {
    NavigateUp,
    NavigateDown,
    EnterEditMode,
    ExitEditMode,
    InputChar(char),
    DeleteChar,
    SubmitPrompt,
    Quit,
}

/// The key of a key press, as far as the explorer tells keys apart.
#[derive(Debug, Clone, Copy, PartialEq, Eq, Structural)]
pub enum Key {
    Char(char),
    Up,
    Down,
    Enter,
    Backspace,
    Esc,
    /// Any other key.
    Other,
}

/// The message of a key in normal mode: `q` quits, `i` starts editing, the
/// arrows move the selection.
pub open spec fn normal_mode_message(key: Key) -> Option<Message> {
    match key {
        Key::Char('q') => Some(Message::Quit),
        Key::Char('i') => Some(Message::EnterEditMode),
        Key::Up => Some(Message::NavigateUp),
        Key::Down => Some(Message::NavigateDown),
        _ => None,
    }
}

/// The message of a key in editing mode: Enter submits, a character is typed,
/// Backspace deletes, Esc stops editing.
pub open spec fn editing_mode_message(key: Key) -> Option<Message> {
    match key {
        Key::Enter => Some(Message::SubmitPrompt),
        Key::Char(c) => Some(Message::InputChar(c)),
        Key::Backspace => Some(Message::DeleteChar),
        Key::Esc => Some(Message::ExitEditMode),
        _ => None,
    }
}

/// The message of a key in normal mode.
pub fn handle_normal_mode(key: Key) -> (r: Option<Message>)
    ensures
        r == normal_mode_message(key),
{
    match key {
        Key::Char('q') => Some(Message::Quit),
        Key::Char('i') => Some(Message::EnterEditMode),
        Key::Up => Some(Message::NavigateUp),
        Key::Down => Some(Message::NavigateDown),
        _ => None,
    }
}

/// The message of a key in editing mode.
pub fn handle_editing_mode(key: Key) -> (r: Option<Message>)
    ensures
        r == editing_mode_message(key),
{
    match key {
        Key::Enter => Some(Message::SubmitPrompt),
        Key::Char(c) => Some(Message::InputChar(c)),
        Key::Backspace => Some(Message::DeleteChar),
        Key::Esc => Some(Message::ExitEditMode),
        _ => None,
    }
}

/// The message of a key in the given input mode.
pub fn handle_key(key: Key, input_mode: &InputMode) -> (r: Option<Message>)
    ensures
        r == match input_mode {
            InputMode::Normal => normal_mode_message(key),
            InputMode::Editing => editing_mode_message(key),
        },
{
    match input_mode {
        InputMode::Normal => handle_normal_mode(key),
        InputMode::Editing => handle_editing_mode(key),
    }
}

} // verus!
