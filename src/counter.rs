//! The counter demonstration: a counter component driven by keys, and the
//! message loop model of the counter screen.

use vstd::prelude::*;
use crate::events::Key;

verus! {

/// A counter that never drops below zero.
#[derive(Debug, Default, Clone, Copy, PartialEq, Eq, Structural)]
pub struct Counter {
    pub state: u32,
}

impl Counter {
    /// One more.
    pub fn increment(&mut self)
        requires
            old(self).state < u32::MAX,
        ensures
            final(self).state == old(self).state + 1,
    {
        self.state = self.state + 1;
    }

    /// One less, stopping at zero.
    pub fn decrement(&mut self)
        ensures
            final(self).state == if old(self).state > 0 {
                old(self).state - 1
            } else {
                0
            },
    {
        if self.state > 0 {
            self.state = self.state - 1;
        }
    }

    /// Up and `j` count up, Down and `k` count down; other keys do nothing.
    pub fn on_key_pressed(&mut self, key: Key)
        requires
            (key == Key::Up || key == Key::Char('j')) ==> old(self).state < u32::MAX,
        ensures
            (key == Key::Up || key == Key::Char('j')) ==> final(self).state == old(self).state
                + 1,
            (key == Key::Down || key == Key::Char('k')) ==> final(self).state == if old(
                self,
            ).state > 0 {
                old(self).state - 1
            } else {
                0
            },
            !(key == Key::Up || key == Key::Char('j') || key == Key::Down || key == Key::Char('k'))
                ==> final(self).state == old(self).state,
    {
        match key {
            Key::Up | Key::Char('j') => self.increment(),
            Key::Down | Key::Char('k') => self.decrement(),
            _ => {},
        }
    }
}

/// Whether the counter screen keeps running.
#[derive(Debug, Clone, Copy, PartialEq, Eq, Structural)]
pub enum RunningState {
    Running,
    Stopped,
}

/// The state of the counter screen.
#[derive(Debug, Clone, Copy, PartialEq, Eq, Structural)]
pub struct Model {
    pub running_state: RunningState,
    pub counter: i32,
}

impl Default for Model {
    fn default() -> (r: Self)
        ensures
            r == (Model { running_state: RunningState::Running, counter: 0 }),
    {
        Model { running_state: RunningState::Running, counter: 0 }
    }
}

/// An action on the counter screen.
#[derive(Debug, Clone, Copy, PartialEq, Eq, Structural)]
pub enum Message {
    Increment,
    Decrement,
    Quit,
}

/// The message of a key on the counter screen: `j` counts up, `k` down, `q`
/// quits.
pub fn handle_key(key: Key) -> (r: Option<Message>)
    ensures
        r == match key {
            Key::Char('j') => Some(Message::Increment),
            Key::Char('k') => Some(Message::Decrement),
            Key::Char('q') => Some(Message::Quit),
            _ => None::<Message>,
        },
{
    match key {
        Key::Char('j') => Some(Message::Increment),
        Key::Char('k') => Some(Message::Decrement),
        Key::Char('q') => Some(Message::Quit),
        _ => None,
    }
}

/// Applies a message to the counter screen. No message leads to a further
/// one.
pub fn update(model: &mut Model, msg: Message) -> (r: Option<Message>)
    requires
        msg == Message::Increment ==> old(model).counter < i32::MAX,
        msg == Message::Decrement ==> old(model).counter > i32::MIN,
    ensures
        r is None,
        *final(model) == match msg {
            Message::Increment => Model { counter: (old(model).counter + 1) as i32, ..*old(model) },
            Message::Decrement => Model { counter: (old(model).counter - 1) as i32, ..*old(model) },
            Message::Quit => Model { running_state: RunningState::Stopped, ..*old(model) },
        },
{
    match msg {
        Message::Increment => model.counter = model.counter + 1,
        Message::Decrement => model.counter = model.counter - 1,
        Message::Quit => model.running_state = RunningState::Stopped,
    }
    None
}

/// Whether a key stops the explorer: `q` does; every other key goes to the
/// components.
pub fn stops_app(key: Key) -> (r: bool)
    ensures
        r == (key == Key::Char('q')),
{
    match key {
        Key::Char('q') => true,
        _ => false,
    }
}

} // verus!
