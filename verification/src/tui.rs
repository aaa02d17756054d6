//! Keyboard input of the dashboard and the actions bound to it.
//!
//! The host reads the terminal and hands over what it read as an
//! [`InputEvent`]. Only key presses are bound to actions, so a platform that
//! also reports the repeats and the release of a key triggers each action once.

use vstd::prelude::*;

verus! {

/// A key, as far as the bindings tell keys apart.
#[derive(Clone, Copy, Debug, PartialEq, Eq, Structural)]
pub enum Key {
    /// A key that produces the given character.
    Char(char),
    /// The left arrow.
    Left,
    /// The right arrow.
    Right,
    /// Enter or return.
    Enter,
    /// Any other key.
    Other,
}

/// What the input source delivered.
#[derive(Clone, Copy, Debug, PartialEq, Eq, Structural)]
pub enum InputEvent {
    /// A key went down.
    KeyPress(Key),
    /// A held key repeated.
    KeyRepeat(Key),
    /// A key came up.
    KeyRelease(Key),
    /// Anything else: the mouse, a resize, a paste.
    Other,
}

/// The actions that the program can take.
#[derive(Clone, Copy, Debug, PartialEq, Eq, Structural)]
pub enum Action {
    /// Poll the position service now.
    PingRESTAPI,
    /// Lengthen the delay between polls.
    IncreaseDelayTime,
    /// Shorten the delay between polls.
    DecreaseDelayTime,
    /// Leave the program.
    Exit,
    /// The key is not bound; nothing happens.
    Error,
}

impl Action {
    /// The key bindings: `q` quits, the arrows change the delay, enter polls,
    /// and every other key is unbound.
    pub open spec fn bound_to(key: Key) -> Action {
        match key {
            Key::Char(c) => if c == 'q' {
                Action::Exit
            } else {
                Action::Error
            },
            Key::Left => Action::DecreaseDelayTime,
            Key::Right => Action::IncreaseDelayTime,
            Key::Enter => Action::PingRESTAPI,
            Key::Other => Action::Error,
        }
    }

    /// The action that an input event triggers, if any: that of the key for a
    /// key press, none for everything else.
    pub open spec fn triggered_by(event: InputEvent) -> Option<Action> {
        match event {
            InputEvent::KeyPress(key) => Some(Action::bound_to(key)),
            _ => None,
        }
    }

    /// The action bound to a pressed key.
    pub fn from_keypress(key: Key) -> (action: Action)
        ensures
            action == Action::bound_to(key),
    {
        match key {
            Key::Char(c) => {
                if c == 'q' {
                    Action::Exit
                } else {
                    Action::Error
                }
            },
            Key::Left => Action::DecreaseDelayTime,
            Key::Right => Action::IncreaseDelayTime,
            Key::Enter => Action::PingRESTAPI,
            Key::Other => Action::Error,
        }
    }

    /// The action that an input event triggers, if any. Repeats, releases and
    /// other events never reach the key bindings.
    pub fn from_event(event: InputEvent) -> (action: Option<Action>)
        ensures
            action == Action::triggered_by(event),
    {
        match event {
            InputEvent::KeyPress(key) => Some(Action::from_keypress(key)),
            _ => None,
        }
    }
}

} // verus!
