//! What the player did, as the screens see it.

use vstd::prelude::*;

verus! {

/// The key of a key event.  Keys that no screen listens to are `Other`.
#[derive(Clone, Copy, PartialEq, Eq, Structural, Debug)]
pub enum KeyCode {
    Up,
    Down,
    Left,
    Right,
    Enter,
    Char(char),
    Other,
}

/// What happened to the key.
#[derive(Clone, Copy, PartialEq, Eq, Structural, Debug)]
pub enum KeyEventKind {
    Press,
    Repeat,
    Release,
}

/// A key and what happened to it.
#[derive(Clone, Copy, PartialEq, Eq, Structural, Debug)]
pub struct KeyEvent {
    pub code: KeyCode,
    pub kind: KeyEventKind,
}

/// An input event.  Everything that is no key event is `Other`.
#[derive(Clone, Copy, PartialEq, Eq, Structural, Debug)]
pub enum InputEvent {
    Key(KeyEvent),
    Other,
}

impl InputEvent {
    /// The key that the event puts down, if it puts one down: the key of a key
    /// event that is no release.  Screens act on these and on nothing else.
    pub open spec fn key_down(self) -> Option<KeyCode> {
        match self {
            InputEvent::Key(key) => if key.kind == KeyEventKind::Release {
                None
            } else {
                Some(key.code)
            },
            InputEvent::Other => None,
        }
    }

    /// Whether the event is one of the key that ends the program, `q`, whatever
    /// happened to the key.
    pub open spec fn is_quit(self) -> bool {
        self matches InputEvent::Key(key) && key.code == KeyCode::Char('q')
    }

    /// The key that the event puts down, if it puts one down.
    pub fn pressed(&self) -> (code: Option<KeyCode>)
        ensures
            code == self.key_down(),
    {
        match self {
            InputEvent::Key(key) => {
                if key.kind == KeyEventKind::Release {
                    None
                } else {
                    Some(key.code)
                }
            },
            InputEvent::Other => None,
        }
    }
}

} // verus!
