//! What the terminal reports, reduced to what the interface acts on.

use vstd::prelude::*;

verus! {

/// A key, as far as the interface tells keys apart.
#[derive(Clone, Copy, Debug, PartialEq, Eq, Structural)]
pub enum Key {
    /// A key that types a character.
    Char(char),
    /// Any other key: arrows, function keys, modifiers alone.
    Other,
}

/// What happened to a key.
#[derive(Clone, Copy, Debug, PartialEq, Eq, Structural)]
pub enum KeyKind {
    Press,
    Repeat,
    Release,
}

/// One key event.
#[derive(Clone, Copy, Debug, PartialEq, Eq, Structural)]
pub struct KeyInput {
    pub key: Key,
    pub kind: KeyKind,
}

/// What one poll of the terminal gave.
#[derive(Clone, Copy, Debug, PartialEq, Eq, Structural)]
pub enum Input {
    /// A key event.
    Key(KeyInput),
    /// Some other event: the mouse, a resize, focus, a paste.
    Other,
    /// No event within the time allowed, or none that could be read.
    Nothing,
}

/// What the user wants, as the interface understands it.
#[derive(Clone, Copy, Debug, PartialEq, Eq, Structural)]
pub enum Intent {
    /// Leave the program.
    Quit,
    /// A character to show as the last key.
    Show(char),
    /// Nothing to act on.
    Ignore,
}

/// The intent behind a pressed key: `q` quits, any other character is
/// shown, other keys mean nothing.
pub open spec fn intent_of_key(key: Key) -> Intent {
    match key {
        Key::Char(c) => if c == 'q' {
            Intent::Quit
        } else {
            Intent::Show(c)
        },
        Key::Other => Intent::Ignore,
    }
}

/// The intent behind what a poll gave: that of the key where a key was
/// pressed, nothing for a repeat, a release, another event or none.
pub open spec fn intent_of(input: Input) -> Intent {
    match input {
        Input::Key(event) => if event.kind == KeyKind::Press {
            intent_of_key(event.key)
        } else {
            Intent::Ignore
        },
        Input::Other => Intent::Ignore,
        Input::Nothing => Intent::Ignore,
    }
}

impl Key {
    /// The intent behind this key when it is pressed.
    pub fn intent(self) -> (intent: Intent)
        ensures
            intent == intent_of_key(self),
    {
        match self {
            Key::Char(c) => {
                if c == 'q' {
                    Intent::Quit
                } else {
                    Intent::Show(c)
                }
            },
            Key::Other => Intent::Ignore,
        }
    }
}

impl Input {
    /// The intent behind what a poll gave.
    pub fn intent(self) -> (intent: Intent)
        ensures
            intent == intent_of(self),
    {
        match self {
            Input::Key(event) => {
                match event.kind {
                    KeyKind::Press => event.key.intent(),
                    KeyKind::Repeat => Intent::Ignore,
                    KeyKind::Release => Intent::Ignore,
                }
            },
            Input::Other => Intent::Ignore,
            Input::Nothing => Intent::Ignore,
        }
    }
}

} // verus!
