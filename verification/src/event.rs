//! Input as the session sees it: key presses and screen size changes.

use vstd::prelude::*;

verus! {

/// A key of the keyboard.
#[derive(Debug, Clone, Copy, PartialEq, Eq, Structural)]
pub enum Key {
    Backspace,
    Enter,
    Up,
    Down,
    Home,
    End,
    PageUp,
    PageDown,
    Tab,
    Delete,
    Esc,
    /// A key that stands for a character.
    Char(char),
    /// Any key the session has no use for.
    Other,
}

/// A key together with the modifiers held down with it.
#[derive(Debug, Clone, Copy, PartialEq, Eq, Structural)]
pub struct KeyPress {
    pub key: Key,
    pub ctrl: bool,
    pub shift: bool,
}

/// What the terminal reports.
#[derive(Debug, Clone, Copy, PartialEq, Eq, Structural)]
pub enum Event {
    Key(KeyPress),
    /// The screen now has this many columns and rows.
    Resize(u16, u16),
    /// No event arrived while the program waited for one.
    Tick,
    /// Anything else, such as mouse input.
    Other,
}

impl KeyPress {
    /// The key is the character `ch`.
    pub open spec fn is_char(self, ch: char) -> bool {
        self.key == Key::Char(ch)
    }

    /// The combination that ends the program from any mode.
    pub open spec fn is_force_quit(self) -> bool {
        self.is_char('q') && self.ctrl
    }

    /// A plain key press, with no modifier held.
    pub fn plain(key: Key) -> (press: KeyPress)
        ensures
            press == (KeyPress { key, ctrl: false, shift: false }),
    {
        KeyPress { key, ctrl: false, shift: false }
    }

    /// Whether the key is the character `ch`.
    pub fn has_char(&self, ch: char) -> (yes: bool)
        ensures
            yes == self.is_char(ch),
    {
        match self.key {
            Key::Char(c) => c == ch,
            _ => false,
        }
    }
}

} // verus!
