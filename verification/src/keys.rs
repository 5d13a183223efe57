//! The keys that the editor tells apart.

use vstd::prelude::*;

verus! {

/// A key as the editor sees it.
#[derive(Clone, Copy, Debug, PartialEq, Eq, Structural)]
pub enum Key {
    Up,
    Down,
    Left,
    Right,
    Home,
    End,
    PageUp,
    PageDown,
    Enter,
    Esc,
    Backspace,
    Delete,
    Tab,
    Char(char),
    /// Any key that the editor does not act on.
    Other,
}

/// The modifier keys held with a key, as far as the editor tells them
/// apart.
#[derive(Clone, Copy, Debug, PartialEq, Eq, Structural)]
pub enum Modifiers {
    /// No modifier.
    Plain,
    /// Shift and nothing else.
    Shift,
    /// Control and nothing else.
    Control,
    /// Any other modifier or combination.
    Other,
}

/// A key press: the key and the modifiers held with it.
#[derive(Clone, Copy, Debug, PartialEq, Eq, Structural)]
pub struct KeyEvent {
    pub code: Key,
    pub modifiers: Modifiers,
}

/// The upper case form of an ASCII lower case letter; any other character
/// itself.
pub open spec fn ascii_upper(c: char) -> char {
    if 'a' <= c <= 'z' {
        ((c as u8) - 32) as u8 as char
    } else {
        c
    }
}

/// `char::to_ascii_uppercase` maps the letters `a` to `z` to `A` to `Z` and
/// leaves every other character as it is.
pub assume_specification[ char::to_ascii_uppercase ](c: &char) -> (upper: char)
    ensures
        upper == ascii_upper(*c),
;

/// A movement of the cursor.
#[derive(Clone, Copy, Debug, PartialEq, Eq, Structural)]
pub enum Motion {
    Up,
    Down,
    Left,
    Right,
    Home,
    End,
    PageUp,
    PageDown,
}

impl Key {
    /// The movement that a key asks for: the arrow and paging keys, and the
    /// letters `h`, `j`, `k`, `l` for left, down, up, right.
    pub open spec fn motion(self) -> Option<Motion> {
        match self {
            Key::Up | Key::Char('k') => Some(Motion::Up),
            Key::Down | Key::Char('j') => Some(Motion::Down),
            Key::Left | Key::Char('h') => Some(Motion::Left),
            Key::Right | Key::Char('l') => Some(Motion::Right),
            Key::Home => Some(Motion::Home),
            Key::End => Some(Motion::End),
            Key::PageUp => Some(Motion::PageUp),
            Key::PageDown => Some(Motion::PageDown),
            _ => None,
        }
    }

    pub fn as_motion(self) -> (m: Option<Motion>)
        ensures
            m == self.motion(),
    {
        match self {
            Key::Up | Key::Char('k') => Some(Motion::Up),
            Key::Down | Key::Char('j') => Some(Motion::Down),
            Key::Left | Key::Char('h') => Some(Motion::Left),
            Key::Right | Key::Char('l') => Some(Motion::Right),
            Key::Home => Some(Motion::Home),
            Key::End => Some(Motion::End),
            Key::PageUp => Some(Motion::PageUp),
            Key::PageDown => Some(Motion::PageDown),
            _ => None,
        }
    }
}

} // verus!
