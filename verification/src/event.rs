//! Terminal events as the editor sees them: plain values that the program
//! around the library fills in from whatever terminal it reads.

use vstd::prelude::*;

verus! {

/// No modifier key held.
pub const NONE: u8 = 0;

/// Shift held.
pub const SHIFT: u8 = 1;

/// Control held.
pub const CONTROL: u8 = 2;

/// Alt held.
pub const ALT: u8 = 4;

/// Which key was pressed.
#[derive(Clone, Copy, Debug, PartialEq, Eq, Structural)]
pub enum KeyCode {
    Backspace,
    Enter,
    Left,
    Right,
    Up,
    Down,
    Home,
    End,
    PageUp,
    PageDown,
    Tab,
    BackTab,
    Delete,
    Insert,
    F(u8),
    Char(char),
    Null,
    Esc,
    /// Any key the editor has no use for.
    Other,
}

/// The modifier keys held with a key, one bit each ([`SHIFT`], [`CONTROL`],
/// [`ALT`], and higher bits for the rarer ones).
#[derive(Clone, Copy, Debug, PartialEq, Eq, Structural)]
pub struct KeyModifiers {
    pub bits: u8,
}

/// One key press.
#[derive(Clone, Copy, Debug, PartialEq, Eq, Structural)]
pub struct KeyEvent {
    pub code: KeyCode,
    pub modifiers: KeyModifiers,
}

/// One terminal event.
#[derive(Debug)]
pub enum Event {
    Key(KeyEvent),
    /// A block of pasted text.
    Paste(String),
    /// The terminal's new width and height.
    Resize(u16, u16),
    /// Anything else (focus, mouse).
    Other,
}

impl KeyEvent {
    /// A key press of `code` with the modifier bits `bits`.
    pub fn new(code: KeyCode, bits: u8) -> (key: KeyEvent)
        ensures
            key == key_event(code, bits),
    {
        KeyEvent { code, modifiers: KeyModifiers { bits } }
    }

    /// Whether this is exactly `code` with exactly the modifier bits `bits`.
    pub fn is(&self, code: KeyCode, bits: u8) -> (r: bool)
        ensures
            r == (*self == key_event(code, bits)),
    {
        self.code == code && self.modifiers.bits == bits
    }
}

/// The key press of `code` with the modifier bits `bits`.
pub open spec fn key_event(code: KeyCode, bits: u8) -> KeyEvent {
    KeyEvent { code, modifiers: KeyModifiers { bits } }
}

impl Event {
    /// The key press this event is, if it is one.
    pub open spec fn key(self) -> Option<KeyEvent> {
        match self {
            Event::Key(k) => Some(k),
            _ => None,
        }
    }

    /// The key press this event is, if it is one.
    pub fn as_key(&self) -> (r: Option<KeyEvent>)
        ensures
            r == self.key(),
    {
        match self {
            Event::Key(k) => Some(*k),
            _ => None,
        }
    }
}

} // verus!
