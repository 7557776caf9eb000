//! Terminal input as the library reads it: the plain fields of a key event
//! that the screens decide on, beside the key input that the text fields
//! consume.
use vstd::prelude::*;

verus! {

/// The keys that the screens tell apart; every other key is `Other`.
#[derive(Debug, Clone, Copy, PartialEq, Eq, Structural)]
pub enum KeyCode {
    Char(char),
    Enter,
    Esc,
    Tab,
    BackTab,
    Up,
    Down,
    Other,
}

/// Whether a key went down, repeated or came up.
#[derive(Debug, Clone, Copy, PartialEq, Eq, Structural)]
pub enum KeyEventKind {
    Press,
    Repeat,
    Release,
}

/// The modifier bit of the Shift key.
pub const MODIFIER_SHIFT: u8 = 1u8;

/// The modifier bit of the Control key.
pub const MODIFIER_CONTROL: u8 = 2u8;

/// The modifier bit of the Alt key.
pub const MODIFIER_ALT: u8 = 4u8;

/// A key event: its key, the modifier bits held down with it, its kind and
/// the bits of the keyboard state (keypad, caps lock, num lock).
#[derive(Debug, Clone, Copy, PartialEq, Eq, Structural)]
pub struct KeyEvent {
    pub code: KeyCode,
    pub modifiers: u8,
    pub kind: KeyEventKind,
    pub state: u8,
}

impl KeyEvent {
    /// A key press with no modifier and no keyboard state, as a bare key code
    /// converts into a key event.
    pub fn from_code(code: KeyCode) -> (k: KeyEvent)
        ensures
            k == Self::plain(code),
    {
        KeyEvent { code, modifiers: 0, kind: KeyEventKind::Press, state: 0 }
    }

    /// The key event that a bare key code converts into.
    pub open spec fn plain(code: KeyCode) -> KeyEvent {
        KeyEvent { code, modifiers: 0, kind: KeyEventKind::Press, state: 0 }
    }

    /// Whether this is a key press (not a repeat or a release).
    pub open spec fn is_press(self) -> bool {
        self.kind == KeyEventKind::Press
    }
}

/// The keys that a text field tells apart; `Null` is a key that a text field
/// ignores (events that are not keys, and key releases, give it).
#[derive(Debug, Clone, Copy, PartialEq, Eq, Structural)]
pub enum TextKey {
    Char(char),
    F(u8),
    Backspace,
    Enter,
    Left,
    Right,
    Up,
    Down,
    Tab,
    Delete,
    Home,
    End,
    PageUp,
    PageDown,
    Esc,
    MouseScrollDown,
    MouseScrollUp,
    Null,
}

/// What a text field receives from an event: a key and whether Control, Alt
/// and Shift were held.
#[derive(Debug, Clone, Copy, PartialEq, Eq, Structural)]
pub struct TextInput {
    pub key: TextKey,
    pub ctrl: bool,
    pub alt: bool,
    pub shift: bool,
}

/// A terminal event: the key event it is, if it is one, and the input that a
/// text field receives from it.
#[derive(Debug, Clone, Copy, PartialEq, Eq, Structural)]
pub struct TermEvent {
    pub key: Option<KeyEvent>,
    pub input: TextInput,
}

impl TermEvent {
    /// Whether the event is a key event whose code is `code`.
    pub open spec fn has_code(self, code: KeyCode) -> bool {
        self.key matches Some(k) && k.code == code
    }

    /// Whether the event is a key press whose code is `code`.
    pub open spec fn is_press_of(self, code: KeyCode) -> bool {
        self.key matches Some(k) && k.code == code && k.kind == KeyEventKind::Press
    }
}

} // verus!
