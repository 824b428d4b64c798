//! Terminal input events: keys and mouse.
use vstd::prelude::*;

verus! {

/// A key of the keyboard.
#[derive(Debug, Clone, Copy, PartialEq, Eq, Structural)]
pub enum KeyCode {
    Backspace,
    Enter,
    Left,
    Right,
    Up,
    Down,
    Home,
    End,
    PageUp,
    PageDown,
    Tab,
    BackTab,
    Delete,
    Insert,
    F(u8),
    Char(char),
    Esc,
    /// Any other key.
    Other,
}

/// The modifier keys held down, as bit flags: shift 1, control 2, alt 4,
/// super 8, hyper 16, meta 32.
#[derive(Debug, Clone, Copy, PartialEq, Eq, Structural)]
pub struct KeyModifiers {
    pub bits: u8,
}

/// The control bit of the modifier flags.
pub open spec fn has_control(m: KeyModifiers) -> bool {
    (m.bits / 2) % 2 == 1
}

impl KeyModifiers {
    /// No modifier.
    pub fn empty() -> (r: Self)
        ensures
            r.bits == 0,
    {
        KeyModifiers { bits: 0 }
    }

    /// Control alone.
    pub fn control() -> (r: Self)
        ensures
            r.bits == 2,
    {
        KeyModifiers { bits: 2 }
    }

    /// Whether control is among the modifiers.
    pub fn contains_control(&self) -> (r: bool)
        ensures
            r == has_control(*self),
    {
        let b = self.bits;
        assert((b & 2u8 == 2u8) == ((b / 2) % 2 == 1)) by (bit_vector);
        b & 2 == 2
    }
}

/// Whether a key went down, repeats, or went up.
#[derive(Debug, Clone, Copy, PartialEq, Eq, Structural)]
pub enum KeyEventKind {
    Press,
    Repeat,
    Release,
}

/// A key event.
#[derive(Debug, Clone, Copy, PartialEq, Eq, Structural)]
pub struct KeyEvent {
    pub code: KeyCode,
    pub modifiers: KeyModifiers,
    pub kind: KeyEventKind,
}

impl KeyEvent {
    pub fn new(code: KeyCode, modifiers: KeyModifiers) -> (r: Self)
        ensures
            r == (KeyEvent { code, modifiers, kind: KeyEventKind::Press }),
    {
        KeyEvent { code, modifiers, kind: KeyEventKind::Press }
    }
}

impl vstd::std_specs::convert::FromSpecImpl<KeyCode> for KeyEvent {
    open spec fn obeys_from_spec() -> bool {
        true
    }

    open spec fn from_spec(v: KeyCode) -> KeyEvent {
        KeyEvent { code: v, modifiers: KeyModifiers { bits: 0 }, kind: KeyEventKind::Press }
    }
}

impl From<KeyCode> for KeyEvent {
    /// A press of the key with no modifier.
    fn from(code: KeyCode) -> (r: Self)
        ensures
            r == (KeyEvent { code, modifiers: KeyModifiers { bits: 0 }, kind: KeyEventKind::Press }),
    {
        KeyEvent { code, modifiers: KeyModifiers { bits: 0 }, kind: KeyEventKind::Press }
    }
}

/// A mouse button.
#[derive(Debug, Clone, Copy, PartialEq, Eq, Structural)]
pub enum MouseButton {
    Left,
    Right,
    Middle,
}

/// What the mouse did.
#[derive(Debug, Clone, Copy, PartialEq, Eq, Structural)]
pub enum MouseEventKind {
    Down(MouseButton),
    Up(MouseButton),
    Drag(MouseButton),
    Moved,
    ScrollDown,
    ScrollUp,
    ScrollLeft,
    ScrollRight,
}

/// A mouse event at a screen position.
#[derive(Debug, Clone, Copy, PartialEq, Eq, Structural)]
pub struct MouseEvent {
    pub kind: MouseEventKind,
    pub column: u16,
    pub row: u16,
    pub modifiers: KeyModifiers,
}

} // verus!
