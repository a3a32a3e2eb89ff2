//! Key events as plain values.

use vstd::prelude::*;

verus! {

/// The key that was pressed.
#[derive(Debug, Clone, Copy, PartialEq, Eq, Structural, Hash)]
pub enum KeyCode {
    Char(char),
    F(u8),
    Backspace,
    Enter,
    Left,
    Right,
    Up,
    Down,
    Tab,
    BackTab,
    Insert,
    Delete,
    Home,
    End,
    PageUp,
    PageDown,
    Esc,
    /// Any key that no component tells apart.
    Other,
}

/// The modifier keys held while a key was pressed.
#[derive(Debug, Clone, Copy, PartialEq, Eq, Structural, Hash)]
pub struct KeyModifiers {
    pub shift: bool,
    pub control: bool,
    pub alt: bool,
    pub logo: bool,
    pub hyper: bool,
    pub meta: bool,
}

impl KeyModifiers {
    /// No modifier at all.
    pub open spec fn spec_none() -> KeyModifiers {
        KeyModifiers {
            shift: false,
            control: false,
            alt: false,
            logo: false,
            hyper: false,
            meta: false,
        }
    }

    /// Control and nothing else.
    pub open spec fn spec_control() -> KeyModifiers {
        KeyModifiers {
            shift: false,
            control: true,
            alt: false,
            logo: false,
            hyper: false,
            meta: false,
        }
    }

    /// No modifier at all.
    #[verifier::when_used_as_spec(spec_none)]
    pub fn none() -> (modifiers: KeyModifiers)
        ensures
            modifiers == Self::spec_none(),
    {
        KeyModifiers {
            shift: false,
            control: false,
            alt: false,
            logo: false,
            hyper: false,
            meta: false,
        }
    }

    /// Control and nothing else.
    #[verifier::when_used_as_spec(spec_control)]
    pub fn control() -> (modifiers: KeyModifiers)
        ensures
            modifiers == Self::spec_control(),
    {
        KeyModifiers {
            shift: false,
            control: true,
            alt: false,
            logo: false,
            hyper: false,
            meta: false,
        }
    }
}

/// Whether a key went down, is held, or came up.
#[derive(Debug, Clone, Copy, PartialEq, Eq, Structural, Hash)]
pub enum KeyEventKind {
    Press,
    Repeat,
    Release,
}

/// One key event.
#[derive(Debug, Clone, Copy, PartialEq, Eq, Structural, Hash)]
pub struct KeyEvent {
    pub code: KeyCode,
    pub modifiers: KeyModifiers,
    pub kind: KeyEventKind,
}

impl KeyEvent {
    /// A key press with the given modifiers.
    pub fn new(code: KeyCode, modifiers: KeyModifiers) -> (key: KeyEvent)
        ensures
            key == (KeyEvent { code, modifiers, kind: KeyEventKind::Press }),
    {
        KeyEvent { code, modifiers, kind: KeyEventKind::Press }
    }

    /// Whether this is the character `c` with control, and control alone,
    /// held.
    pub open spec fn is_control_char(&self, c: char) -> bool {
        self.code == KeyCode::Char(c) && self.modifiers == KeyModifiers::spec_control()
    }
}

} // verus!
