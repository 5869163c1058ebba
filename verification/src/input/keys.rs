//! Key events as plain values.

use vstd::prelude::*;

verus! {

/// A key.
#[derive(Debug, Clone, Copy, PartialEq, Eq, Structural)]
pub enum KeyCode {
    Backspace,
    Enter,
    Left,
    Right,
    Up,
    Down,
    Home,
    End,
    PageUp,
    PageDown,
    Tab,
    BackTab,
    Delete,
    Insert,
    F(u8),
    Char(char),
    Esc,
    /// Any key without a meaning here.
    Other,
}

/// The modifiers held with a key.
#[derive(Debug, Clone, Copy, PartialEq, Eq, Structural)]
pub struct KeyModifiers {
    pub shift: bool,
    pub control: bool,
    pub alt: bool,
    pub command: bool,
    pub hyper: bool,
    pub meta: bool,
}

impl KeyModifiers {
    /// No modifier.
    pub open spec fn empty() -> KeyModifiers {
        KeyModifiers {
            shift: false,
            control: false,
            alt: false,
            command: false,
            hyper: false,
            meta: false,
        }
    }

    /// ⌘: as the kitty protocol reports it, or as a legacy encoding does.
    pub open spec fn sup(self) -> bool {
        self.command || self.meta
    }

    pub fn none() -> (r: Self)
        ensures
            r == Self::empty(),
    {
        KeyModifiers {
            shift: false,
            control: false,
            alt: false,
            command: false,
            hyper: false,
            meta: false,
        }
    }

    pub fn shift() -> (r: Self)
        ensures
            r == (KeyModifiers { shift: true, ..Self::empty() }),
    {
        let mut m = Self::none();
        m.shift = true;
        m
    }

    pub fn control() -> (r: Self)
        ensures
            r == (KeyModifiers { control: true, ..Self::empty() }),
    {
        let mut m = Self::none();
        m.control = true;
        m
    }

    pub fn alt() -> (r: Self)
        ensures
            r == (KeyModifiers { alt: true, ..Self::empty() }),
    {
        let mut m = Self::none();
        m.alt = true;
        m
    }

    pub fn command() -> (r: Self)
        ensures
            r == (KeyModifiers { command: true, ..Self::empty() }),
    {
        let mut m = Self::none();
        m.command = true;
        m
    }

    /// The modifiers of both.
    pub fn with(self, other: Self) -> (r: Self)
        ensures
            r == (KeyModifiers {
                shift: self.shift || other.shift,
                control: self.control || other.control,
                alt: self.alt || other.alt,
                command: self.command || other.command,
                hyper: self.hyper || other.hyper,
                meta: self.meta || other.meta,
            }),
    {
        KeyModifiers {
            shift: self.shift || other.shift,
            control: self.control || other.control,
            alt: self.alt || other.alt,
            command: self.command || other.command,
            hyper: self.hyper || other.hyper,
            meta: self.meta || other.meta,
        }
    }

    pub fn is_empty(self) -> (r: bool)
        ensures
            r == (self == Self::empty()),
    {
        !(self.shift || self.control || self.alt || self.command || self.hyper || self.meta)
    }
}

/// Whether a key went down, repeats, or came up.
#[derive(Debug, Clone, Copy, PartialEq, Eq, Structural)]
pub enum KeyEventKind {
    Press,
    Repeat,
    Release,
}

/// One key event.
#[derive(Debug, Clone, Copy, PartialEq, Eq, Structural)]
pub struct KeyEvent {
    pub code: KeyCode,
    pub modifiers: KeyModifiers,
    pub kind: KeyEventKind,
}

impl KeyEvent {
    /// A press.
    pub fn new(code: KeyCode, modifiers: KeyModifiers) -> (r: Self)
        ensures
            r == (KeyEvent { code, modifiers, kind: KeyEventKind::Press }),
    {
        KeyEvent { code, modifiers, kind: KeyEventKind::Press }
    }
}

} // verus!
