//! Key presses as the input mappings read them: a key code, the modifier
//! keys held, and whether the key went down, repeated or went up.
use vstd::prelude::*;

verus! {

#[derive(Debug, Clone, Copy, PartialEq, Eq, Structural)]
pub enum KeyCode {
    Backspace,
    Enter,
    Left,
    Right,
    Up,
    Down,
    Home,
    End,
    PageUp,
    PageDown,
    Tab,
    BackTab,
    Delete,
    Insert,
    F(u8),
    Char(char),
    Null,
    Esc,
    /// Any other key (lock keys, media keys, lone modifier keys, ...).
    Other,
}

/// The modifier keys held during a key press.
#[derive(Debug, Clone, Copy, PartialEq, Eq, Structural)]
pub struct KeyModifiers {
    pub shift: bool,
    pub control: bool,
    pub alt: bool,
    pub super_key: bool,
    pub hyper: bool,
    pub meta: bool,
}

impl KeyModifiers {
    pub open spec fn is_none(self) -> bool {
        !self.shift && !self.control && !self.alt && !self.super_key && !self.hyper && !self.meta
    }

    /// Control held and nothing else.
    pub open spec fn is_control_only(self) -> bool {
        self.control && !self.shift && !self.alt && !self.super_key && !self.hyper && !self.meta
    }

    /// Shift held and nothing else.
    pub open spec fn is_shift_only(self) -> bool {
        self.shift && !self.control && !self.alt && !self.super_key && !self.hyper && !self.meta
    }

    pub fn none() -> (r: KeyModifiers)
        ensures
            r.is_none(),
    {
        KeyModifiers {
            shift: false,
            control: false,
            alt: false,
            super_key: false,
            hyper: false,
            meta: false,
        }
    }

    pub fn shift() -> (r: KeyModifiers)
        ensures
            r.is_shift_only(),
    {
        KeyModifiers { shift: true, ..KeyModifiers::none() }
    }

    pub fn control() -> (r: KeyModifiers)
        ensures
            r.is_control_only(),
    {
        KeyModifiers { control: true, ..KeyModifiers::none() }
    }

    pub fn alt() -> (r: KeyModifiers)
        ensures
            r.alt && !r.shift && !r.control && !r.super_key && !r.hyper && !r.meta,
    {
        KeyModifiers { alt: true, ..KeyModifiers::none() }
    }

    pub fn super_key() -> (r: KeyModifiers)
        ensures
            r.super_key && !r.shift && !r.control && !r.alt && !r.hyper && !r.meta,
    {
        KeyModifiers { super_key: true, ..KeyModifiers::none() }
    }

    pub fn is_empty(&self) -> (r: bool)
        ensures
            r == self.is_none(),
    {
        !self.shift && !self.control && !self.alt && !self.super_key && !self.hyper && !self.meta
    }

    pub fn is_control_only_exec(&self) -> (r: bool)
        ensures
            r == self.is_control_only(),
    {
        self.control && !self.shift && !self.alt && !self.super_key && !self.hyper && !self.meta
    }

    pub fn is_shift_only_exec(&self) -> (r: bool)
        ensures
            r == self.is_shift_only(),
    {
        self.shift && !self.control && !self.alt && !self.super_key && !self.hyper && !self.meta
    }
}

#[derive(Debug, Clone, Copy, PartialEq, Eq, Structural)]
pub enum KeyEventKind {
    Press,
    Repeat,
    Release,
}

#[derive(Debug, Clone, Copy, PartialEq, Eq, Structural)]
pub struct KeyEvent {
    pub code: KeyCode,
    pub modifiers: KeyModifiers,
    pub kind: KeyEventKind,
}

impl KeyEvent {
    /// A key press with the given code and modifiers.
    pub fn new(code: KeyCode, modifiers: KeyModifiers) -> (r: KeyEvent)
        ensures
            r.code == code,
            r.modifiers == modifiers,
            r.kind == KeyEventKind::Press,
    {
        KeyEvent { code, modifiers, kind: KeyEventKind::Press }
    }
}

/// Only key presses and repeats are acted on; releases are ignored.
pub fn should_process_key_event(key: KeyEvent) -> (r: bool)
    ensures
        r == (key.kind != KeyEventKind::Release),
{
    match key.kind {
        KeyEventKind::Release => false,
        _ => true,
    }
}

} // verus!
