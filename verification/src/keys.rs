//! Key presses as the client's state machines see them: a key code plus the modifiers that
//! were held. The terminal layer translates its own events into these.

use vstd::prelude::*;

verus! {

/// Which key was pressed.
#[derive(Debug, Clone, Copy, PartialEq, Eq, Structural)]
pub enum KeyCode {
    Char(char),
    Esc,
    Enter,
    Up,
    Down,
    Backspace,
    Tab,
    /// Any key none of the state machines react to.
    Other,
}

/// The modifier keys held during a key press.
#[derive(Debug, Clone, Copy, PartialEq, Eq, Structural)]
pub struct KeyModifiers {
    pub control: bool,
    pub shift: bool,
    pub alt: bool,
}

impl KeyModifiers {
    /// No modifier held.
    pub fn none() -> (r: KeyModifiers)
        ensures
            !r.control && !r.shift && !r.alt,
    {
        KeyModifiers { control: false, shift: false, alt: false }
    }

    /// Control held, nothing else.
    pub fn control() -> (r: KeyModifiers)
        ensures
            r.control && !r.shift && !r.alt,
    {
        KeyModifiers { control: true, shift: false, alt: false }
    }

    /// Shift held, nothing else.
    pub fn shift() -> (r: KeyModifiers)
        ensures
            !r.control && r.shift && !r.alt,
    {
        KeyModifiers { control: false, shift: true, alt: false }
    }

    /// Control and shift held.
    pub fn control_shift() -> (r: KeyModifiers)
        ensures
            r.control && r.shift && !r.alt,
    {
        KeyModifiers { control: true, shift: true, alt: false }
    }
}

/// One key press.
#[derive(Debug, Clone, Copy, PartialEq, Eq, Structural)]
pub struct KeyEvent {
    pub code: KeyCode,
    pub modifiers: KeyModifiers,
}

impl KeyEvent {
    /// The press of `code` with `modifiers` held.
    pub fn new(code: KeyCode, modifiers: KeyModifiers) -> (r: KeyEvent)
        ensures
            r.code == code,
            r.modifiers == modifiers,
    {
        KeyEvent { code, modifiers }
    }
}

/// Whether `key` is the character `c` typed with Control held.
pub open spec fn is_ctrl_char(key: KeyEvent, c: char) -> bool {
    key.code == KeyCode::Char(c) && key.modifiers.control
}

/// Whether `key` is the retry chord: Ctrl+R, in either case (Ctrl+Shift+R arrives as `R`).
pub open spec fn is_retry(key: KeyEvent) -> bool {
    is_ctrl_char(key, 'r') || is_ctrl_char(key, 'R')
}

/// Whether `key` is Ctrl+`c`.
pub fn ctrl_char(key: KeyEvent, c: char) -> (r: bool)
    ensures
        r == is_ctrl_char(key, c),
{
    match key.code {
        KeyCode::Char(k) => k == c && key.modifiers.control,
        _ => false,
    }
}

/// Whether `key` is the retry chord.
pub fn retry_key(key: KeyEvent) -> (r: bool)
    ensures
        r == is_retry(key),
{
    ctrl_char(key, 'r') || ctrl_char(key, 'R')
}

} // verus!
