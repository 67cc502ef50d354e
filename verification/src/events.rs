//! Plain key-event model.
//!
//! The session core routes on key presses alone; the terminal backend that
//! produces them stays outside the library and converts its own event type
//! into this one.

use vstd::prelude::*;

verus! {

/// The keys the console reacts to. Every other key arrives as `Other` and is
/// ignored by all handlers.
#[derive(Clone, Copy, PartialEq, Eq, Structural, Debug)]
pub enum KeyCode {
    Char(char),
    Tab,
    BackTab,
    Left,
    Right,
    PageUp,
    PageDown,
    Backspace,
    Enter,
    Other,
}

/// Whether the event reports a key going down, being held, or going up.
/// Handlers act on `Press` only.
#[derive(Clone, Copy, PartialEq, Eq, Structural, Debug)]
pub enum KeyEventKind {
    Press,
    Repeat,
    Release,
}

/// One keyboard event: a key code together with the kind of the event.
#[derive(Clone, Copy, PartialEq, Eq, Structural, Debug)]
pub struct KeyEvent {
    pub code: KeyCode,
    pub kind: KeyEventKind,
}

impl KeyEvent {
    /// Builds a key-press event, the only kind the handlers act on.
    pub fn press(code: KeyCode) -> (r: KeyEvent)
        ensures
            r == (KeyEvent { code, kind: KeyEventKind::Press }),
    {
        KeyEvent { code, kind: KeyEventKind::Press }
    }
}

} // verus!
