//! The library's model of a discrete input event.
//!
//! The event source (a terminal backend) is outside this crate; the host
//! application converts whatever its backend produces into these plain
//! values. The form engine treats an event as an opaque token and only the
//! text-input editing logic looks at the key codes.

use vstd::prelude::*;

verus! {

/// A key on the keyboard, as far as the editing logic distinguishes them.
///
/// Keys the editing logic never reacts to (function keys, page up, ...) are
/// all represented by `Other`.
#[derive(Debug, Clone, Copy, PartialEq, Eq, Structural)]
pub enum KeyCode {
    /// A printable character.
    Char(char),
    /// The left arrow key.
    Left,
    /// The right arrow key.
    Right,
    Backspace,
    Delete,
    Enter,
    Tab,
    BackTab,
    Esc,
    /// Any other key.
    Other,
}

/// One key press: the key together with the modifiers the editing logic
/// reads. Shift is not tracked; a shifted character arrives as the shifted
/// `char` itself.
#[derive(Debug, Clone, Copy, PartialEq, Eq, Structural)]
pub struct KeyPress {
    pub code: KeyCode,
    pub ctrl: bool,
    pub alt: bool,
}

/// A discrete input event. Everything that is not a key press (mouse,
/// resize, paste, focus changes, ...) is `Other`: widgets ignore it and the
/// form engine lets it bubble to the caller.
#[derive(Debug, Clone, Copy, PartialEq, Eq, Structural)]
pub enum Event {
    Key(KeyPress),
    Other,
}

} // verus!
