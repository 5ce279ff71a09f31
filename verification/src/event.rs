//! Input events as the loop sees them, and the exit decision.
//!
//! A keyboard event carries a key identity and a press/release/repeat kind.
//! The loop inspects only one thing: whether an event is a press of the
//! configured quit key.

use vstd::prelude::*;

verus! {

/// How a key event was produced: an initial press, a release, or an
/// auto-repeat while held.
#[derive(Clone, Copy, Debug, PartialEq, Eq, Structural)]
pub enum KeyKind {
    Press,
    Release,
    Repeat,
}

/// The identity of the key. Only character keys can be the quit key; every
/// other key (function keys, arrows, ...) is `Other`.
#[derive(Clone, Copy, Debug, PartialEq, Eq, Structural)]
pub enum KeyId {
    Char(char),
    Other,
}

/// One keyboard event: which key, and how it was produced.
#[derive(Clone, Copy, Debug, PartialEq, Eq, Structural)]
pub struct KeyEvent {
    pub id: KeyId,
    pub kind: KeyKind,
}

/// One input event polled from the terminal: a keyboard event, or anything
/// else the device reports (resize, mouse, focus, ...), which the loop
/// ignores.
#[derive(Clone, Copy, Debug, PartialEq, Eq, Structural)]
pub enum InputEvent {
    Key(KeyEvent),
    Other,
}

/// The event that ends the loop: a press (not a release or repeat) of the
/// quit key.
pub open spec fn is_exit_spec(e: InputEvent, quit: char) -> bool {
    &&& e matches InputEvent::Key(k)
    &&& k.kind is Press
    &&& k.id matches KeyId::Char(c) && c == quit
}

/// Decides whether an event is the configured exit event.
pub fn is_exit_event(e: &InputEvent, quit: char) -> (r: bool)
    ensures
        r == is_exit_spec(*e, quit),
{
    match e {
        InputEvent::Key(k) => match (k.kind, k.id) {
            (KeyKind::Press, KeyId::Char(c)) => c == quit,
            _ => false,
        },
        InputEvent::Other => false,
    }
}

} // verus!
