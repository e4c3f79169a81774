use vstd::prelude::*;

use crate::navigation::ActionMenuWindow;

verus! {

/// Modifier bit of the shift key.
pub const SHIFT: u8 = 0b0001;

/// Modifier bit of the control key.
pub const CONTROL: u8 = 0b0010;

/// Modifier bit of the alt key.
pub const ALT: u8 = 0b0100;

/// The keys that the editor tells apart; every other key is `Other`.
#[derive(Clone, Copy, Debug, PartialEq, Eq, Structural)]
pub enum Key {
    Char(char),
    Enter,
    Backspace,
    Delete,
    Left,
    Right,
    Up,
    Down,
    Esc,
    Other,
}

/// A key going down (`pressed`) or up or repeating, with the modifier bits
/// held at the time.
#[derive(Clone, Copy, Debug, PartialEq, Eq, Structural)]
pub struct KeyEvent {
    pub code: Key,
    pub modifiers: u8,
    pub pressed: bool,
}

/// What reaches the main loop: an input event, or a tick of the clock.
#[derive(Debug)]
pub enum InputEvent<T> {
    InputEvent(T),
    Tick,
}

/// A surface of the screen that takes key presses.
pub trait Window: Sized {
    /// The surface's own invariant.
    spec fn inv(&self) -> bool;

    /// `next` is `self` after `key` with the `keyflags` modifiers, and
    /// `requested` the menu action it asked for, if any.
    spec fn handles(
        &self,
        next: &Self,
        key: Key,
        keyflags: u8,
        requested: Option<ActionMenuWindow>,
    ) -> bool;

    /// Takes one key press; returns the menu action it asks for, if any.
    fn handle_keyboard_input(&mut self, key: Key, keyflags: u8) -> (requested: Option<
        ActionMenuWindow,
    >)
        requires
            old(self).inv(),
        ensures
            final(self).inv(),
            old(self).handles(final(self), key, keyflags, requested),
    ;
}

} // verus!
