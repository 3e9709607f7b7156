//! Keys, and the snapshot of which steering keys are held.

use vstd::prelude::*;

verus! {

/// The keys the game listens to. Every other key is `Other`.
#[derive(Clone, Copy, Debug, PartialEq, Eq, Structural)]
pub enum Key {
    Right,
    Left,
    Up,
    Down,
    Space,
    F,
    Other,
}

/// Which of the four steering keys are held down right now.
#[derive(Clone, Copy, Debug, PartialEq, Eq, Structural)]
pub struct KeyState {
    pub right: bool,
    pub left: bool,
    pub up: bool,
    pub down: bool,
}

impl KeyState {
    /// The snapshot after `key` was set to `held`: the flag of a steering key
    /// takes the value, everything else stays.
    pub open spec fn with_key(self, key: Key, held: bool) -> KeyState {
        match key {
            Key::Right => KeyState { right: held, ..self },
            Key::Left => KeyState { left: held, ..self },
            Key::Up => KeyState { up: held, ..self },
            Key::Down => KeyState { down: held, ..self },
            _ => self,
        }
    }

    /// No key is held.
    pub fn new() -> (keys: KeyState)
        ensures
            keys == (KeyState { right: false, left: false, up: false, down: false }),
    {
        KeyState { right: false, left: false, up: false, down: false }
    }

    /// Records that `key` went down.
    pub fn press(&mut self, key: Key)
        ensures
            *final(self) == old(self).with_key(key, true),
    {
        self.set(key, true);
    }

    /// Records that `key` came up.
    pub fn release(&mut self, key: Key)
        ensures
            *final(self) == old(self).with_key(key, false),
    {
        self.set(key, false);
    }

    fn set(&mut self, key: Key, held: bool)
        ensures
            *final(self) == old(self).with_key(key, held),
    {
        match key {
            Key::Right => {
                self.right = held;
            },
            Key::Left => {
                self.left = held;
            },
            Key::Up => {
                self.up = held;
            },
            Key::Down => {
                self.down = held;
            },
            _ => {},
        }
    }
}

} // verus!
