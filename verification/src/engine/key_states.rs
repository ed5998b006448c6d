//! Which keys are held down, as the window's events report it.

use vstd::prelude::*;
use std::collections::HashSet;

verus! {

/// A key of the keyboard, by the code that the window system gives it.
#[derive(Debug, Clone, Copy, PartialEq, Eq, Hash, Structural)]
pub struct Key {
    pub code: i32,
}

/// What happened to a key.
#[derive(Debug, Clone, Copy, PartialEq, Eq, Structural)]
pub enum Action {
    Release,
    Press,
    Repeat,
}

/// An event of the window: a key event, or any other.
#[derive(Debug, Clone, Copy, PartialEq, Eq, Structural)]
pub enum WindowEvent {
    Key(Key, Action),
    Other,
}

/// The keys that an event leaves held down.
pub open spec fn keys_after(keys: Set<i32>, event: WindowEvent) -> Set<i32> {
    match event {
        WindowEvent::Key(key, Action::Press) => keys.insert(key.code),
        WindowEvent::Key(key, Action::Repeat) => keys.insert(key.code),
        WindowEvent::Key(key, Action::Release) => keys.remove(key.code),
        WindowEvent::Other => keys,
    }
}

/// The set of keys that are held down.
pub struct State {
    active_keys: HashSet<i32>,
}

impl View for State {
    type V = Set<i32>;

    closed spec fn view(&self) -> Set<i32> {
        self.active_keys@
    }
}

impl State {
    /// A state in which no key is held down.
    pub fn new() -> (state: Self)
        ensures
            state@ == Set::<i32>::empty(),
    {
        State { active_keys: HashSet::new() }
    }

    /// Takes note of an event: a key that is pressed or repeats is held
    /// down, a key that is released no longer is.
    pub fn handle_key_event(&mut self, event: WindowEvent)
        ensures
            final(self)@ == keys_after(old(self)@, event),
    {
        match event {
            WindowEvent::Key(key, action) => {
                match action {
                    Action::Press | Action::Repeat => {
                        self.active_keys.insert(key.code);
                    },
                    Action::Release => {
                        self.active_keys.remove(&key.code);
                    },
                }
            },
            WindowEvent::Other => {},
        }
    }

    /// Whether a key is held down.
    pub fn is_key_pressed(&self, key: Key) -> (pressed: bool)
        ensures
            pressed == self@.contains(key.code),
    {
        self.active_keys.contains(&key.code)
    }
}

} // verus!
