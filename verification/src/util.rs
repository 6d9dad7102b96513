//! The keyboard tracker: which keys are held down right now.

use std::collections::HashSet;
use vstd::prelude::*;

verus! {

broadcast use vstd::std_specs::hash::group_hash_axioms;

/// A key of the keyboard, by its numeric code.
#[derive(Clone, Copy, Debug, PartialEq, Eq, Structural)]
pub struct KeyCode {
    pub code: u32,
}

/// An input event, as far as the keyboard tracker cares.
#[derive(Clone, Copy, Debug, PartialEq, Eq, Structural)]
pub enum Event {
    /// A key went down.
    KeyDown { keycode: KeyCode },
    /// A key came up.
    KeyUp { keycode: KeyCode },
    /// Anything else: mouse, timer, display, typed characters.
    Other,
}

/// KeySet is a wrapper around `HashSet<u32>` that handles the conversion from
/// key codes, along with convenience methods for keeping track of the
/// keyboard's state.
pub struct KeySet(HashSet<u32>);

/// Calls `HashSet::clone` of the standard library. Not proved, but taken on
/// trust: the set that comes back holds exactly the codes that `codes` holds.
#[verifier::external_body]
fn clone_codes(codes: &HashSet<u32>) -> (copy: HashSet<u32>)
    ensures
        copy@ == codes@,
{
    codes.clone()
}

impl Clone for KeySet {
    /// An independent tracker with the same keys down.
    fn clone(&self) -> (copy: KeySet)
        ensures
            copy@ == self@,
    {
        KeySet(clone_codes(&self.0))
    }
}

impl View for KeySet {
    type V = Set<u32>;

    /// The codes of the keys that are down.
    closed spec fn view(&self) -> Set<u32> {
        self.0@
    }
}

impl KeySet {
    /// A keyboard with no key down.
    pub fn new() -> (keys: KeySet)
        ensures
            keys@ == Set::<u32>::empty(),
    {
        KeySet(HashSet::new())
    }

    /// Records that `keycode` is held down.
    pub fn mark_down(&mut self, keycode: KeyCode)
        ensures
            final(self)@ == old(self)@.insert(keycode.code),
    {
        self.0.insert(keycode.code);
    }

    /// Records that `keycode` has been released.
    pub fn mark_up(&mut self, keycode: KeyCode)
        ensures
            final(self)@ == old(self)@.remove(keycode.code),
    {
        self.0.remove(&keycode.code);
    }

    /// Whether `keycode` is held down.
    pub fn is_down(&self, keycode: KeyCode) -> (down: bool)
        ensures
            down == self@.contains(keycode.code),
    {
        self.0.contains(&keycode.code)
    }

    /// Whether `keycode` is not held down.
    pub fn is_up(&self, keycode: KeyCode) -> (up: bool)
        ensures
            up == !self@.contains(keycode.code),
    {
        !self.is_down(keycode)
    }

    /// Feeds one event to the tracker. A key event updates the set and is
    /// reported back as the key and whether it is now down; any other event
    /// leaves the set alone and reports nothing.
    pub fn handle_key_event(&mut self, event: Event) -> (change: Option<(KeyCode, bool)>)
        ensures
            match event {
                Event::KeyDown { keycode } => {
                    &&& final(self)@ == old(self)@.insert(keycode.code)
                    &&& change == Some((keycode, true))
                },
                Event::KeyUp { keycode } => {
                    &&& final(self)@ == old(self)@.remove(keycode.code)
                    &&& change == Some((keycode, false))
                },
                Event::Other => final(self)@ == old(self)@ && change is None,
            },
    {
        match event {
            Event::KeyDown { keycode } => {
                self.mark_down(keycode);
                Some((keycode, true))
            },
            Event::KeyUp { keycode } => {
                self.mark_up(keycode);
                Some((keycode, false))
            },
            Event::Other => None,
        }
    }
}

} // verus!
