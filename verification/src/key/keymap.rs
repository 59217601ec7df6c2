use vstd::prelude::*;

use crate::key::Key;
use crate::Byte;

verus! {

/// Mapping of the keys and their state as pressed or not pressed
#[derive(Debug)]
pub struct KeyMap {
    /// One latch per key, indexed by the key's pad index
    pub key_pressed: [bool; Key::SIZE],
}

/// The lowest-indexed pressed latch among indices at or above `k`, if any.
pub open spec fn first_pressed_seq(keys: Seq<bool>, k: int) -> Option<usize>
    decreases Key::SIZE - k,
{
    if k < 0 || k >= Key::SIZE {
        None
    } else if keys[k] {
        Some(k as usize)
    } else {
        first_pressed_seq(keys, k + 1)
    }
}

/// The reported key is a pressed key, no key below it is pressed, and when
/// none is reported no key at all is pressed: the lowest-index tie-break is
/// the observable policy of the pad.
pub proof fn lemma_first_pressed_lowest(keys: Seq<bool>, k: int)
    requires
        keys.len() == Key::SIZE,
        0 <= k <= Key::SIZE,
    ensures
        match first_pressed_seq(keys, k) {
            Some(i) => k <= i < Key::SIZE && keys[i as int] && (forall|j: int|
                k <= j < i ==> !keys[j]),
            None => forall|j: int| k <= j < Key::SIZE ==> !keys[j],
        },
    decreases Key::SIZE - k,
{
    if k < Key::SIZE {
        if !keys[k] {
            lemma_first_pressed_lowest(keys, k + 1);
        }
    }
}

impl KeyMap {
    /// The lowest-indexed key currently pressed, if any: the deliberate
    /// tie-break when several keys are held at once.
    pub open spec fn first_pressed_spec(&self) -> Option<usize> {
        first_pressed_seq(self.key_pressed@, 0)
    }

    /// Returns the first key pressed if any; when several keys are pressed
    /// the one with the lowest index wins.
    pub fn get_key_pressed(&self) -> (result: Option<usize>)
        ensures
            result == self.first_pressed_spec(),
    {
        let mut i: usize = 0;
        while i < Key::SIZE
            invariant
                i <= Key::SIZE,
                first_pressed_seq(self.key_pressed@, 0) == first_pressed_seq(
                    self.key_pressed@,
                    i as int,
                ),
            decreases Key::SIZE - i,
        {
            if self.key_pressed[i] {
                return Some(i);
            }
            i = i + 1;
        }
        None
    }

    /// Marks the specified key as pressed
    pub fn press_key(&mut self, key: Key)
        ensures
            final(self).key_pressed@ == old(self).key_pressed@.update(
                key.index_spec() as int,
                true,
            ),
    {
        let index: usize = key.index();
        self.key_pressed[index] = true;
    }

    /// Marks the specified key as not pressed
    pub fn release_key(&mut self, key: Key)
        ensures
            final(self).key_pressed@ == old(self).key_pressed@.update(
                key.index_spec() as int,
                false,
            ),
    {
        let index: usize = key.index();
        self.key_pressed[index] = false;
    }

    /// Returns whether the key of the given pad index is currently pressed.
    pub fn pressed(&self, index: Byte) -> (state: bool)
        requires
            index < Key::SIZE,
        ensures
            state == self.key_pressed@[index as int],
    {
        self.key_pressed[index as usize]
    }
}

impl Default for KeyMap {
    fn default() -> (map: Self)
        ensures
            forall|i: int| 0 <= i < Key::SIZE ==> map.key_pressed@[i] == false,
    {
        KeyMap {
            key_pressed: [false; Key::SIZE],
        }
    }
}

} // verus!
