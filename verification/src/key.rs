use vstd::prelude::*;

pub mod keymap;

pub use keymap::KeyMap;

verus! {

/// Keys in the Chip8 system
#[derive(Debug, Clone, Copy, PartialEq, Eq, Structural)]
pub enum Key {
    Zero,
    One,
    Two,
    Three,
    Four,
    Five,
    Six,
    Seven,
    Eight,
    Nine,
    A,
    B,
    C,
    D,
    E,
    F,
}

impl Key {
    /// Number of keys of the pad
    pub const SIZE: usize = 16;

    /// The index of the key in the pad, following the fixed one-to-one
    /// mapping of the sixteen symbols onto 0 to 15.
    pub open spec fn index_spec(self) -> usize {
        match self {
            Key::Zero => 0usize,
            Key::One => 1usize,
            Key::Two => 2usize,
            Key::Three => 3usize,
            Key::Four => 4usize,
            Key::Five => 5usize,
            Key::Six => 6usize,
            Key::Seven => 7usize,
            Key::Eight => 8usize,
            Key::Nine => 9usize,
            Key::A => 10usize,
            Key::B => 11usize,
            Key::C => 12usize,
            Key::D => 13usize,
            Key::E => 14usize,
            Key::F => 15usize,
        }
    }

    /// Returns the index of the key in the pad.
    pub fn index(self) -> (i: usize)
        ensures
            i == self.index_spec(),
            i < Key::SIZE,
    {
        match self {
            Key::Zero => 0,
            Key::One => 1,
            Key::Two => 2,
            Key::Three => 3,
            Key::Four => 4,
            Key::Five => 5,
            Key::Six => 6,
            Key::Seven => 7,
            Key::Eight => 8,
            Key::Nine => 9,
            Key::A => 10,
            Key::B => 11,
            Key::C => 12,
            Key::D => 13,
            Key::E => 14,
            Key::F => 15,
        }
    }
}

} // verus!
