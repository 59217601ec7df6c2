use vstd::prelude::*;

use crate::{Pixel, SCREEN_HEIGHT, SCREEN_WIDTH};

verus! {

/// Number of cells of the screen buffer
pub const SCREEN_SIZE: usize = SCREEN_WIDTH * SCREEN_HEIGHT;

/// Representation of the screen to draw: a monochrome pixel grid whose
/// painting primitive toggles one cell.
#[derive(Debug)]
pub struct VRam {
    /// Buffer of the current visual content
    pub buffer: [Pixel; SCREEN_SIZE],
}

impl VRam {
    /// Value representing a black pixel
    pub const BLACK: bool = false;

    /// Value representing a white pixel
    pub const WHITE: bool = true;

    /// The buffer cell that the coordinates land on: both axes wrap around,
    /// so every pair of coordinates names exactly one cell.
    pub open spec fn to_index_spec(x: int, y: int) -> int {
        x % (SCREEN_WIDTH as int) + (y % (SCREEN_HEIGHT as int)) * (SCREEN_WIDTH as int)
    }

    /// Returns the boolean buffer of the current frame.
    pub fn buffer(&self) -> (buffer: &[Pixel])
        ensures
            buffer@ == self.buffer@,
    {
        self.buffer.as_slice()
    }

    /// Clears the current buffered content.
    pub fn clear(&mut self)
        ensures
            final(self).buffer@.len() == SCREEN_SIZE,
            forall|i: int| 0 <= i < SCREEN_SIZE ==> final(self).buffer@[i] == Self::BLACK,
    {
        self.buffer = [Self::BLACK; SCREEN_SIZE];
    }

    /// Paints over the pixel, toggling it: painting a dark cell lights it and
    /// painting a lit cell darkens it. Coordinates beyond the screen wrap
    /// around on both axes.
    pub fn paint(&mut self, x: usize, y: usize)
        ensures
            final(self).buffer@ == old(self).buffer@.update(
                Self::to_index_spec(x as int, y as int),
                !old(self).buffer@[Self::to_index_spec(x as int, y as int)],
            ),
    {
        let i = Self::to_index(x, y);
        self.buffer[i] = !self.buffer[i];
    }

    /// Returns the content of the pixel at the specified location, with the
    /// same wraparound as painting.
    pub fn get(&mut self, x: usize, y: usize) -> (pixel: Pixel)
        ensures
            *final(self) == *old(self),
            pixel == old(self).buffer@[Self::to_index_spec(x as int, y as int)],
    {
        let i = Self::to_index(x, y);
        self.buffer[i]
    }

    /// Converts the coordinates into the index position in the buffer.
    pub fn to_index(x: usize, y: usize) -> (i: usize)
        ensures
            i == Self::to_index_spec(x as int, y as int),
            i < SCREEN_SIZE,
    {
        x % SCREEN_WIDTH + (y % SCREEN_HEIGHT) * SCREEN_WIDTH
    }
}

/// Painting wraps around on both axes: moving a whole screen width to the
/// right, or a whole screen height down, lands on the identical cell.
pub proof fn lemma_paint_wraps(x: int, y: int)
    requires
        0 <= x,
        0 <= y,
    ensures
        VRam::to_index_spec(x + SCREEN_WIDTH, y) == VRam::to_index_spec(x, y),
        VRam::to_index_spec(x, y + SCREEN_HEIGHT) == VRam::to_index_spec(x, y),
{
    let w = SCREEN_WIDTH as int;
    let h = SCREEN_HEIGHT as int;
    assert((x + w) % w == x % w) by {
        vstd::arithmetic::div_mod::lemma_mod_add_multiples_vanish(x, w);
    }
    assert((y + h) % h == y % h) by {
        vstd::arithmetic::div_mod::lemma_mod_add_multiples_vanish(y, h);
    }
}

impl Default for VRam {
    fn default() -> (vram: Self)
        ensures
            vram.buffer@.len() == SCREEN_SIZE,
            forall|i: int| 0 <= i < SCREEN_SIZE ==> vram.buffer@[i] == VRam::BLACK,
    {
        VRam {
            buffer: [Self::BLACK; SCREEN_SIZE],
        }
    }
}

} // verus!
