use vstd::prelude::*;

use crate::{Address, Byte};

verus! {

/// Bytes of one glyph of the built-in font
pub const GLYPH_SIZE: usize = 5;

/// Built-in bitmap font: sixteen glyphs of five bytes each, one for every
/// hexadecimal digit, in numeric order.
pub const FONTSET: [Byte; 80] = [
    0xF0, 0x90, 0x90, 0x90, 0xF0,
    0x20, 0x60, 0x20, 0x20, 0x70,
    0xF0, 0x10, 0xF0, 0x80, 0xF0,
    0xF0, 0x10, 0xF0, 0x10, 0xF0,
    0x90, 0x90, 0xF0, 0x10, 0x10,
    0xF0, 0x80, 0xF0, 0x10, 0xF0,
    0xF0, 0x80, 0xF0, 0x90, 0xF0,
    0xF0, 0x10, 0x20, 0x40, 0x40,
    0xF0, 0x90, 0xF0, 0x90, 0xF0,
    0xF0, 0x90, 0xF0, 0x10, 0xF0,
    0xF0, 0x90, 0xF0, 0x90, 0x90,
    0xE0, 0x90, 0xE0, 0x90, 0xE0,
    0xF0, 0x80, 0x80, 0x80, 0xF0,
    0xE0, 0x90, 0x90, 0x90, 0xE0,
    0xF0, 0x80, 0xF0, 0x80, 0xF0,
    0xF0, 0x80, 0xF0, 0x80, 0x80,
];

/// The fixed memory offset of the glyph for the low nibble of the character.
pub open spec fn location_spec(character: Byte) -> Address {
    ((GLYPH_SIZE as int) * ((character as int) % 16)) as Address
}

/// Returns the memory address of the glyph for the low nibble of the
/// character; the glyphs sit below the program origin, in numeric order.
pub fn location(character: Byte) -> (address: Address)
    ensures
        address == location_spec(character),
        address + GLYPH_SIZE <= FONTSET@.len(),
{
    (GLYPH_SIZE as u16) * ((character % 16) as u16)
}

} // verus!
