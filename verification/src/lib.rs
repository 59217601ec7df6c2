//! Execution core of a Chip8 interpreter: the register file and its ALU flag
//! rules, the instruction decoder, bounds-checked memory, a bounded call
//! stack, two countdown timers, a sixteen-key latch and an XOR-composited
//! framebuffer. Every operation carries a contract over a mathematical
//! snapshot of the machine, and one `step` function states what a whole
//! execution cycle does.

use vstd::prelude::*;

pub mod cpu;
pub mod engine;
pub mod exception;
pub mod fontset;
pub mod instruction;
pub mod key;
pub mod ram;
pub mod stack;
pub mod timer;
pub mod vram;

verus! {

/// Specification of the address type to correctly indicate when it's being used
pub type Address = u16;

/// Specification of the opcode type to correctly indicate when it's being used;
/// each Chip8 instruction is made of two bytes
pub type OpCode = u16;

/// Specification of the byte type to correctly indicate what it's built upon bits
pub type Byte = u8;

/// Specification of the type for register indices
pub type RegIndex = u8;

/// Specification of the type to represent the pixels that will be drawn in the buffer
pub type Pixel = bool;

/// Specification of the type representing the ROMs to run
pub type Rom<'a> = &'a [u8];

/// Types that can be masked
pub trait BitMask {
    const LEAST_SIGNIFICANT_BIT: Self;
    const MOST_SIGNIFICANT_BIT: Self;
}

impl BitMask for Byte {
    const LEAST_SIGNIFICANT_BIT: Self = 0b00000001;
    const MOST_SIGNIFICANT_BIT: Self = 0b10000000;
}

/// Width of the emulated screen
pub const SCREEN_WIDTH: usize = 64;

/// Height of the emulated screen
pub const SCREEN_HEIGHT: usize = 32;

} // verus!
