use vstd::prelude::*;

use crate::RegIndex;

verus! {

/// Arithmetic operations over the registers
#[derive(Debug, Clone, Copy, PartialEq, Eq, Structural)]
pub enum ArithOp<T> {
    /// Add the value to the register, without reporting a carry
    Add(RegIndex, T),
    /// Add the second register to the first one, reporting the carry
    CheckedAdd(RegIndex, RegIndex),
    /// Subtract the second register from the first one
    Sub(RegIndex, RegIndex),
    /// Subtract the first register from the second one
    SubN(RegIndex, RegIndex),
}

/// Bit operations over the registers
#[derive(Debug, Clone, Copy, PartialEq, Eq, Structural)]
pub enum BitOp {
    /// Conjunction of both registers
    And(RegIndex, RegIndex),
    /// Disjunction of both registers
    Or(RegIndex, RegIndex),
    /// Exclusive disjunction of both registers
    Xor(RegIndex, RegIndex),
    /// Shift the register one bit to the right
    ShiftRight(RegIndex),
    /// Shift the register one bit to the left
    ShiftLeft(RegIndex),
}

} // verus!
