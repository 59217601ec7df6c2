use vstd::prelude::*;

use crate::{Address, OpCode};

verus! {

/// Failures that the execution core reports to its caller.
#[derive(Debug, Clone, Copy, PartialEq, Eq, Structural)]
pub enum Exception {
    /// Out-of-range RAM access, carrying the offending address
    SegmentationFault(Address),
    /// Push onto a full call stack
    StackOverflow,
    /// Pop from an empty call stack
    StackUnderflow,
    /// No instruction matches the bit pattern, carrying the whole opcode
    WrongOpCode(OpCode),
}

} // verus!
