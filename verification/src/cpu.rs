use vstd::prelude::*;

pub mod alu;
pub mod register;

use register::{IRegister, Register, VRegister};

use crate::engine::operations::{ArithOp, BitOp};
use crate::{Address, Byte, RegIndex};

verus! {

pub const INSTRUCTION_SIZE: u16 = 2;
pub const NUMBER_OF_REGISTERS: usize = 16;
pub const FLAG_REG_INDEX: usize = 15;

/// Simulated CPU: the program counter, the sixteen V-Registers and the
/// I-Register. Register 15 doubles as the flag register: every arithmetic
/// form that reports a flag, and the sprite draw, overwrite it.
#[derive(Debug)]
pub struct Cpu {
    /// Program Counter
    pub pc: Address,
    /// V-Registers
    pub vreg: [VRegister; NUMBER_OF_REGISTERS],
    /// I-Register
    pub ireg: IRegister,
}

/// The register indices an arithmetic operation acts on must exist.
pub open spec fn arith_op_enabled(op: ArithOp<Byte>) -> bool {
    match op {
        ArithOp::Add(x, _) => x < NUMBER_OF_REGISTERS,
        ArithOp::CheckedAdd(x, y) => x < NUMBER_OF_REGISTERS && y < NUMBER_OF_REGISTERS,
        ArithOp::Sub(x, y) => x < NUMBER_OF_REGISTERS && y < NUMBER_OF_REGISTERS,
        ArithOp::SubN(x, y) => x < NUMBER_OF_REGISTERS && y < NUMBER_OF_REGISTERS,
    }
}

/// The V-Registers after an arithmetic operation: the target register takes
/// the wrapped result, and every form except the immediate addition then
/// overwrites the flag register.
pub open spec fn arith_step(v: Seq<VRegister>, op: ArithOp<Byte>) -> Seq<VRegister> {
    match op {
        ArithOp::Add(x, value) => v.update(
            x as int,
            Register(((v[x as int].0 + value) % 256) as Byte),
        ),
        ArithOp::CheckedAdd(x, y) => v.update(
            x as int,
            Register(((v[x as int].0 + v[y as int].0) % 256) as Byte),
        ).update(
            FLAG_REG_INDEX as int,
            Register(if v[x as int].0 + v[y as int].0 > 255 { 1u8 } else { 0u8 }),
        ),
        ArithOp::Sub(x, y) => v.update(
            x as int,
            Register(((256 + v[x as int].0 - v[y as int].0) % 256) as Byte),
        ).update(
            FLAG_REG_INDEX as int,
            Register(if v[x as int].0 >= v[y as int].0 { 1u8 } else { 0u8 }),
        ),
        ArithOp::SubN(x, y) => v.update(
            x as int,
            Register(((256 + v[y as int].0 - v[x as int].0) % 256) as Byte),
        ).update(
            FLAG_REG_INDEX as int,
            Register(if v[y as int].0 >= v[x as int].0 { 1u8 } else { 0u8 }),
        ),
    }
}

/// The register indices a bit operation acts on must exist.
pub open spec fn bit_op_enabled(op: BitOp) -> bool {
    match op {
        BitOp::And(x, y) => x < NUMBER_OF_REGISTERS && y < NUMBER_OF_REGISTERS,
        BitOp::Or(x, y) => x < NUMBER_OF_REGISTERS && y < NUMBER_OF_REGISTERS,
        BitOp::Xor(x, y) => x < NUMBER_OF_REGISTERS && y < NUMBER_OF_REGISTERS,
        BitOp::ShiftRight(x) => x < NUMBER_OF_REGISTERS,
        BitOp::ShiftLeft(x) => x < NUMBER_OF_REGISTERS,
    }
}

/// The V-Registers after a bit operation: the bitwise forms leave the flag
/// register alone, while both shifts first write the expelled bit into the
/// flag register and then store the shifted value.
pub open spec fn bit_step(v: Seq<VRegister>, op: BitOp) -> Seq<VRegister> {
    match op {
        BitOp::And(x, y) => v.update(x as int, Register(v[x as int].0 & v[y as int].0)),
        BitOp::Or(x, y) => v.update(x as int, Register(v[x as int].0 | v[y as int].0)),
        BitOp::Xor(x, y) => v.update(x as int, Register(v[x as int].0 ^ v[y as int].0)),
        BitOp::ShiftRight(x) => v.update(
            FLAG_REG_INDEX as int,
            Register((v[x as int].0 % 2) as Byte),
        ).update(x as int, Register((v[x as int].0 / 2) as Byte)),
        BitOp::ShiftLeft(x) => v.update(
            FLAG_REG_INDEX as int,
            Register(if v[x as int].0 >= 128 { 1u8 } else { 0u8 }),
        ).update(x as int, Register(((2 * v[x as int].0) % 256) as Byte)),
    }
}

impl Cpu {
    /// Program counter starting address
    pub const STARTING_ADDRESS: Address = 0x200;

    /// The byte currently held by the V-Register of the given index.
    pub open spec fn v_spec(&self, i: int) -> Byte {
        self.vreg@[i].0
    }

    /// Returns the address currently pointed by the Program Counter
    pub fn pc(&self) -> (pc: Address)
        ensures
            pc == self.pc,
    {
        self.pc
    }

    /// Returns the address currently pointed by the I Register
    pub fn i(&self) -> (i: Address)
        ensures
            i == self.ireg.0,
    {
        self.ireg.get()
    }

    /// Returns the state of the Flag Register
    pub fn vf(&self) -> (flag: Byte)
        ensures
            flag == self.v_spec(FLAG_REG_INDEX as int),
    {
        self.vreg[FLAG_REG_INDEX].get()
    }

    /// Increases the Program Counter to point to the next instruction
    pub fn increase(&mut self)
        requires
            old(self).pc + INSTRUCTION_SIZE <= Address::MAX,
        ensures
            final(self).pc == old(self).pc + INSTRUCTION_SIZE,
            final(self).vreg == old(self).vreg,
            final(self).ireg == old(self).ireg,
    {
        self.pc = self.pc + INSTRUCTION_SIZE;
    }

    /// Decreases the Program Counter to point to the previous instruction
    pub fn decrease(&mut self)
        requires
            old(self).pc >= INSTRUCTION_SIZE,
        ensures
            final(self).pc == old(self).pc - INSTRUCTION_SIZE,
            final(self).vreg == old(self).vreg,
            final(self).ireg == old(self).ireg,
    {
        self.pc = self.pc - INSTRUCTION_SIZE;
    }

    /// Points the Program Counter to the specified address
    pub fn point_at(&mut self, position: Address)
        ensures
            final(self).pc == position,
            final(self).vreg == old(self).vreg,
            final(self).ireg == old(self).ireg,
    {
        self.pc = position;
    }

    /// Sets the specified address in the register I
    pub fn set_i(&mut self, address: Address)
        ensures
            final(self).ireg.0 == address,
            final(self).pc == old(self).pc,
            final(self).vreg == old(self).vreg,
    {
        self.ireg.load(address);
    }

    /// Raises a flag in the VF register
    pub fn set_flag(&mut self, flag: Byte)
        ensures
            final(self).vreg@ == old(self).vreg@.update(FLAG_REG_INDEX as int, Register(flag)),
            final(self).pc == old(self).pc,
            final(self).ireg == old(self).ireg,
    {
        self.vreg[FLAG_REG_INDEX] = Register(flag);
    }

    /// Returns a reference to the specified register.
    pub fn v(&self, index: RegIndex) -> (reg: &VRegister)
        requires
            index < NUMBER_OF_REGISTERS,
        ensures
            *reg == self.vreg@[index as int],
    {
        &self.vreg[index as usize]
    }

    /// Loads the value into the specified register
    pub fn load_to_v(&mut self, index: RegIndex, value: Byte)
        requires
            index < NUMBER_OF_REGISTERS,
        ensures
            final(self).vreg@ == old(self).vreg@.update(index as int, Register(value)),
            final(self).pc == old(self).pc,
            final(self).ireg == old(self).ireg,
    {
        self.vreg[index as usize] = Register(value);
    }

    /// Performs the specified arithmetic operation
    pub fn arith_op(&mut self, operation: ArithOp<Byte>)
        requires
            arith_op_enabled(operation),
        ensures
            final(self).vreg@ == arith_step(old(self).vreg@, operation),
            final(self).pc == old(self).pc,
            final(self).ireg == old(self).ireg,
    {
        match operation {
            ArithOp::Add(x, value) => {
                let current = self.v(x).get();
                let (result, _flag) = alu::add(current, &value);
                self.load_to_v(x, result);
            }
            ArithOp::CheckedAdd(x, y) => {
                let right = self.v(y).get();
                let (result, flag) = alu::add(self.v(x).get(), &right);
                self.load_to_v(x, result);
                self.set_flag(flag);
            }
            ArithOp::Sub(x, y) => {
                let right = self.v(y).get();
                let (result, flag) = alu::sub(self.v(x).get(), &right);
                self.load_to_v(x, result);
                self.set_flag(flag);
            }
            ArithOp::SubN(x, y) => {
                let right = self.v(x).get();
                let (result, flag) = alu::sub(self.v(y).get(), &right);
                self.load_to_v(x, result);
                self.set_flag(flag);
            }
        }
    }

    /// Performs the specified bit operation with the registers
    pub fn bit_op(&mut self, operation: BitOp)
        requires
            bit_op_enabled(operation),
        ensures
            final(self).vreg@ == bit_step(old(self).vreg@, operation),
            final(self).pc == old(self).pc,
            final(self).ireg == old(self).ireg,
    {
        match operation {
            BitOp::And(x, y) => {
                let result = alu::and(self.v(x).get(), self.v(y).get());
                self.load_to_v(x, result);
            }
            BitOp::Or(x, y) => {
                let result = alu::or(self.v(x).get(), self.v(y).get());
                self.load_to_v(x, result);
            }
            BitOp::Xor(x, y) => {
                let result = alu::xor(self.v(x).get(), self.v(y).get());
                self.load_to_v(x, result);
            }
            BitOp::ShiftRight(x) => {
                let (result, flag) = alu::shr(self.v(x).get());
                self.set_flag(flag);
                self.load_to_v(x, result);
            }
            BitOp::ShiftLeft(x) => {
                let (result, flag) = alu::shl(self.v(x).get());
                self.set_flag(flag);
                self.load_to_v(x, result);
            }
        }
    }
}

/// Builds a CPU with the program counter at the origin and every register
/// zeroed.
fn blank_cpu() -> (cpu: Cpu)
    ensures
        cpu.pc == Cpu::STARTING_ADDRESS,
        cpu.ireg.0 == 0,
        forall|i: int| 0 <= i < NUMBER_OF_REGISTERS ==> cpu.vreg@[i].0 == 0,
{
    let zero = Register(0u8);
    let mut vreg = [zero; NUMBER_OF_REGISTERS];
    let mut i: usize = 0;
    while i < NUMBER_OF_REGISTERS
        invariant
            i <= NUMBER_OF_REGISTERS,
            forall|j: int| 0 <= j < i ==> vreg@[j].0 == 0,
        decreases NUMBER_OF_REGISTERS - i,
    {
        vreg[i] = Register(0u8);
        i = i + 1;
    }
    Cpu {
        pc: Cpu::STARTING_ADDRESS,
        vreg,
        ireg: Register(0u16),
    }
}

impl Default for Cpu {
    fn default() -> (cpu: Self)
        ensures
            cpu.pc == Cpu::STARTING_ADDRESS,
            cpu.ireg.0 == 0,
            forall|i: int| 0 <= i < NUMBER_OF_REGISTERS ==> cpu.vreg@[i].0 == 0,
    {
        blank_cpu()
    }
}

} // verus!
