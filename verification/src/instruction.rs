use vstd::prelude::*;

use crate::exception::Exception;
use crate::{Address, Byte, OpCode, RegIndex};

verus! {

/// The instruction set of the machine: every opcode decodes to exactly one
/// of these forms, or to a decode fault.
#[allow(clippy::upper_case_acronyms)]
#[derive(Debug, Clone, Copy, PartialEq, Eq, Structural)]
pub enum Instruction {
    /// 00E0 - Clear screen: `cls`
    CLS,
    /// 00EE - Return from subroutine: `return;`
    RET,
    /// 0nnn - SYS jump to address. Legacy call.
    SYS(Address),
    /// 1nnn - Jump to address: `goto nnn`
    JP(Address),
    /// 2nnn - Call subroutine at address: `*(0xNNN)()`
    CALL(Address),
    /// 3xkk - Skip next instruction when register equals byte: `if Vx == kk`
    SErb { x: RegIndex, byte: Byte },
    /// 4xkk - Skip next instruction when register don't equals byte: `if Vx != kk`
    SNErb { x: RegIndex, byte: Byte },
    /// 5xy0 - Skip next instruction when registers are equal: `if Vx == Vy`
    SErr { x: RegIndex, y: RegIndex },
    /// 6xkk - Load byte into register: `Vx = kk`
    LDbr { x: RegIndex, byte: Byte },
    /// 7xkk - Add byte to register: `Vx += kk`
    ADDbr { x: RegIndex, byte: Byte },
    /// 8xy0 - Load register Vy into register Vx: `Vx = Vy`
    LDrr { x: RegIndex, y: RegIndex },
    /// 8xy1 - Load into register Vx the result of Vx OR Vy: `Vx |= Vy`
    OR { x: RegIndex, y: RegIndex },
    /// 8xy2 - Load into register Vx the result of Vx AND Vy: `Vx &= Vy`
    AND { x: RegIndex, y: RegIndex },
    /// 8xy3 - Load into register Vx the result of Vx XOR Vy: `Vx ^= Vy`
    XOR { x: RegIndex, y: RegIndex },
    /// 8xy4 - Add register Vy to register Vx: `Vx += Vy`
    ADDrr { x: RegIndex, y: RegIndex },
    /// 8xy5 - Substract register Vy from register Vx: `Vx -= Vy`
    SUB { x: RegIndex, y: RegIndex },
    /// 8xy6 - Shift right register: `Vx >>= 1`
    SHR(RegIndex),
    /// 8xy7 - Substract register Vx from register Vy and store in Vx: `Vx = Vy - Vx`
    SUBN { x: RegIndex, y: RegIndex },
    /// 8xyE - Shift left register: `Vx <<= 1`
    SHL(RegIndex),
    /// 9xy0 - Skip next instruction when registers are not equal: `if Vx != Vy`
    SNErr { x: RegIndex, y: RegIndex },
    /// Annn - Load address into I: `I = nnn`
    LDi(Address),
    /// Bnnn - Jump to the address + V0: `PC = V0 + nnn`
    JPr(Address),
    /// Cxkk - Load random byte AND kk into Vx: `Vx = rand() & kk`
    RND { x: RegIndex, byte: Byte },
    /// Dxyn - Display n-byte sprite starting at memory location I at (Vx, Vy)
    DRW { x: RegIndex, y: RegIndex, n: Byte },
    /// Ex9E - Skip if the key matching Vx is pressed: `if key() == Vx`
    SKP(RegIndex),
    /// ExA1 - Skip if the key pressed don't match Vx: `if key() != Vx`
    SKNP(RegIndex),
    /// Fx07 - Load delay timer count into Vx: `Vx = dt`
    LDdr(RegIndex),
    /// Fx0A - Wait for key press and load its value into Vx: `Vx = key()`
    LDkr(RegIndex),
    /// Fx15 - Set delay timer with Vx: `dt = Vx`
    LDrd(RegIndex),
    /// Fx18 - Set sound timer with Vx: `st = Vx`
    LDrs(RegIndex),
    /// Fx1E - Add Vx to I: `I += Vx`
    ADDri(RegIndex),
    /// Fx29 - Point I at the glyph of the character in Vx: `I = sprite(Vx)`
    LDmi(RegIndex),
    /// Fx33 - Store the decimal digits of Vx at I, I+1 and I+2
    LDrm(RegIndex),
    /// Fx55 - Store registers V0 to Vx in memory starting at I
    LDvm(RegIndex),
    /// Fx65 - Load registers V0 to Vx from memory starting at I
    LDmv(RegIndex),
}

/// The four 4-bit fields of an opcode, most significant first.
pub open spec fn split_spec(opcode: OpCode) -> (u16, u16, u16, u16) {
    (
        (opcode / 0x1000) as u16,
        ((opcode / 0x100) % 0x10) as u16,
        ((opcode / 0x10) % 0x10) as u16,
        (opcode % 0x10) as u16,
    )
}

/// The unique instruction whose documented bit pattern the opcode matches, or
/// the decode fault carrying that exact opcode when no pattern does.
pub open spec fn decode(value: OpCode) -> Result<Instruction, Exception> {
    let a = (value / 0x1000) as u16;
    let x = ((value / 0x100) % 0x10) as RegIndex;
    let y = ((value / 0x10) % 0x10) as RegIndex;
    let d = (value % 0x10) as u16;
    let nnn = (value % 0x1000) as Address;
    let kk = (value % 0x100) as Byte;
    if a == 0x0 && x == 0 && y == 0xE && d == 0x0 {
        Ok(Instruction::CLS)
    } else if a == 0x0 && x == 0 && y == 0xE && d == 0xE {
        Ok(Instruction::RET)
    } else if a == 0x0 {
        Ok(Instruction::SYS(nnn))
    } else if a == 0x1 {
        Ok(Instruction::JP(nnn))
    } else if a == 0x2 {
        Ok(Instruction::CALL(nnn))
    } else if a == 0x3 {
        Ok(Instruction::SErb { x, byte: kk })
    } else if a == 0x4 {
        Ok(Instruction::SNErb { x, byte: kk })
    } else if a == 0x5 && d == 0x0 {
        Ok(Instruction::SErr { x, y })
    } else if a == 0x6 {
        Ok(Instruction::LDbr { x, byte: kk })
    } else if a == 0x7 {
        Ok(Instruction::ADDbr { x, byte: kk })
    } else if a == 0x8 && d == 0x0 {
        Ok(Instruction::LDrr { x, y })
    } else if a == 0x8 && d == 0x1 {
        Ok(Instruction::OR { x, y })
    } else if a == 0x8 && d == 0x2 {
        Ok(Instruction::AND { x, y })
    } else if a == 0x8 && d == 0x3 {
        Ok(Instruction::XOR { x, y })
    } else if a == 0x8 && d == 0x4 {
        Ok(Instruction::ADDrr { x, y })
    } else if a == 0x8 && d == 0x5 {
        Ok(Instruction::SUB { x, y })
    } else if a == 0x8 && d == 0x6 {
        Ok(Instruction::SHR(x))
    } else if a == 0x8 && d == 0x7 {
        Ok(Instruction::SUBN { x, y })
    } else if a == 0x8 && d == 0xE {
        Ok(Instruction::SHL(x))
    } else if a == 0x9 && d == 0x0 {
        Ok(Instruction::SNErr { x, y })
    } else if a == 0xA {
        Ok(Instruction::LDi(nnn))
    } else if a == 0xB {
        Ok(Instruction::JPr(nnn))
    } else if a == 0xC {
        Ok(Instruction::RND { x, byte: kk })
    } else if a == 0xD {
        Ok(Instruction::DRW { x, y, n: d as Byte })
    } else if a == 0xE && y == 0x9 && d == 0xE {
        Ok(Instruction::SKP(x))
    } else if a == 0xE && y == 0xA && d == 0x1 {
        Ok(Instruction::SKNP(x))
    } else if a == 0xF && y == 0x0 && d == 0x7 {
        Ok(Instruction::LDdr(x))
    } else if a == 0xF && y == 0x0 && d == 0xA {
        Ok(Instruction::LDkr(x))
    } else if a == 0xF && y == 0x1 && d == 0x5 {
        Ok(Instruction::LDrd(x))
    } else if a == 0xF && y == 0x1 && d == 0x8 {
        Ok(Instruction::LDrs(x))
    } else if a == 0xF && y == 0x1 && d == 0xE {
        Ok(Instruction::ADDri(x))
    } else if a == 0xF && y == 0x2 && d == 0x9 {
        Ok(Instruction::LDmi(x))
    } else if a == 0xF && y == 0x3 && d == 0x3 {
        Ok(Instruction::LDrm(x))
    } else if a == 0xF && y == 0x5 && d == 0x5 {
        Ok(Instruction::LDvm(x))
    } else if a == 0xF && y == 0x6 && d == 0x5 {
        Ok(Instruction::LDmv(x))
    } else {
        Err(Exception::WrongOpCode(value))
    }
}

/// The register indices of an instruction name existing registers, immediate
/// addresses fit in 12 bits, and a sprite height fits in 4 bits.
pub open spec fn operands_bounded(instruction: Instruction) -> bool {
    match instruction {
        Instruction::CLS => true,
        Instruction::RET => true,
        Instruction::SYS(a) => a <= 0xFFF,
        Instruction::JP(a) => a <= 0xFFF,
        Instruction::CALL(a) => a <= 0xFFF,
        Instruction::SErb { x, byte } => x < 16,
        Instruction::SNErb { x, byte } => x < 16,
        Instruction::SErr { x, y } => x < 16 && y < 16,
        Instruction::LDbr { x, byte } => x < 16,
        Instruction::ADDbr { x, byte } => x < 16,
        Instruction::LDrr { x, y } => x < 16 && y < 16,
        Instruction::OR { x, y } => x < 16 && y < 16,
        Instruction::AND { x, y } => x < 16 && y < 16,
        Instruction::XOR { x, y } => x < 16 && y < 16,
        Instruction::ADDrr { x, y } => x < 16 && y < 16,
        Instruction::SUB { x, y } => x < 16 && y < 16,
        Instruction::SHR(x) => x < 16,
        Instruction::SUBN { x, y } => x < 16 && y < 16,
        Instruction::SHL(x) => x < 16,
        Instruction::SNErr { x, y } => x < 16 && y < 16,
        Instruction::LDi(a) => a <= 0xFFF,
        Instruction::JPr(a) => a <= 0xFFF,
        Instruction::RND { x, byte } => x < 16,
        Instruction::DRW { x, y, n } => x < 16 && y < 16 && n < 16,
        Instruction::SKP(x) => x < 16,
        Instruction::SKNP(x) => x < 16,
        Instruction::LDdr(x) => x < 16,
        Instruction::LDkr(x) => x < 16,
        Instruction::LDrd(x) => x < 16,
        Instruction::LDrs(x) => x < 16,
        Instruction::ADDri(x) => x < 16,
        Instruction::LDmi(x) => x < 16,
        Instruction::LDrm(x) => x < 16,
        Instruction::LDvm(x) => x < 16,
        Instruction::LDmv(x) => x < 16,
    }
}

/// Decoding is total and unambiguous: every 16-bit value either yields the
/// one instruction of `decode`, whose operands are in range, or the decode
/// fault that carries that exact value; no value is silently dropped.
pub proof fn lemma_decode_total(value: OpCode)
    ensures
        match decode(value) {
            Ok(instruction) => operands_bounded(instruction),
            Err(fault) => fault == Exception::WrongOpCode(value),
        },
{
}

impl Instruction {
    /// Decodes an opcode into the unique instruction matching its bit
    /// pattern, or reports a decode fault carrying the whole opcode.
    pub fn try_from(value: OpCode) -> (result: Result<Instruction, Exception>)
        ensures
            result == decode(value),
    {
        match split(value) {
            (0x0, 0x0, 0xE, 0x0) => Ok(Instruction::CLS),
            (0x0, 0x0, 0xE, 0xE) => Ok(Instruction::RET),
            (0x0, ..) => Ok(Instruction::SYS(value % 0x1000)),
            (0x1, ..) => Ok(Instruction::JP(value % 0x1000)),
            (0x2, ..) => Ok(Instruction::CALL(value % 0x1000)),
            (0x3, vx, ..) => Ok(Instruction::SErb { x: vx as RegIndex, byte: (value % 0x100) as Byte }),
            (0x4, vx, ..) => Ok(Instruction::SNErb { x: vx as RegIndex, byte: (value % 0x100) as Byte }),
            (0x5, vx, vy, 0x0) => Ok(Instruction::SErr { x: vx as RegIndex, y: vy as RegIndex }),
            (0x6, vx, ..) => Ok(Instruction::LDbr { x: vx as RegIndex, byte: (value % 0x100) as Byte }),
            (0x7, vx, ..) => Ok(Instruction::ADDbr { x: vx as RegIndex, byte: (value % 0x100) as Byte }),
            (0x8, vx, vy, 0x0) => Ok(Instruction::LDrr { x: vx as RegIndex, y: vy as RegIndex }),
            (0x8, vx, vy, 0x1) => Ok(Instruction::OR { x: vx as RegIndex, y: vy as RegIndex }),
            (0x8, vx, vy, 0x2) => Ok(Instruction::AND { x: vx as RegIndex, y: vy as RegIndex }),
            (0x8, vx, vy, 0x3) => Ok(Instruction::XOR { x: vx as RegIndex, y: vy as RegIndex }),
            (0x8, vx, vy, 0x4) => Ok(Instruction::ADDrr { x: vx as RegIndex, y: vy as RegIndex }),
            (0x8, vx, vy, 0x5) => Ok(Instruction::SUB { x: vx as RegIndex, y: vy as RegIndex }),
            (0x8, vx, _, 0x6) => Ok(Instruction::SHR(vx as RegIndex)),
            (0x8, vx, vy, 0x7) => Ok(Instruction::SUBN { x: vx as RegIndex, y: vy as RegIndex }),
            (0x8, vx, _, 0xE) => Ok(Instruction::SHL(vx as RegIndex)),
            (0x9, vx, vy, 0x0) => Ok(Instruction::SNErr { x: vx as RegIndex, y: vy as RegIndex }),
            (0xA, ..) => Ok(Instruction::LDi(value % 0x1000)),
            (0xB, ..) => Ok(Instruction::JPr(value % 0x1000)),
            (0xC, vx, ..) => Ok(Instruction::RND { x: vx as RegIndex, byte: (value % 0x100) as Byte }),
            (0xD, vx, vy, height) => Ok(Instruction::DRW {
                x: vx as RegIndex,
                y: vy as RegIndex,
                n: height as Byte,
            }),
            (0xE, vx, 0x9, 0xE) => Ok(Instruction::SKP(vx as RegIndex)),
            (0xE, vx, 0xA, 0x1) => Ok(Instruction::SKNP(vx as RegIndex)),
            (0xF, vx, 0x0, 0x7) => Ok(Instruction::LDdr(vx as RegIndex)),
            (0xF, vx, 0x0, 0xA) => Ok(Instruction::LDkr(vx as RegIndex)),
            (0xF, vx, 0x1, 0x5) => Ok(Instruction::LDrd(vx as RegIndex)),
            (0xF, vx, 0x1, 0x8) => Ok(Instruction::LDrs(vx as RegIndex)),
            (0xF, vx, 0x1, 0xE) => Ok(Instruction::ADDri(vx as RegIndex)),
            (0xF, vx, 0x2, 0x9) => Ok(Instruction::LDmi(vx as RegIndex)),
            (0xF, vx, 0x3, 0x3) => Ok(Instruction::LDrm(vx as RegIndex)),
            (0xF, vx, 0x5, 0x5) => Ok(Instruction::LDvm(vx as RegIndex)),
            (0xF, vx, 0x6, 0x5) => Ok(Instruction::LDmv(vx as RegIndex)),
            (..) => Err(Exception::WrongOpCode(value)),
        }
    }
}

/// Divides a word into four nibbles
pub fn split(opcode: OpCode) -> (nibbles: (u16, u16, u16, u16))
    ensures
        nibbles == split_spec(opcode),
{
    (
        opcode / 0x1000,
        (opcode / 0x100) % 0x10,
        (opcode / 0x10) % 0x10,
        opcode % 0x10,
    )
}

} // verus!
