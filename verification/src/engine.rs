use vstd::prelude::*;

pub mod operations;

use operations::{ArithOp, BitOp};

use crate::cpu::register::{Register, VRegister};
use crate::cpu::{arith_step, bit_step, Cpu};
use crate::exception::Exception;
use crate::fontset;
use crate::instruction::Instruction;
use crate::key::keymap::first_pressed_seq;
use crate::key::{Key, KeyMap};
use crate::ram::{Ram, RAM_SIZE};
use crate::stack::{Stack, STACK_SIZE};
use crate::timer::Timer;
use crate::vram::{VRam, SCREEN_SIZE};
use crate::{Address, BitMask, Byte, OpCode, Pixel, Rom};

verus! {

/// Core of the emulator: it owns every component and drives the
/// fetch-decode-execute cycle.
#[derive(Debug)]
pub struct OitoCore {
    /// Emulated CPU
    pub cpu: Cpu,
    /// Emulated RAM
    pub ram: Ram,
    /// Emulated Stack
    pub stack: Stack,
    /// Display memory with the information of the current frame to draw
    pub vram: VRam,
    /// Delay timer
    pub dt: Timer,
    /// Sound timer
    pub st: Timer,
    /// Key character map
    pub keys: KeyMap,
}

/// Mathematical snapshot of the whole machine, over which every contract of
/// the execution core is stated.
#[verifier::ext_equal]
pub struct CoreState {
    /// Program counter
    pub pc: Address,
    /// I-Register
    pub i: Address,
    /// The sixteen V-Registers
    pub v: Seq<VRegister>,
    /// The bytes of the RAM
    pub memory: Seq<Byte>,
    /// Number of addresses held by the call stack
    pub sp: Address,
    /// The slots of the call stack
    pub stack: Seq<Address>,
    /// The cells of the framebuffer
    pub buffer: Seq<Pixel>,
    /// Delay timer count
    pub dt: Byte,
    /// Sound timer count
    pub st: Byte,
    /// The sixteen key latches
    pub keys: Seq<bool>,
}

impl CoreState {
    /// Every component has its fixed size and the stack pointer stays within
    /// the stack.
    pub open spec fn wf(&self) -> bool {
        &&& self.v.len() == 16
        &&& self.memory.len() == RAM_SIZE
        &&& self.sp <= STACK_SIZE
        &&& self.stack.len() == STACK_SIZE
        &&& self.buffer.len() == SCREEN_SIZE
        &&& self.keys.len() == 16
    }
}

impl View for OitoCore {
    type V = CoreState;

    open spec fn view(&self) -> CoreState {
        CoreState {
            pc: self.cpu.pc,
            i: self.cpu.ireg.0,
            v: self.cpu.vreg@,
            memory: self.ram.memory@,
            sp: self.stack.pointer,
            stack: self.stack.content@,
            buffer: self.vram.buffer@,
            dt: self.dt.count,
            st: self.st.count,
            keys: self.keys.key_pressed@,
        }
    }
}

/// A freshly constructed machine: program counter at the origin and every
/// register, timer, stack slot, key latch and pixel zeroed.
pub open spec fn pristine(state: CoreState) -> bool {
    &&& state.wf()
    &&& state.pc == Cpu::STARTING_ADDRESS
    &&& state.i == 0
    &&& forall|k: int| 0 <= k < 16 ==> state.v[k].0 == 0
    &&& state.sp == 0
    &&& forall|k: int| 0 <= k < STACK_SIZE ==> state.stack[k] == 0
    &&& forall|k: int| 0 <= k < SCREEN_SIZE ==> state.buffer[k] == false
    &&& state.dt == 0
    &&& state.st == 0
    &&& forall|k: int| 0 <= k < 16 ==> state.keys[k] == false
}

/// Whether bit `j` of a sprite row byte is lit, counting from the most
/// significant bit.
pub open spec fn sprite_pixel(row: Byte, j: u8) -> bool {
    row & (Byte::MOST_SIGNIFICANT_BIT >> j) != 0
}

/// The framebuffer and the collision report after painting one sprite row
/// from bit `j` on: every lit bit toggles its cell, with wraparound, and a
/// collision is any lit bit whose cell was already on.
pub open spec fn draw_row_from(buffer: Seq<Pixel>, x: int, y: int, row: Byte, j: u8) -> (
    Seq<Pixel>,
    bool,
)
    decreases 8 - j,
{
    if j >= 8 {
        (buffer, false)
    } else if sprite_pixel(row, j) {
        let idx = VRam::to_index_spec(x + j, y);
        let hit = buffer[idx];
        let rest = draw_row_from(buffer.update(idx, !buffer[idx]), x, y, row, (j + 1) as u8);
        (rest.0, hit || rest.1)
    } else {
        draw_row_from(buffer, x, y, row, (j + 1) as u8)
    }
}

/// The framebuffer, the collision report and the possible failure after
/// drawing the sprite rows from row `k` on: row `k` is read at I plus `k` and
/// painted one below the previous one; a failed read stops the draw and keeps
/// the rows already painted.
pub open spec fn draw_sprite_from(
    buffer: Seq<Pixel>,
    memory: Seq<Byte>,
    i: Address,
    x: int,
    y: int,
    n: Byte,
    k: Byte,
) -> (Seq<Pixel>, bool, Option<Exception>)
    decreases n - k,
{
    if k >= n {
        (buffer, false, None)
    } else if i + k >= RAM_SIZE {
        (buffer, false, Some(Exception::SegmentationFault((i + k) as Address)))
    } else {
        let row = draw_row_from(buffer, x, y + k, memory[i + k], 0);
        let rest = draw_sprite_from(row.0, memory, i, x, y, n, (k + 1) as u8);
        (rest.0, row.1 || rest.1, rest.2)
    }
}

/// The memory and the possible failure after storing registers V0 to Vx, from
/// register `k` on, at consecutive addresses from `start`: a failed write
/// stops the copy and keeps the bytes already written.
pub open spec fn store_regs_from(
    memory: Seq<Byte>,
    v: Seq<VRegister>,
    start: Address,
    x: Byte,
    k: int,
) -> (Seq<Byte>, Option<Exception>)
    decreases x + 1 - k,
{
    if k > x {
        (memory, None)
    } else if start + k >= RAM_SIZE {
        (memory, Some(Exception::SegmentationFault((start + k) as Address)))
    } else {
        store_regs_from(memory.update(start + k, v[k].0), v, start, x, k + 1)
    }
}

/// The registers and the possible failure after loading registers V0 to Vx,
/// from register `k` on, from consecutive addresses from `start`: a failed
/// read stops the copy and keeps the registers already loaded.
pub open spec fn load_regs_from(
    v: Seq<VRegister>,
    memory: Seq<Byte>,
    start: Address,
    x: Byte,
    k: int,
) -> (Seq<VRegister>, Option<Exception>)
    decreases x + 1 - k,
{
    if k > x {
        (v, None)
    } else if start + k >= RAM_SIZE {
        (v, Some(Exception::SegmentationFault((start + k) as Address)))
    } else {
        load_regs_from(v.update(k, Register(memory[start + k])), memory, start, x, k + 1)
    }
}

/// The inputs on which `execute` owes its work: the registers an instruction
/// names must exist, a satisfied skip needs room to advance the counter, the
/// register jump must stay within the address type, and the key wait needs
/// room to rewind the counter.
pub open spec fn execute_enabled(pre: CoreState, instruction: Instruction) -> bool {
    match instruction {
        Instruction::CLS => true,
        Instruction::RET => true,
        Instruction::SYS(_) => true,
        Instruction::JP(_) => true,
        Instruction::CALL(_) => true,
        Instruction::SErb { x, byte } => x < 16 && (pre.v[x as int].0 == byte ==> pre.pc + 2
            <= Address::MAX),
        Instruction::SNErb { x, byte } => x < 16 && (pre.v[x as int].0 != byte ==> pre.pc + 2
            <= Address::MAX),
        Instruction::SErr { x, y } => x < 16 && y < 16 && (pre.v[x as int].0 == pre.v[y as int].0
            ==> pre.pc + 2 <= Address::MAX),
        Instruction::LDbr { x, byte: _ } => x < 16,
        Instruction::ADDbr { x, byte: _ } => x < 16,
        Instruction::LDrr { x, y } => x < 16 && y < 16,
        Instruction::OR { x, y } => x < 16 && y < 16,
        Instruction::AND { x, y } => x < 16 && y < 16,
        Instruction::XOR { x, y } => x < 16 && y < 16,
        Instruction::ADDrr { x, y } => x < 16 && y < 16,
        Instruction::SUB { x, y } => x < 16 && y < 16,
        Instruction::SHR(x) => x < 16,
        Instruction::SUBN { x, y } => x < 16 && y < 16,
        Instruction::SHL(x) => x < 16,
        Instruction::SNErr { x, y } => x < 16 && y < 16 && (pre.v[x as int].0 != pre.v[
            y as int
        ].0 ==> pre.pc + 2 <= Address::MAX),
        Instruction::LDi(_) => true,
        Instruction::JPr(address) => pre.v[0].0 + address <= Address::MAX,
        Instruction::RND { x, byte: _ } => x < 16,
        Instruction::DRW { x, y, n: _ } => x < 16 && y < 16,
        Instruction::SKP(x) => x < 16 && (pre.keys[(pre.v[x as int].0 % 16) as int] ==> pre.pc + 2
            <= Address::MAX),
        Instruction::SKNP(x) => x < 16 && (!pre.keys[(pre.v[x as int].0 % 16) as int] ==> pre.pc
            + 2 <= Address::MAX),
        Instruction::LDdr(x) => x < 16,
        Instruction::LDkr(x) => x < 16 && (first_pressed_seq(pre.keys, 0) is None ==> pre.pc
            >= 2),
        Instruction::LDrd(x) => x < 16,
        Instruction::LDrs(x) => x < 16,
        Instruction::ADDri(x) => x < 16,
        Instruction::LDmi(x) => x < 16,
        Instruction::LDrm(x) => x < 16,
        Instruction::LDvm(x) => x < 16,
        Instruction::LDmv(x) => x < 16,
    }
}

/// The machine after executing one instruction from the given state, paired
/// with the failure it reports, if any. A failing instruction keeps whatever
/// part of its work already completed; the counter is never touched by a
/// failing instruction. The `rnd` argument is the byte that the random-number
/// instruction masks; every other instruction ignores it. The skip-on-key
/// forms consult the latch named by the low nibble of Vx, as the font
/// pointer does.
pub open spec fn step(pre: CoreState, instruction: Instruction, rnd: Byte) -> (
    CoreState,
    Option<Exception>,
) {
    match instruction {
        Instruction::CLS => (
            CoreState { buffer: Seq::new(SCREEN_SIZE as nat, |c: int| false), ..pre },
            None,
        ),
        Instruction::RET => if pre.sp == 0 {
            (pre, Some(Exception::StackUnderflow))
        } else {
            (
                CoreState { pc: pre.stack[pre.sp - 1], sp: (pre.sp - 1) as Address, ..pre },
                None,
            )
        },
        Instruction::SYS(address) => (CoreState { pc: address, ..pre }, None),
        Instruction::JP(address) => (CoreState { pc: address, ..pre }, None),
        Instruction::CALL(address) => if pre.sp < STACK_SIZE {
            (
                CoreState {
                    pc: address,
                    sp: (pre.sp + 1) as Address,
                    stack: pre.stack.update(pre.sp as int, pre.pc),
                    ..pre
                },
                None,
            )
        } else {
            (pre, Some(Exception::StackOverflow))
        },
        Instruction::SErb { x, byte } => (
            CoreState {
                pc: if pre.v[x as int].0 == byte {
                    (pre.pc + 2) as Address
                } else {
                    pre.pc
                },
                ..pre
            },
            None,
        ),
        Instruction::SNErb { x, byte } => (
            CoreState {
                pc: if pre.v[x as int].0 != byte {
                    (pre.pc + 2) as Address
                } else {
                    pre.pc
                },
                ..pre
            },
            None,
        ),
        Instruction::SErr { x, y } => (
            CoreState {
                pc: if pre.v[x as int].0 == pre.v[y as int].0 {
                    (pre.pc + 2) as Address
                } else {
                    pre.pc
                },
                ..pre
            },
            None,
        ),
        Instruction::LDbr { x, byte } => (
            CoreState { v: pre.v.update(x as int, Register(byte)), ..pre },
            None,
        ),
        Instruction::ADDbr { x, byte } => (
            CoreState { v: arith_step(pre.v, ArithOp::Add(x, byte)), ..pre },
            None,
        ),
        Instruction::LDrr { x, y } => (
            CoreState { v: pre.v.update(x as int, Register(pre.v[y as int].0)), ..pre },
            None,
        ),
        Instruction::OR { x, y } => (
            CoreState { v: bit_step(pre.v, BitOp::Or(x, y)), ..pre },
            None,
        ),
        Instruction::AND { x, y } => (
            CoreState { v: bit_step(pre.v, BitOp::And(x, y)), ..pre },
            None,
        ),
        Instruction::XOR { x, y } => (
            CoreState { v: bit_step(pre.v, BitOp::Xor(x, y)), ..pre },
            None,
        ),
        Instruction::ADDrr { x, y } => (
            CoreState { v: arith_step(pre.v, ArithOp::CheckedAdd(x, y)), ..pre },
            None,
        ),
        Instruction::SUB { x, y } => (
            CoreState { v: arith_step(pre.v, ArithOp::Sub(x, y)), ..pre },
            None,
        ),
        Instruction::SHR(x) => (
            CoreState { v: bit_step(pre.v, BitOp::ShiftRight(x)), ..pre },
            None,
        ),
        Instruction::SUBN { x, y } => (
            CoreState { v: arith_step(pre.v, ArithOp::SubN(x, y)), ..pre },
            None,
        ),
        Instruction::SHL(x) => (
            CoreState { v: bit_step(pre.v, BitOp::ShiftLeft(x)), ..pre },
            None,
        ),
        Instruction::SNErr { x, y } => (
            CoreState {
                pc: if pre.v[x as int].0 != pre.v[y as int].0 {
                    (pre.pc + 2) as Address
                } else {
                    pre.pc
                },
                ..pre
            },
            None,
        ),
        Instruction::LDi(address) => (CoreState { i: address, ..pre }, None),
        Instruction::JPr(address) => (
            CoreState { pc: (pre.v[0].0 + address) as Address, ..pre },
            None,
        ),
        Instruction::RND { x, byte } => (
            CoreState { v: pre.v.update(x as int, Register(byte & rnd)), ..pre },
            None,
        ),
        Instruction::DRW { x, y, n } => {
            let drawn = draw_sprite_from(
                pre.buffer,
                pre.memory,
                pre.i,
                pre.v[x as int].0 as int,
                pre.v[y as int].0 as int,
                n,
                0,
            );
            match drawn.2 {
                Option::None => (
                    CoreState {
                        buffer: drawn.0,
                        v: pre.v.update(15, Register(if drawn.1 { 1u8 } else { 0u8 })),
                        ..pre
                    },
                    None,
                ),
                Option::Some(fault) => (
                    CoreState { buffer: drawn.0, ..pre },
                    Some(fault),
                ),
            }
        },
        Instruction::SKP(x) => (
            CoreState {
                pc: if pre.keys[(pre.v[x as int].0 % 16) as int] {
                    (pre.pc + 2) as Address
                } else {
                    pre.pc
                },
                ..pre
            },
            None,
        ),
        Instruction::SKNP(x) => (
            CoreState {
                pc: if !pre.keys[(pre.v[x as int].0 % 16) as int] {
                    (pre.pc + 2) as Address
                } else {
                    pre.pc
                },
                ..pre
            },
            None,
        ),
        Instruction::LDdr(x) => (
            CoreState { v: pre.v.update(x as int, Register(pre.dt)), ..pre },
            None,
        ),
        Instruction::LDkr(x) => match first_pressed_seq(pre.keys, 0) {
            Option::Some(key) => (
                CoreState { v: pre.v.update(x as int, Register(key as Byte)), ..pre },
                None,
            ),
            Option::None => (CoreState { pc: (pre.pc - 2) as Address, ..pre }, None),
        },
        Instruction::LDrd(x) => (CoreState { dt: pre.v[x as int].0, ..pre }, None),
        Instruction::LDrs(x) => (CoreState { st: pre.v[x as int].0, ..pre }, None),
        Instruction::ADDri(x) => (
            CoreState { i: ((pre.i + pre.v[x as int].0) % 0x10000) as Address, ..pre },
            None,
        ),
        Instruction::LDmi(x) => (
            CoreState { i: fontset::location_spec(pre.v[x as int].0), ..pre },
            None,
        ),
        Instruction::LDrm(x) => {
            let value = pre.v[x as int].0;
            let hundreds = (value / 100) as Byte;
            let tens = ((value % 100) / 10) as Byte;
            let units = (value % 10) as Byte;
            if pre.i >= RAM_SIZE {
                (pre, Some(Exception::SegmentationFault(pre.i)))
            } else if pre.i + 1 >= RAM_SIZE {
                (
                    CoreState { memory: pre.memory.update(pre.i as int, hundreds), ..pre },
                    Some(Exception::SegmentationFault((pre.i + 1) as Address)),
                )
            } else if pre.i + 2 >= RAM_SIZE {
                (
                    CoreState {
                        memory: pre.memory.update(pre.i as int, hundreds).update(
                            pre.i + 1,
                            tens,
                        ),
                        ..pre
                    },
                    Some(Exception::SegmentationFault((pre.i + 2) as Address)),
                )
            } else {
                (
                    CoreState {
                        memory: pre.memory.update(pre.i as int, hundreds).update(
                            pre.i + 1,
                            tens,
                        ).update(pre.i + 2, units),
                        ..pre
                    },
                    None,
                )
            }
        },
        Instruction::LDvm(x) => {
            let stored = store_regs_from(pre.memory, pre.v, pre.i, x, 0);
            (CoreState { memory: stored.0, ..pre }, stored.1)
        },
        Instruction::LDmv(x) => {
            let loaded = load_regs_from(pre.v, pre.memory, pre.i, x, 0);
            (CoreState { v: loaded.0, ..pre }, loaded.1)
        },
    }
}

/// A CALL immediately followed by RET restores the program counter to
/// exactly its pre-CALL value and brings the stack depth back to what it
/// was, whenever the call stack has room for the call.
pub proof fn lemma_call_ret(pre: CoreState, address: Address, rnd1: Byte, rnd2: Byte)
    requires
        pre.wf(),
        pre.sp < STACK_SIZE,
    ensures
        ({
            let called = step(pre, Instruction::CALL(address), rnd1);
            let returned = step(called.0, Instruction::RET, rnd2);
            &&& called.1 is None
            &&& called.0.pc == address
            &&& returned.1 is None
            &&& returned.0.pc == pre.pc
            &&& returned.0.sp == pre.sp
            &&& returned.0.v == pre.v
            &&& returned.0.memory == pre.memory
            &&& returned.0.buffer == pre.buffer
            &&& returned.0.keys == pre.keys
            &&& returned.0.i == pre.i
            &&& returned.0.dt == pre.dt
            &&& returned.0.st == pre.st
        }),
{
}

/// The cell that bit `j` of a sprite row paints when the row is drawn at the
/// given coordinates.
pub open spec fn row_cell(x: int, y: int, j: u8) -> int {
    VRam::to_index_spec(x + j, y)
}

/// Whether drawing the row from bit `j0` on toggles the given cell.
pub open spec fn row_hits(x: int, y: int, row: Byte, j0: u8, cell: int) -> bool {
    exists|j: u8| j0 <= j < 8 && sprite_pixel(row, j) && #[trigger] row_cell(x, y, j) == cell
}

/// Whether drawing the row from bit `j0` on toggles a cell that is already
/// lit in the given buffer.
pub open spec fn row_collides(buffer: Seq<Pixel>, x: int, y: int, row: Byte, j0: u8) -> bool {
    exists|j: u8| j0 <= j < 8 && sprite_pixel(row, j) && buffer[#[trigger] row_cell(x, y, j)]
}

/// Two distinct bits of one sprite row always paint two distinct cells: their
/// columns stay apart even with wraparound.
pub proof fn lemma_row_cells_distinct(x: int, y: int, j1: u8, j2: u8)
    requires
        0 <= x,
        j1 < 8,
        j2 < 8,
        j1 != j2,
    ensures
        row_cell(x, y, j1) != row_cell(x, y, j2),
{
    let a = x + j1;
    let b = x + j2;
    if row_cell(x, y, j1) == row_cell(x, y, j2) {
        assert(a % 64 == b % 64);
        vstd::arithmetic::div_mod::lemma_fundamental_div_mod(a, 64);
        vstd::arithmetic::div_mod::lemma_fundamental_div_mod(b, 64);
        assert(a - b == 64 * (a / 64 - b / 64));
        assert(-8 < a - b < 8);
        assert(a / 64 - b / 64 == 0) by (nonlinear_arith)
            requires
                a - b == 64 * (a / 64 - b / 64),
                -8 < a - b < 8,
        ;
        assert(false);
    }
}

/// Drawing one sprite row toggles exactly the cells its lit bits land on, and
/// reports a collision exactly when one of those cells was already lit.
pub proof fn lemma_draw_row_characterize(buffer: Seq<Pixel>, x: int, y: int, row: Byte, j0: u8)
    requires
        buffer.len() == SCREEN_SIZE,
        0 <= x,
        0 <= y,
    ensures
        ({
            let r = draw_row_from(buffer, x, y, row, j0);
            &&& r.0.len() == SCREEN_SIZE
            &&& forall|cell: int|
                0 <= cell < SCREEN_SIZE ==> r.0[cell] == (if row_hits(x, y, row, j0, cell) {
                    !buffer[cell]
                } else {
                    buffer[cell]
                })
            &&& r.1 == row_collides(buffer, x, y, row, j0)
        }),
    decreases 8 - j0,
{
    let r = draw_row_from(buffer, x, y, row, j0);
    if j0 >= 8 {
        assert(forall|cell: int| !row_hits(x, y, row, j0, cell));
        assert(!row_collides(buffer, x, y, row, j0));
    } else {
        let j1 = (j0 + 1) as u8;
        if sprite_pixel(row, j0) {
            let idx = row_cell(x, y, j0);
            assert(0 <= idx < SCREEN_SIZE);
            let toggled = buffer.update(idx, !buffer[idx]);
            lemma_draw_row_characterize(toggled, x, y, row, j1);
            let rec = draw_row_from(toggled, x, y, row, j1);
            assert(r == (rec.0, buffer[idx] || rec.1));
            assert forall|j: u8| j0 < j < 8 implies row_cell(x, y, j) != idx by {
                lemma_row_cells_distinct(x, y, j, j0);
            }
            // the cells of the later bits read the same in both buffers
            assert(forall|j: u8|
                j0 < j < 8 ==> toggled[#[trigger] row_cell(x, y, j)] == buffer[row_cell(x, y, j)]);
            assert forall|cell: int|
                0 <= cell < SCREEN_SIZE implies r.0[cell] == (if row_hits(x, y, row, j0, cell) {
                    !buffer[cell]
                } else {
                    buffer[cell]
                }) by {
                if cell == idx {
                    if row_hits(x, y, row, j1, idx) {
                        let j = choose|j: u8|
                            j1 <= j < 8 && sprite_pixel(row, j) && #[trigger] row_cell(x, y, j)
                                == idx;
                        assert(row_cell(x, y, j) != idx);
                    }
                    assert(!row_hits(x, y, row, j1, idx));
                    assert(row_cell(x, y, j0) == idx && sprite_pixel(row, j0));
                    assert(row_hits(x, y, row, j0, idx));
                    assert(rec.0[idx] == toggled[idx]);
                    assert(toggled[idx] == !buffer[idx]);
                    assert(r.0[idx] == !buffer[idx]);
                } else {
                    assert(toggled[cell] == buffer[cell]);
                    if row_hits(x, y, row, j0, cell) {
                        let j = choose|j: u8|
                            j0 <= j < 8 && sprite_pixel(row, j) && #[trigger] row_cell(x, y, j)
                                == cell;
                        assert(j != j0);
                        assert(row_hits(x, y, row, j1, cell));
                        assert(rec.0[cell] == !toggled[cell]);
                        assert(r.0[cell] == !buffer[cell]);
                    } else {
                        if row_hits(x, y, row, j1, cell) {
                            let j = choose|j: u8|
                                j1 <= j < 8 && sprite_pixel(row, j) && #[trigger] row_cell(
                                    x,
                                    y,
                                    j,
                                ) == cell;
                            assert(row_hits(x, y, row, j0, cell));
                        }
                        assert(!row_hits(x, y, row, j1, cell));
                        assert(rec.0[cell] == toggled[cell]);
                        assert(r.0[cell] == buffer[cell]);
                    }
                }
            }
            // collisions: bit j0 sees the original buffer, the rest see the
            // toggled one, which agrees with the original on their cells
            if row_collides(toggled, x, y, row, j1) {
                let j = choose|j: u8|
                    j1 <= j < 8 && sprite_pixel(row, j) && toggled[#[trigger] row_cell(x, y, j)];
                assert(buffer[row_cell(x, y, j)]);
                assert(row_collides(buffer, x, y, row, j0));
            }
            if row_collides(buffer, x, y, row, j1) {
                let j = choose|j: u8|
                    j1 <= j < 8 && sprite_pixel(row, j) && buffer[#[trigger] row_cell(x, y, j)];
                assert(toggled[row_cell(x, y, j)]);
                assert(row_collides(toggled, x, y, row, j1));
            }
            if buffer[idx] {
                assert(row_collides(buffer, x, y, row, j0));
            }
            if row_collides(buffer, x, y, row, j0) && !buffer[idx] {
                let j = choose|j: u8|
                    j0 <= j < 8 && sprite_pixel(row, j) && buffer[#[trigger] row_cell(x, y, j)];
                assert(j != j0);
                assert(row_collides(buffer, x, y, row, j1));
            }
        } else {
            lemma_draw_row_characterize(buffer, x, y, row, j1);
            assert forall|cell: int|
                0 <= cell < SCREEN_SIZE implies row_hits(x, y, row, j0, cell) == row_hits(
                x,
                y,
                row,
                j1,
                cell,
            ) by {
                if row_hits(x, y, row, j0, cell) {
                    let j = choose|j: u8|
                        j0 <= j < 8 && sprite_pixel(row, j) && #[trigger] row_cell(x, y, j)
                            == cell;
                    assert(j != j0);
                    assert(row_hits(x, y, row, j1, cell));
                }
            }
            if row_collides(buffer, x, y, row, j0) {
                let j = choose|j: u8|
                    j0 <= j < 8 && sprite_pixel(row, j) && buffer[#[trigger] row_cell(x, y, j)];
                assert(j != j0);
                assert(row_collides(buffer, x, y, row, j1));
            }
        }
    }
}

/// The cell that bit `j` of sprite row `k` paints when the sprite is drawn
/// at the given coordinates.
pub open spec fn sprite_cell(x: int, y: int, k: u8, j: u8) -> int {
    VRam::to_index_spec(x + j, y + k)
}

/// Whether drawing the sprite rows from `k0` on toggles the given cell.
pub open spec fn sprite_hits(
    memory: Seq<Byte>,
    i: Address,
    x: int,
    y: int,
    n: Byte,
    k0: u8,
    cell: int,
) -> bool {
    exists|k: u8, j: u8|
        k0 <= k < n && j < 8 && sprite_pixel(memory[i + k], j) && #[trigger] sprite_cell(
            x,
            y,
            k,
            j,
        ) == cell
}

/// Whether drawing the sprite rows from `k0` on toggles a cell that is
/// already lit in the given buffer.
pub open spec fn sprite_collides(
    buffer: Seq<Pixel>,
    memory: Seq<Byte>,
    i: Address,
    x: int,
    y: int,
    n: Byte,
    k0: u8,
) -> bool {
    exists|k: u8, j: u8|
        k0 <= k < n && j < 8 && sprite_pixel(memory[i + k], j) && buffer[#[trigger] sprite_cell(
            x,
            y,
            k,
            j,
        )]
}

/// Bits of two distinct rows of one sprite always paint two distinct cells:
/// the rows stay apart even with wraparound, since a sprite is at most
/// sixteen rows tall.
pub proof fn lemma_sprite_cells_distinct(x: int, y: int, k1: u8, j1: u8, k2: u8, j2: u8)
    requires
        0 <= x,
        0 <= y,
        k1 < 16,
        k2 < 16,
        j1 < 8,
        j2 < 8,
        k1 != k2,
    ensures
        sprite_cell(x, y, k1, j1) != sprite_cell(x, y, k2, j2),
{
    let a = y + k1;
    let b = y + k2;
    if sprite_cell(x, y, k1, j1) == sprite_cell(x, y, k2, j2) {
        let c1 = (x + j1) % 64;
        let c2 = (x + j2) % 64;
        let r1 = a % 32;
        let r2 = b % 32;
        assert(c1 + r1 * 64 == c2 + r2 * 64);
        if r1 == r2 {
            vstd::arithmetic::div_mod::lemma_fundamental_div_mod(a, 32);
            vstd::arithmetic::div_mod::lemma_fundamental_div_mod(b, 32);
            assert(a - b == 32 * (a / 32 - b / 32));
            assert(-16 < a - b < 16);
            assert(a / 32 - b / 32 == 0) by (nonlinear_arith)
                requires
                    a - b == 32 * (a / 32 - b / 32),
                    -16 < a - b < 16,
            ;
            assert(false);
        } else {
            assert(0 <= c1 < 64);
            assert(0 <= c2 < 64);
            assert(c1 - c2 == 64 * (r2 - r1));
            assert(r2 - r1 == 0) by (nonlinear_arith)
                requires
                    c1 - c2 == 64 * (r2 - r1),
                    -64 < c1 - c2 < 64,
            ;
            assert(false);
        }
    }
}

/// Drawing a sprite toggles exactly the cells its lit bits land on, and
/// reports a collision exactly when one of those cells was already lit; when
/// every row can be read, no failure is reported.
pub proof fn lemma_draw_sprite_characterize(
    buffer: Seq<Pixel>,
    memory: Seq<Byte>,
    i: Address,
    x: int,
    y: int,
    n: Byte,
    k0: u8,
)
    requires
        buffer.len() == SCREEN_SIZE,
        memory.len() == RAM_SIZE,
        0 <= x,
        0 <= y,
        n < 16,
        k0 <= n,
        i + n <= RAM_SIZE,
    ensures
        ({
            let r = draw_sprite_from(buffer, memory, i, x, y, n, k0);
            &&& r.2 is None
            &&& r.0.len() == SCREEN_SIZE
            &&& forall|cell: int|
                0 <= cell < SCREEN_SIZE ==> r.0[cell] == (if sprite_hits(
                    memory,
                    i,
                    x,
                    y,
                    n,
                    k0,
                    cell,
                ) {
                    !buffer[cell]
                } else {
                    buffer[cell]
                })
            &&& r.1 == sprite_collides(buffer, memory, i, x, y, n, k0)
        }),
    decreases n - k0,
{
    let r = draw_sprite_from(buffer, memory, i, x, y, n, k0);
    if k0 >= n {
        assert(forall|cell: int| !sprite_hits(memory, i, x, y, n, k0, cell));
        assert(!sprite_collides(buffer, memory, i, x, y, n, k0));
    } else {
        let rowbyte = memory[i + k0];
        let k1 = (k0 + 1) as u8;
        lemma_draw_row_characterize(buffer, x, y + k0, rowbyte, 0);
        let row = draw_row_from(buffer, x, y + k0, rowbyte, 0);
        lemma_draw_sprite_characterize(row.0, memory, i, x, y, n, k1);
        let rec = draw_sprite_from(row.0, memory, i, x, y, n, k1);
        assert(r == (rec.0, row.1 || rec.1, rec.2));
        // the cells of a later row never overlap those of row k0
        assert(forall|j: u8| #[trigger] row_cell(x, y + k0, j) == sprite_cell(x, y, k0, j));
        assert forall|cell: int|
            0 <= cell < SCREEN_SIZE implies r.0[cell] == (if sprite_hits(
                memory,
                i,
                x,
                y,
                n,
                k0,
                cell,
            ) {
                !buffer[cell]
            } else {
                buffer[cell]
            }) by {
            if row_hits(x, y + k0, rowbyte, 0, cell) {
                let j = choose|j: u8|
                    0 <= j < 8 && sprite_pixel(rowbyte, j) && #[trigger] row_cell(x, y + k0, j)
                        == cell;
                assert(sprite_cell(x, y, k0, j) == cell);
                assert(sprite_hits(memory, i, x, y, n, k0, cell));
                if sprite_hits(memory, i, x, y, n, k1, cell) {
                    let (k2, j2) = choose|k2: u8, j2: u8|
                        k1 <= k2 < n && j2 < 8 && sprite_pixel(memory[i + k2], j2)
                            && #[trigger] sprite_cell(x, y, k2, j2) == cell;
                    lemma_sprite_cells_distinct(x, y, k2, j2, k0, j);
                    assert(false);
                }
                assert(r.0[cell] == row.0[cell]);
                assert(row.0[cell] == !buffer[cell]);
            } else {
                assert(row.0[cell] == buffer[cell]);
                if sprite_hits(memory, i, x, y, n, k0, cell) {
                    let (k2, j2) = choose|k2: u8, j2: u8|
                        k0 <= k2 < n && j2 < 8 && sprite_pixel(memory[i + k2], j2)
                            && #[trigger] sprite_cell(x, y, k2, j2) == cell;
                    if k2 == k0 {
                        assert(row_cell(x, y + k0, j2) == cell);
                        assert(sprite_pixel(rowbyte, j2));
                        assert(row_hits(x, y + k0, rowbyte, 0, cell));
                        assert(false);
                    }
                    assert(sprite_hits(memory, i, x, y, n, k1, cell));
                    assert(r.0[cell] == !row.0[cell]);
                } else {
                    if sprite_hits(memory, i, x, y, n, k1, cell) {
                        let (k2, j2) = choose|k2: u8, j2: u8|
                            k1 <= k2 < n && j2 < 8 && sprite_pixel(memory[i + k2], j2)
                                && #[trigger] sprite_cell(x, y, k2, j2) == cell;
                        assert(sprite_hits(memory, i, x, y, n, k0, cell));
                        assert(false);
                    }
                    assert(r.0[cell] == row.0[cell]);
                }
            }
        }
        // a later row reads the same cells in the original and in the buffer
        // with row k0 painted
        assert forall|k: u8, j: u8|
            k1 <= k < n && j < 8 implies row.0[#[trigger] sprite_cell(x, y, k, j)] == buffer[
                sprite_cell(x, y, k, j)
            ] by {
            let cell = sprite_cell(x, y, k, j);
            assert(0 <= cell < SCREEN_SIZE);
            if row_hits(x, y + k0, rowbyte, 0, cell) {
                let j2 = choose|j2: u8|
                    0 <= j2 < 8 && sprite_pixel(rowbyte, j2) && #[trigger] row_cell(x, y + k0, j2)
                        == cell;
                assert(sprite_cell(x, y, k0, j2) == cell);
                lemma_sprite_cells_distinct(x, y, k, j, k0, j2);
                assert(false);
            }
        }
        if sprite_collides(row.0, memory, i, x, y, n, k1) {
            let (k, j) = choose|k: u8, j: u8|
                k1 <= k < n && j < 8 && sprite_pixel(memory[i + k], j) && row.0[
                    #[trigger] sprite_cell(x, y, k, j)
                ];
            assert(buffer[sprite_cell(x, y, k, j)]);
            assert(sprite_collides(buffer, memory, i, x, y, n, k0));
        }
        if row.1 {
            let j = choose|j: u8|
                0 <= j < 8 && sprite_pixel(rowbyte, j) && buffer[#[trigger] row_cell(
                    x,
                    y + k0,
                    j,
                )];
            assert(buffer[sprite_cell(x, y, k0, j)]);
            assert(sprite_collides(buffer, memory, i, x, y, n, k0));
        }
        if sprite_collides(buffer, memory, i, x, y, n, k0) {
            let (k, j) = choose|k: u8, j: u8|
                k0 <= k < n && j < 8 && sprite_pixel(memory[i + k], j) && buffer[
                    #[trigger] sprite_cell(x, y, k, j)
                ];
            if k == k0 {
                assert(buffer[row_cell(x, y + k0, j)]);
                assert(row_collides(buffer, x, y + k0, rowbyte, 0));
                assert(row.1);
            } else {
                assert(row.0[sprite_cell(x, y, k, j)] == buffer[sprite_cell(x, y, k, j)]);
                assert(sprite_collides(row.0, memory, i, x, y, n, k1));
            }
        }
        assert(r.1 == sprite_collides(buffer, memory, i, x, y, n, k0));
    }
}

/// Drawing the identical sprite twice at the same coordinates restores the
/// framebuffer exactly; and when the first draw reported no collision, the
/// second reports one exactly when the first draw changed the screen at all.
pub proof fn lemma_draw_twice(
    buffer: Seq<Pixel>,
    memory: Seq<Byte>,
    i: Address,
    x: int,
    y: int,
    n: Byte,
)
    requires
        buffer.len() == SCREEN_SIZE,
        memory.len() == RAM_SIZE,
        0 <= x,
        0 <= y,
        n < 16,
        i + n <= RAM_SIZE,
    ensures
        ({
            let first = draw_sprite_from(buffer, memory, i, x, y, n, 0);
            let second = draw_sprite_from(first.0, memory, i, x, y, n, 0);
            &&& first.2 is None
            &&& second.2 is None
            &&& second.0 == buffer
            &&& !first.1 ==> second.1 == (first.0 != buffer)
        }),
{
    lemma_draw_sprite_characterize(buffer, memory, i, x, y, n, 0);
    let first = draw_sprite_from(buffer, memory, i, x, y, n, 0);
    lemma_draw_sprite_characterize(first.0, memory, i, x, y, n, 0);
    let second = draw_sprite_from(first.0, memory, i, x, y, n, 0);
    assert forall|cell: int| 0 <= cell < SCREEN_SIZE implies second.0[cell] == buffer[cell] by {
        if sprite_hits(memory, i, x, y, n, 0, cell) {
            assert(first.0[cell] == !buffer[cell]);
            assert(second.0[cell] == !first.0[cell]);
        } else {
            assert(first.0[cell] == buffer[cell]);
            assert(second.0[cell] == first.0[cell]);
        }
    }
    assert(second.0 =~= buffer);
    if !first.1 {
        if first.0 != buffer {
            if forall|cell: int| 0 <= cell < SCREEN_SIZE ==> first.0[cell] == buffer[cell] {
                assert(first.0 =~= buffer);
                assert(false);
            }
            let cell = choose|cell: int|
                0 <= cell < SCREEN_SIZE && first.0[cell] != buffer[cell];
            assert(sprite_hits(memory, i, x, y, n, 0, cell));
            let (k, j) = choose|k: u8, j: u8|
                0 <= k < n && j < 8 && sprite_pixel(memory[i + k], j) && #[trigger] sprite_cell(
                    x,
                    y,
                    k,
                    j,
                ) == cell;
            assert(!buffer[cell]);
            assert(first.0[sprite_cell(x, y, k, j)]);
            assert(sprite_collides(first.0, memory, i, x, y, n, 0));
            assert(second.1);
        }
        if second.1 {
            let (k, j) = choose|k: u8, j: u8|
                0 <= k < n && j < 8 && sprite_pixel(memory[i + k], j) && first.0[
                    #[trigger] sprite_cell(x, y, k, j)
                ];
            let cell = sprite_cell(x, y, k, j);
            assert(0 <= cell < SCREEN_SIZE);
            assert(sprite_hits(memory, i, x, y, n, 0, cell));
            assert(first.0[cell] == !buffer[cell]);
            assert(first.0 != buffer);
        }
        assert(second.1 == (first.0 != buffer));
    }
}

/// Executing the identical sprite draw twice restores the framebuffer: the
/// first draw toggles its pixels on, the second toggles the same pixels off.
/// When the first draw reports no collision, the second reports one exactly
/// when the first changed the screen at all. The coordinate registers must
/// not be the flag register, which the first draw overwrites.
pub proof fn lemma_draw_instruction_twice(pre: CoreState, x: u8, y: u8, n: Byte)
    requires
        pre.wf(),
        x < 15,
        y < 15,
        n < 16,
        pre.i + n <= RAM_SIZE,
    ensures
        ({
            let drw = Instruction::DRW { x, y, n };
            let first = step(pre, drw, 0);
            let second = step(first.0, drw, 0);
            &&& first.1 is None
            &&& second.1 is None
            &&& second.0.buffer == pre.buffer
            &&& first.0.v[15].0 == 0 ==> ((second.0.v[15].0 == 1) <==> first.0.buffer
                != pre.buffer)
        }),
{
    let drw = Instruction::DRW { x, y, n };
    let xv = pre.v[x as int].0 as int;
    let yv = pre.v[y as int].0 as int;
    lemma_draw_twice(pre.buffer, pre.memory, pre.i, xv, yv, n);
    lemma_draw_sprite_characterize(pre.buffer, pre.memory, pre.i, xv, yv, n, 0);
    let first = step(pre, drw, 0);
    // the first draw only writes the flag register and the framebuffer, so
    // the second draw reads the same coordinates, sprite and rows
    assert(first.0.v[x as int] == pre.v[x as int]);
    assert(first.0.v[y as int] == pre.v[y as int]);
    let drawn = draw_sprite_from(pre.buffer, pre.memory, pre.i, xv, yv, n, 0);
    lemma_draw_sprite_characterize(drawn.0, pre.memory, pre.i, xv, yv, n, 0);
    let second = step(first.0, drw, 0);
    assert(second.0.buffer == pre.buffer);
}

/// Relies on rand::random: a value drawn from the thread-local generator;
/// nothing is promised of the result.
pub assume_specification<T>[ rand::random::<T> ]() -> (r: T)
    where
        rand::distributions::Standard: rand::distributions::Distribution<T>,
;

/// The result of an execution reports exactly the failure of the step it
/// performed, if any.
pub open spec fn reports(result: Result<(), Exception>, fault: Option<Exception>) -> bool {
    match fault {
        Option::None => result == Ok::<(), Exception>(()),
        Option::Some(f) => result == Err::<(), Exception>(f),
    }
}

/// The opcode assembled big-endian from the two bytes at the address, or the
/// first read failure.
pub open spec fn opcode_spec(memory: Seq<Byte>, address: Address) -> Result<OpCode, Exception> {
    if address >= RAM_SIZE {
        Err(Exception::SegmentationFault(address))
    } else if address + 1 >= RAM_SIZE {
        Err(Exception::SegmentationFault((address + 1) as Address))
    } else {
        Ok((memory[address as int] * 256 + memory[address as int + 1]) as OpCode)
    }
}

/// The machine after one full cycle from the given state: fetch the opcode at
/// the counter, advance the counter past it, decode, execute. A fetch failure
/// leaves the machine untouched; a decode fault is reported with the counter
/// already advanced past the faulting opcode.
pub open spec fn tick_spec(pre: CoreState, rnd: Byte) -> (CoreState, Option<Exception>) {
    match opcode_spec(pre.memory, pre.pc) {
        Result::Err(fault) => (pre, Some(fault)),
        Result::Ok(opcode) => {
            let advanced = CoreState { pc: (pre.pc + 2) as Address, ..pre };
            match crate::instruction::decode(opcode) {
                Result::Err(fault) => (advanced, Some(fault)),
                Result::Ok(instruction) => step(advanced, instruction, rnd),
            }
        },
    }
}

/// Whether the cycle from this state reaches the random-number instruction.
pub open spec fn tick_draws_random(pre: CoreState) -> bool {
    match opcode_spec(pre.memory, pre.pc) {
        Result::Ok(opcode) => match crate::instruction::decode(opcode) {
            Result::Ok(instruction) => instruction is RND,
            Result::Err(_) => false,
        },
        Result::Err(_) => false,
    }
}

impl OitoCore {
    /// The call stack discipline the execution core maintains.
    pub open spec fn wf(&self) -> bool {
        self.stack.wf()
    }

    /// Returns a new instance of the emulator core, with the built-in font
    /// preloaded at the bottom of the memory.
    pub fn new() -> (oito: Self)
        ensures
            oito.wf(),
            pristine(oito@),
            forall|k: int|
                0 <= k < fontset::FONTSET@.len() ==> oito@.memory[k] == fontset::FONTSET@[k],
            forall|k: int|
                fontset::FONTSET@.len() <= k < RAM_SIZE ==> oito@.memory[k] == 0,
    {
        let mut oito = Self::default();
        oito.ram.load(0, fontset::FONTSET.as_slice());
        oito
    }

    /// Loads the ROM content into the emulator to run it. The program bytes
    /// are copied to the fixed origin; the caller keeps them within memory.
    pub fn load(&mut self, data: Rom)
        requires
            old(self).wf(),
            Cpu::STARTING_ADDRESS + data@.len() <= RAM_SIZE,
        ensures
            final(self).wf(),
            forall|k: int|
                0 <= k < data@.len()
                    ==> final(self)@.memory[Cpu::STARTING_ADDRESS + k] == data@[k],
            forall|k: int|
                0 <= k < RAM_SIZE && !(Cpu::STARTING_ADDRESS <= k < Cpu::STARTING_ADDRESS
                    + data@.len()) ==> final(self)@.memory[k] == old(self)@.memory[k],
            final(self)@ == (CoreState { memory: final(self)@.memory, ..old(self)@ }),
    {
        self.ram.load(Cpu::STARTING_ADDRESS, data);
    }

    /// Performs a frame-tied tick: both timers go down by one, saturating at
    /// zero, and nothing else changes.
    pub fn frame_tick(&mut self)
        requires
            old(self).wf(),
        ensures
            final(self).wf(),
            final(self)@ == (CoreState {
                dt: if old(self)@.dt > 0 { (old(self)@.dt - 1) as Byte } else { 0u8 },
                st: if old(self)@.st > 0 { (old(self)@.st - 1) as Byte } else { 0u8 },
                ..old(self)@
            }),
    {
        self.dt.decrease();
        self.st.decrease();
    }

    /// Returns the boolean buffer of the next frame to draw: a lit pixel
    /// reads as true.
    pub fn frame_buffer(&self) -> (buffer: &[Pixel])
        ensures
            buffer@ == self@.buffer,
    {
        self.vram.buffer()
    }

    /// Emulates the pressing of the desired key
    pub fn key_press(&mut self, key: Key)
        requires
            old(self).wf(),
        ensures
            final(self).wf(),
            final(self)@ == (CoreState {
                keys: old(self)@.keys.update(key.index_spec() as int, true),
                ..old(self)@
            }),
    {
        self.keys.press_key(key);
    }

    /// Emulates the release of the desired key
    pub fn key_release(&mut self, key: Key)
        requires
            old(self).wf(),
        ensures
            final(self).wf(),
            final(self)@ == (CoreState {
                keys: old(self)@.keys.update(key.index_spec() as int, false),
                ..old(self)@
            }),
    {
        self.keys.release_key(key);
    }

    /// Returns whether the sound should be playing: the sound timer gates the
    /// audio while it is above zero.
    pub fn sound(&self) -> (playing: bool)
        ensures
            playing == (self@.st > 0),
    {
        self.st.get() > 0
    }

    /// Discards the whole machine and reconstructs it as `new` does.
    pub fn reset(&mut self)
        ensures
            final(self).wf(),
            pristine(final(self)@),
            forall|k: int|
                0 <= k < fontset::FONTSET@.len()
                    ==> final(self)@.memory[k] == fontset::FONTSET@[k],
            forall|k: int|
                fontset::FONTSET@.len() <= k < RAM_SIZE ==> final(self)@.memory[k] == 0,
    {
        *self = Self::new();
    }

    /// Performs a cycle of the emulator: fetch the opcode at the program
    /// counter, advance the counter past it, decode and execute. Any fetch or
    /// decode failure aborts the cycle and surfaces to the caller; on a
    /// decode fault the counter has already moved past the faulting opcode.
    pub fn tick(&mut self) -> (result: Result<(), Exception>)
        requires
            old(self).wf(),
        ensures
            final(self).wf(),
            !tick_draws_random(old(self)@) ==> final(self)@ == tick_spec(old(self)@, 0).0
                && reports(result, tick_spec(old(self)@, 0).1),
            tick_draws_random(old(self)@) ==> result == Ok::<(), Exception>(()) && (exists|
                rnd: Byte,
            |
                final(self)@ == #[trigger] tick_spec(old(self)@, rnd).0),
    {
        let opcode = self.fetch(self.cpu.pc())?;  // fetch
        self.cpu.increase();  // advance
        let ghost advanced = self@;
        let instruction = match Instruction::try_from(opcode) {
            Ok(decoded) => decoded,
            Err(fault) => {
                return Err(fault);
            },
        };
        proof {
            crate::instruction::lemma_decode_total(opcode);
        }
        let result = self.execute(instruction);  // execute
        proof {
            if instruction is RND {
                let rnd = choose|rnd: Byte|
                    self@ == #[trigger] step(advanced, instruction, rnd).0;
                assert(self@ == tick_spec(old(self)@, rnd).0);
            }
        }
        result
    }

    /// Executes the provided instruction: one machine step over the whole
    /// state, exactly as `step` describes it. A failing instruction reports
    /// its fault and keeps whatever part of its work already completed.
    #[verifier::loop_isolation(false)]
    pub fn execute(&mut self, instruction: Instruction) -> (result: Result<(), Exception>)
        requires
            old(self).wf(),
            execute_enabled(old(self)@, instruction),
        ensures
            final(self).wf(),
            !(instruction is RND) ==> final(self)@ == step(old(self)@, instruction, 0).0
                && reports(result, step(old(self)@, instruction, 0).1),
            instruction is RND ==> result == Ok::<(), Exception>(()) && (exists|rnd: Byte|
                final(self)@ == #[trigger] step(old(self)@, instruction, rnd).0),
    {
        match instruction {
            Instruction::CLS => {
                self.vram.clear();
                proof {
                    assert(self@.buffer =~= Seq::new(SCREEN_SIZE as nat, |c: int| false));
                }
            },
            Instruction::RET => {
                let address = self.stack.pop()?;
                self.cpu.point_at(address);
            },
            Instruction::SYS(address) => {
                self.cpu.point_at(address);
            },
            Instruction::JP(address) => {
                self.cpu.point_at(address);
            },
            Instruction::CALL(address) => {
                self.stack.push(self.cpu.pc())?;
                self.cpu.point_at(address);
            },
            Instruction::SErb { x, byte } => {
                if self.cpu.v(x).get() == byte {
                    self.cpu.increase();
                }
            },
            Instruction::SNErb { x, byte } => {
                if self.cpu.v(x).get() != byte {
                    self.cpu.increase();
                }
            },
            Instruction::SErr { x, y } => {
                if self.cpu.v(x).get() == self.cpu.v(y).get() {
                    self.cpu.increase();
                }
            },
            Instruction::LDbr { x, byte } => self.cpu.load_to_v(x, byte),
            Instruction::ADDbr { x, byte } => self.cpu.arith_op(ArithOp::Add(x, byte)),
            Instruction::LDrr { x, y } => {
                let value = self.cpu.v(y).get();
                self.cpu.load_to_v(x, value);
            },
            Instruction::OR { x, y } => self.cpu.bit_op(BitOp::Or(x, y)),
            Instruction::AND { x, y } => self.cpu.bit_op(BitOp::And(x, y)),
            Instruction::XOR { x, y } => self.cpu.bit_op(BitOp::Xor(x, y)),
            Instruction::ADDrr { x, y } => self.cpu.arith_op(ArithOp::CheckedAdd(x, y)),
            Instruction::SUB { x, y } => self.cpu.arith_op(ArithOp::Sub(x, y)),
            Instruction::SHR(x) => self.cpu.bit_op(BitOp::ShiftRight(x)),
            Instruction::SUBN { x, y } => self.cpu.arith_op(ArithOp::SubN(x, y)),
            Instruction::SHL(x) => self.cpu.bit_op(BitOp::ShiftLeft(x)),
            Instruction::SNErr { x, y } => {
                if self.cpu.v(x).get() != self.cpu.v(y).get() {
                    self.cpu.increase();
                }
            },
            Instruction::LDi(address) => self.cpu.set_i(address),
            Instruction::JPr(address) => {
                let base = self.cpu.v(0).get() as Address;
                self.cpu.point_at(base + address);
            },
            Instruction::RND { x, byte } => {
                let drawn: Byte = rand::random();
                self.cpu.load_to_v(x, byte & drawn);
                proof {
                    assert(self@ == step(old(self)@, instruction, drawn).0);
                }
            },
            Instruction::DRW { x, y, n } => {
                let x_val = self.cpu.v(x).get();
                let y_val = self.cpu.v(y).get();
                let swapped = self.draw_sprite(x_val, y_val, n)?;
                self.cpu.set_flag(if swapped { 1 } else { 0 });
            },
            Instruction::SKP(x) => {
                if self.keys.pressed(self.cpu.v(x).get() % 16) {
                    self.cpu.increase();
                }
            },
            Instruction::SKNP(x) => {
                if !self.keys.pressed(self.cpu.v(x).get() % 16) {
                    self.cpu.increase();
                }
            },
            Instruction::LDdr(x) => {
                let count = self.dt.get();
                self.cpu.load_to_v(x, count);
            },
            Instruction::LDkr(x) => {
                match self.keys.get_key_pressed() {
                    Some(key) => self.cpu.load_to_v(x, key as Byte),
                    // rewind so that the same instruction re-executes next tick
                    None => self.cpu.decrease(),
                }
            },
            Instruction::LDrd(x) => {
                let value = self.cpu.v(x).get();
                self.dt.set(value);
            },
            Instruction::LDrs(x) => {
                let value = self.cpu.v(x).get();
                self.st.set(value);
            },
            Instruction::ADDri(x) => {
                let sum: u32 = self.cpu.i() as u32 + self.cpu.v(x).get() as u32;
                self.cpu.set_i((sum % 0x10000) as Address);
            },
            Instruction::LDmi(x) => {
                let character = self.cpu.v(x).get();
                let sprite_address = fontset::location(character);
                self.cpu.set_i(sprite_address);
            },
            Instruction::LDrm(x) => {
                let binary = self.cpu.v(x).get();
                let hundreds = binary / 100;
                let tens = (binary % 100) / 10;
                let units = binary % 10;
                self.ram.write(self.cpu.i(), hundreds)?;
                self.ram.write(self.cpu.i() + 1, tens)?;
                self.ram.write(self.cpu.i() + 2, units)?;
            },
            Instruction::LDvm(x) => {
                let start = self.cpu.i();
                let mut k: Byte = 0;
                while k <= x
                    invariant
                        self.wf(),
                        k <= x + 1,
                        k > 0 ==> start + k <= RAM_SIZE,
                        self@ == (CoreState { memory: self@.memory, ..old(self)@ }),
                        store_regs_from(old(self)@.memory, old(self)@.v, start, x, 0)
                            == store_regs_from(self@.memory, old(self)@.v, start, x, k as int),
                    decreases x + 1 - k,
                {
                    let address = start + k as Address;
                    let content = self.cpu.v(k).get();
                    match self.ram.write(address, content) {
                        Ok(_) => {},
                        Err(fault) => {
                            return Err(fault);
                        },
                    }
                    k = k + 1;
                }
            },
            Instruction::LDmv(x) => {
                let start = self.cpu.i();
                let mut k: Byte = 0;
                while k <= x
                    invariant
                        self.wf(),
                        k <= x + 1,
                        k > 0 ==> start + k <= RAM_SIZE,
                        self@ == (CoreState { v: self@.v, ..old(self)@ }),
                        load_regs_from(old(self)@.v, old(self)@.memory, start, x, 0)
                            == load_regs_from(self@.v, old(self)@.memory, start, x, k as int),
                    decreases x + 1 - k,
                {
                    let address = start + k as Address;
                    let content = match self.ram.read(address) {
                        Ok(byte) => byte,
                        Err(fault) => {
                            return Err(fault);
                        },
                    };
                    self.cpu.load_to_v(k, content);
                    k = k + 1;
                }
            },
        }
        Ok(())
    }

    /// Draws the `n`-row sprite read from memory at the I-Register onto the
    /// screen at the given coordinates, and reports whether any lit pixel was
    /// toggled off. A failed row read stops the draw, keeping the rows
    /// already painted.
    #[verifier::loop_isolation(false)]
    fn draw_sprite(&mut self, x_val: Byte, y_val: Byte, n: Byte) -> (result: Result<
        bool,
        Exception,
    >)
        requires
            old(self).wf(),
        ensures
            final(self).wf(),
            ({
                let drawn = draw_sprite_from(
                    old(self)@.buffer,
                    old(self)@.memory,
                    old(self)@.i,
                    x_val as int,
                    y_val as int,
                    n,
                    0,
                );
                &&& final(self)@ == (CoreState { buffer: drawn.0, ..old(self)@ })
                &&& match result {
                    Ok(collision) => drawn.2 is None && collision == drawn.1,
                    Err(fault) => drawn.2 == Some(fault),
                }
            }),
    {
        let ghost pre = old(self)@;
        let ghost full = draw_sprite_from(
            pre.buffer,
            pre.memory,
            pre.i,
            x_val as int,
            y_val as int,
            n,
            0,
        );
        let mut swapped = false;
        let mut k: Byte = 0;
        while k < n
            invariant
                self.wf(),
                k <= n,
                k > 0 ==> pre.i + k <= RAM_SIZE,
                self@ == (CoreState { buffer: self@.buffer, ..pre }),
                full == ({
                    let rest = draw_sprite_from(
                        self@.buffer,
                        pre.memory,
                        pre.i,
                        x_val as int,
                        y_val as int,
                        n,
                        k,
                    );
                    (rest.0, swapped || rest.1, rest.2)
                }),
            decreases n - k,
        {
            let address = self.cpu.i() + k as Address;
            let pixels = match self.ram.read(address) {
                Ok(row) => row,
                Err(fault) => {
                    proof {
                        assert(address == pre.i + k);
                        assert(draw_sprite_from(
                            self@.buffer,
                            pre.memory,
                            pre.i,
                            x_val as int,
                            y_val as int,
                            n,
                            k,
                        ) == (self@.buffer, false, Some(Exception::SegmentationFault(address))));
                    }
                    return Err(fault);
                },
            };
            let ghost row_buf = self@.buffer;
            let ghost row_full = draw_row_from(
                row_buf,
                x_val as int,
                y_val as int + k,
                pixels,
                0,
            );
            let ghost swapped_before_row = swapped;
            let mut j: Byte = 0;
            while j < 8
                invariant
                    self.wf(),
                    j <= 8,
                    k < n,
                    pre.i + k < RAM_SIZE,
                    pixels == pre.memory[pre.i + k],
                    row_full == draw_row_from(row_buf, x_val as int, y_val as int + k, pixels, 0),
                    full == ({
                        let rest = draw_sprite_from(
                            row_buf,
                            pre.memory,
                            pre.i,
                            x_val as int,
                            y_val as int,
                            n,
                            k,
                        );
                        (rest.0, swapped_before_row || rest.1, rest.2)
                    }),
                    self@ == (CoreState { buffer: self@.buffer, ..pre }),
                    ({
                        let rest = draw_row_from(
                            self@.buffer,
                            x_val as int,
                            y_val as int + k,
                            pixels,
                            j,
                        );
                        row_full.0 == rest.0 && (swapped_before_row || row_full.1) == (swapped
                            || rest.1)
                    }),
                decreases 8 - j,
            {
                if (pixels & (Byte::MOST_SIGNIFICANT_BIT >> j)) != 0 {
                    let px = x_val as usize + j as usize;
                    let py = y_val as usize + k as usize;
                    let hit = self.vram.get(px, py);
                    swapped = swapped || hit;
                    self.vram.paint(px, py);
                }
                j = j + 1;
            }
            k = k + 1;
        }
        Ok(swapped)
    }

    /// Reads from memory the opcode at the given address, most significant
    /// byte first, without touching any state.
    pub fn fetch(&mut self, address: Address) -> (result: Result<OpCode, Exception>)
        ensures
            *final(self) == *old(self),
            result == opcode_spec(old(self)@.memory, address),
    {
        let big_byte = self.ram.read(address)? as u16;
        let small_byte = self.ram.read(address + 1)? as u16;
        Ok(big_byte * 256 + small_byte)
    }
}

impl Default for OitoCore {
    /// Generates a completely empty emulator. All the contained data will be
    /// empty. To create an emulator with the preloaded data use [OitoCore::new]
    fn default() -> (oito: Self)
        ensures
            oito.wf(),
            pristine(oito@),
            forall|k: int| 0 <= k < RAM_SIZE ==> oito@.memory[k] == 0,
    {
        OitoCore {
            cpu: Default::default(),
            ram: Default::default(),
            stack: Default::default(),
            vram: Default::default(),
            dt: Default::default(),
            st: Default::default(),
            keys: Default::default(),
        }
    }
}

} // verus!
