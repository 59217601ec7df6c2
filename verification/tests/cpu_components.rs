use oito::cpu::alu;
use oito::cpu::register::{IRegister, Register, VRegister};
use oito::cpu::Cpu;
use oito::engine::operations::{ArithOp, BitOp};
use oito::Byte;

const FLAG_CARRY: u8 = 1;
const NO_FLAG: u8 = 0;

#[test]
fn increase() {
    let mut cpu = Cpu::default();

    for i in 1..4 {
        cpu.increase();
        assert_eq!(i * 2 + Cpu::STARTING_ADDRESS, cpu.pc);
    }
}

#[test]
fn cpu_decrease() {
    let mut cpu = Cpu::default();

    for i in 1..4 {
        cpu.decrease();
        assert_eq!(Cpu::STARTING_ADDRESS - i * 2, cpu.pc);
    }
}

#[test]
fn point_at() {
    let mut cpu = Cpu::default();

    cpu.point_at(0x100);
    assert_eq!(0x100, cpu.pc);
}

#[test]
fn v() {
    let mut cpu = Cpu::default();
    cpu.vreg[0].load(10);

    assert_eq!(cpu.v(0).get(), 10);
}

#[test]
fn set_flag() {
    let mut cpu = Cpu::default();

    cpu.set_flag(FLAG_CARRY);
    assert_eq!(cpu.vf(), FLAG_CARRY);

    cpu.set_flag(NO_FLAG);
    assert_eq!(cpu.vf(), NO_FLAG);
}

#[test]
fn set_i() {
    let mut cpu = Cpu::default();

    cpu.set_i(0xABCD);
    assert_eq!(cpu.ireg, 0xABCD);
}

#[test]
fn load_to_v() {
    let mut cpu = Cpu::default();

    cpu.load_to_v(0, 100);
    assert_eq!(cpu.v(0).get(), 100);
}

#[test]
fn cpu_add() {
    let mut cpu = Cpu::default();

    cpu.arith_op(ArithOp::Add(0, Byte::MAX));
    assert_eq!(*cpu.v(0), Byte::MAX);
    assert_eq!(cpu.vf(), NO_FLAG);

    cpu.arith_op(ArithOp::Add(0, 1));
    assert_eq!(*cpu.v(0), 0);
    assert_eq!(cpu.vf(), NO_FLAG);
}

#[test]
fn checked_add() {
    let mut cpu = Cpu::default();
    // No overflow
    cpu.load_to_v(1, 12);
    cpu.arith_op(ArithOp::CheckedAdd(0, 1));
    cpu.load_to_v(2, 13);
    cpu.arith_op(ArithOp::CheckedAdd(0, 2));
    assert_eq!(cpu.vreg[0], 12 + 13);
    assert_eq!(cpu.vf(), NO_FLAG);
    // Overflow
    cpu.load_to_v(0, Byte::MAX);
    cpu.load_to_v(1, 11);
    cpu.arith_op(ArithOp::CheckedAdd(0, 1));
    assert_eq!(cpu.vreg[0], 11 - 1);
    assert_eq!(cpu.vf(), FLAG_CARRY);
}

#[test]
fn cpu_sub() {
    let mut cpu = Cpu::default();
    // No underflow
    cpu.load_to_v(0, 12);
    cpu.load_to_v(1, 11);
    cpu.arith_op(ArithOp::Sub(0, 1));
    assert_eq!(cpu.vreg[0], 12 - 11);
    assert_eq!(cpu.vf(), FLAG_CARRY);
    // Underflow
    cpu.load_to_v(0, 1);
    cpu.load_to_v(1, 2);
    cpu.arith_op(ArithOp::Sub(0, 1));
    assert_eq!(cpu.vreg[0], Byte::MAX);
    assert_eq!(cpu.vf(), NO_FLAG);
}

#[test]
fn cpu_subn() {
    let mut cpu = Cpu::default();
    // No underflow: Vy >= Vx raises the flag
    cpu.load_to_v(0, 11);
    cpu.load_to_v(1, 12);
    cpu.arith_op(ArithOp::SubN(0, 1));
    assert_eq!(cpu.vreg[0], 12 - 11);
    assert_eq!(cpu.vf(), FLAG_CARRY);
    // Underflow: Vy < Vx clears the flag
    cpu.load_to_v(0, 2);
    cpu.load_to_v(1, 1);
    cpu.arith_op(ArithOp::SubN(0, 1));
    assert_eq!(cpu.vreg[0], Byte::MAX);
    assert_eq!(cpu.vf(), NO_FLAG);
}

#[test]
fn bit_op() {
    let mut cpu = Cpu::default();
    cpu.load_to_v(0, 0b00000001);
    cpu.load_to_v(1, 0b00000110);
    cpu.load_to_v(2, 0b00001110);
    cpu.load_to_v(3, 0b00000101);
    cpu.load_to_v(4, 0b10101010);
    cpu.load_to_v(5, 0b00001011);

    cpu.bit_op(BitOp::Or(0, 5));
    assert_eq!(*cpu.v(0), 0b00001011);

    cpu.bit_op(BitOp::And(1, 5));
    assert_eq!(*cpu.v(1), 0b00000010);

    cpu.bit_op(BitOp::Xor(2, 5));
    assert_eq!(*cpu.v(2), 0b00000101);

    cpu.bit_op(BitOp::ShiftRight(3));
    assert_eq!(*cpu.v(3), 0b00000010);
    assert_eq!(cpu.vf(), 1);

    cpu.bit_op(BitOp::ShiftLeft(4));
    assert_eq!(*cpu.v(4), 0b01010100);
    assert_eq!(cpu.vf(), 1);
}

#[test]
fn alu_add() {
    assert_eq!((5, 0), alu::add(2, &3));
    assert_eq!((0, 1), alu::add(u8::MAX, &1));
}

#[test]
fn alu_sub() {
    assert_eq!((9, 1), alu::sub(12, &3));
    assert_eq!((u8::MAX, 0), alu::sub(0, &1));
}

#[test]
fn alu_and() {
    assert_eq!(0b0010, alu::and(0b1010, 0b0011));
}

#[test]
fn alu_or() {
    assert_eq!(0b1011, alu::or(0b1010, 0b0011));
}

#[test]
fn alu_xor() {
    assert_eq!(0b1001, alu::xor(0b1010, 0b0011));
}

#[test]
fn alu_shr() {
    assert_eq!((0b0101, 0), alu::shr(0b1010));
    assert_eq!((0b0101, 1), alu::shr(0b1011));
}

#[test]
fn alu_shl() {
    assert_eq!((0b01010100, 1), alu::shl(0b10101010));
    assert_eq!((0b01100110, 0), alu::shl(0b00110011));
}

#[test]
fn register_load() {
    let mut reg = VRegister::default();

    assert_eq!(0x0, reg.0);

    reg.load(0x1);
    assert_eq!(0x1, reg.0);
}

#[test]
fn get() {
    let reg = Register(2.3);

    assert_eq!(2.3, reg.get())
}

#[test]
fn debug() {
    let reg: VRegister = Register(0x12);

    assert_eq!("Register: [0x12]", reg.describe());
}

#[test]
fn eq_byte() {
    let reg = VRegister::default();

    assert!(reg == 0x0);

    assert!(reg != 0x1);
}

#[test]
fn eq_reg() {
    let vx = IRegister::default();
    let mut vy = Register(1u16);

    assert!(&vx != &vy);

    vy.load(0x0);
    assert!(&vx == &vy);
}
