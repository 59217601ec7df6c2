use oito::engine::OitoCore;
use oito::exception::Exception;
use oito::instruction::Instruction;

#[test]
fn try_from() {
    assert_eq!(Instruction::CLS, Instruction::try_from(0x00E0).unwrap());
    assert_eq!(Instruction::RET, Instruction::try_from(0x00EE).unwrap());
    assert_eq!(
        Instruction::SYS(0xC0A),
        Instruction::try_from(0x0C0A).unwrap()
    );
    assert_eq!(
        Instruction::JP(0xF23),
        Instruction::try_from(0x1F23).unwrap()
    );
    assert_eq!(
        Instruction::CALL(0x232),
        Instruction::try_from(0x2232).unwrap()
    );
    assert_eq!(
        Instruction::SErb { x: 0, byte: 0x12 },
        Instruction::try_from(0x3012).unwrap()
    );
    assert_eq!(
        Instruction::SNErb { x: 1, byte: 0x34 },
        Instruction::try_from(0x4134).unwrap()
    );
    assert_eq!(
        Instruction::SErr { x: 2, y: 3 },
        Instruction::try_from(0x5230).unwrap()
    );
    assert_eq!(
        Instruction::LDbr { x: 4, byte: 0x56 },
        Instruction::try_from(0x6456).unwrap()
    );
    assert_eq!(
        Instruction::ADDbr { x: 5, byte: 0x67 },
        Instruction::try_from(0x7567).unwrap()
    );
    assert_eq!(
        Instruction::LDrr { x: 6, y: 7 },
        Instruction::try_from(0x8670).unwrap()
    );
    assert_eq!(
        Instruction::OR { x: 8, y: 9 },
        Instruction::try_from(0x8891).unwrap()
    );
    assert_eq!(
        Instruction::AND { x: 10, y: 11 },
        Instruction::try_from(0x8AB2).unwrap()
    );
    assert_eq!(
        Instruction::XOR { x: 12, y: 13 },
        Instruction::try_from(0x8CD3).unwrap()
    );
    assert_eq!(
        Instruction::ADDrr { x: 14, y: 15 },
        Instruction::try_from(0x8EF4).unwrap()
    );
    assert_eq!(
        Instruction::SUB { x: 0, y: 2 },
        Instruction::try_from(0x8025).unwrap()
    );
    assert_eq!(Instruction::SHR(1), Instruction::try_from(0x8126).unwrap());
    assert_eq!(
        Instruction::SUBN { x: 4, y: 6 },
        Instruction::try_from(0x8467).unwrap()
    );
    assert_eq!(Instruction::SHL(3), Instruction::try_from(0x835E).unwrap());
    assert_eq!(
        Instruction::SNErr { x: 8, y: 10 },
        Instruction::try_from(0x98A0).unwrap()
    );
    assert_eq!(
        Instruction::LDi(0x579),
        Instruction::try_from(0xA579).unwrap()
    );
    assert_eq!(
        Instruction::JPr(0xCE0),
        Instruction::try_from(0xBCE0).unwrap()
    );
    assert_eq!(
        Instruction::RND { x: 11, byte: 0xDF },
        Instruction::try_from(0xCBDF).unwrap()
    );
    assert_eq!(
        Instruction::DRW { x: 0, y: 3, n: 0x6 },
        Instruction::try_from(0xD036).unwrap()
    );
    assert_eq!(Instruction::SKP(1), Instruction::try_from(0xE19E).unwrap());
    assert_eq!(Instruction::SKNP(2), Instruction::try_from(0xE2A1).unwrap());
    assert_eq!(Instruction::LDdr(6), Instruction::try_from(0xF607).unwrap());
    assert_eq!(Instruction::LDkr(4), Instruction::try_from(0xF40A).unwrap());
    assert_eq!(Instruction::LDrd(5), Instruction::try_from(0xF515).unwrap());
    assert_eq!(Instruction::LDrs(7), Instruction::try_from(0xF718).unwrap());
    assert_eq!(
        Instruction::ADDri(2),
        Instruction::try_from(0xF21E).unwrap()
    );
    assert_eq!(Instruction::LDmi(8), Instruction::try_from(0xF829).unwrap());
    assert_eq!(Instruction::LDrm(9), Instruction::try_from(0xF933).unwrap());
    assert_eq!(Instruction::LDvm(1), Instruction::try_from(0xF155).unwrap());
    assert_eq!(Instruction::LDmv(3), Instruction::try_from(0xF365).unwrap());
    assert_eq!(
        Exception::WrongOpCode(0xFFFF),
        Instruction::try_from(0xFFFF).unwrap_err()
    );
}

#[test]
fn split() {
    assert_eq!((0x2, 0xA, 0x9, 0x0), oito::instruction::split(0x2A90))
}

#[test]
fn decode_is_total() {
    // every 16-bit value either decodes or faults with that exact value
    let mut decoded: u32 = 0;
    let mut faulted: u32 = 0;
    for opcode in 0..=0xFFFFu16 {
        match Instruction::try_from(opcode) {
            Ok(_) => decoded += 1,
            Err(fault) => {
                assert_eq!(Exception::WrongOpCode(opcode), fault);
                faulted += 1;
            }
        }
    }
    assert_eq!(0x10000, decoded + faulted);
    // whole leading-field families always decode
    assert!(decoded >= 10 * 0x1000);
}

#[test]
fn memory_reads_back_loaded_bytes() {
    let mut oito = OitoCore::new();
    let data = [0xDE, 0xAD, 0xBE, 0xEF];
    oito.load(&data);

    // any loaded address returns the exact loaded byte
    for i in 0..4u16 {
        assert_eq!(data[i as usize], oito.ram.read(0x200 + i).unwrap());
    }
    // unloaded addresses read as zero
    assert_eq!(0, oito.ram.read(0x200 + 4).unwrap());
    assert_eq!(0, oito.ram.read(0xFFF).unwrap());
    // any address at or beyond the size fails with that address
    assert_eq!(
        Exception::SegmentationFault(4096),
        oito.ram.read(4096).unwrap_err()
    );
    assert_eq!(
        Exception::SegmentationFault(0xFFFF),
        oito.ram.read(0xFFFF).unwrap_err()
    );
}
