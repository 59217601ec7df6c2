use oito::cpu::Cpu;
use oito::engine::OitoCore;
use oito::key::Key;
use oito::Address;

#[test]
fn new() {
    let oito = OitoCore::new();

    assert_eq!(0xF0, oito.ram.read(0x0).unwrap());
}

#[test]
fn core_load() {
    let mut oito = OitoCore::new();
    let data = [0x30, 0x25, 0x31, 0x27, 0x0E, 0x00];

    oito.load(&data);
    for i in 0..data.len() {
        assert_eq!(
            oito.ram.read(Cpu::STARTING_ADDRESS + i as Address).unwrap(),
            data[i]
        );
    }
}

#[test]
fn tick() {
    let mut oito = OitoCore::default();
    // Next instruction - 6xkk => LD kk into Vx
    oito.ram.set(Cpu::STARTING_ADDRESS, 0x63);
    oito.ram.set(Cpu::STARTING_ADDRESS + 1, 0xA2);

    oito.tick().unwrap();
    assert_eq!(Cpu::STARTING_ADDRESS + 2, oito.cpu.pc());
    assert_eq!(*oito.cpu.v(3), 0xA2);
}

#[test]
fn frame_tick() {
    let mut oito = OitoCore::default();
    oito.dt.set(5);
    oito.st.set(4);

    oito.frame_tick();
    assert_eq!(4, oito.dt.get());
    assert_eq!(3, oito.st.get());
}

#[test]
fn frame_buffer() {
    let mut oito = OitoCore::default();
    oito.vram.paint(1, 1);

    let buffer = oito.frame_buffer();
    assert!(!buffer[0]);
    assert!(buffer[65]);
}

#[test]
fn core_press_key() {
    let mut oito = OitoCore::default();

    oito.key_press(Key::Five);
    assert_eq!(oito.keys.get_key_pressed().unwrap(), 5);
}

#[test]
fn core_release_key() {
    let mut oito = OitoCore::default();
    oito.key_press(Key::Five);
    assert_eq!(oito.keys.get_key_pressed().unwrap(), 5);

    oito.key_release(Key::Five);
    assert!(oito.keys.get_key_pressed().is_none());
}

#[test]
fn fetch() {
    let mut oito = OitoCore::default();
    oito.ram.set(0, 0x5);
    oito.ram.set(1, 0x1);
    oito.ram.set(2, 0xC);

    let opcode = oito.fetch(1);
    assert_eq!(0x010C, opcode.unwrap());
}

#[test]
fn sound() {
    let mut oito = OitoCore::default();
    assert!(!oito.sound());

    oito.st.set(3);
    assert!(oito.sound());
}

#[test]
fn reset() {
    let mut oito = OitoCore::new();
    oito.load(&[0x63, 0xA2]);
    oito.tick().unwrap();
    oito.key_press(Key::Nine);

    oito.reset();
    assert_eq!(Cpu::STARTING_ADDRESS, oito.cpu.pc());
    assert_eq!(*oito.cpu.v(3), 0);
    assert_eq!(0, oito.ram.read(Cpu::STARTING_ADDRESS).unwrap());
    assert_eq!(0xF0, oito.ram.read(0).unwrap());
    assert!(oito.keys.get_key_pressed().is_none());
}
