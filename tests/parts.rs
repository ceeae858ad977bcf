use chippy::disasm::{disassemble, listing, mnemonic};
use chippy::debug::DebugLog;
use chippy::display::Display;
use chippy::instruction::{decode, Instruction};

#[test]
fn decode_covers_each_family() {
    assert_eq!(Instruction::Cls, decode(0x00E0));
    assert_eq!(Instruction::Ret, decode(0x00EE));
    assert_eq!(Instruction::Jp { addr: 0x345 }, decode(0x1345));
    assert_eq!(Instruction::Sub { x: 0xA, y: 0xB }, decode(0x8AB5));
    assert_eq!(Instruction::Shl { x: 3 }, decode(0x834E));
    assert_eq!(Instruction::Drw { x: 1, y: 2, n: 0xF }, decode(0xD12F));
    assert_eq!(Instruction::LoadRegs { x: 7 }, decode(0xF765));
    assert_eq!(Instruction::Unknown { opcode: 0x5121 }, decode(0x5121));
    assert_eq!(Instruction::Unknown { opcode: 0x8008 }, decode(0x8008));
}

#[test]
fn sprite_collision_on_display() {
    let mut d = Display::new();
    assert!(!d.draw_sprite(&vec![0x80], 3, 4));
    assert_eq!(1, d.pixel(3, 4));
    assert!(!d.draw_sprite(&vec![0x40], 3, 4));
    assert_eq!(1, d.pixel(4, 4));
    assert!(d.draw_sprite(&vec![0xC0], 3, 4));
    assert_eq!(0, d.pixel(3, 4));
    assert_eq!(0, d.pixel(4, 4));
    d.draw_sprite(&vec![0xFF], 0, 0);
    d.clear();
    assert_eq!(0, d.pixel(7, 0));
}

#[test]
fn debug_log_keeps_most_recent_entries() {
    let mut log = DebugLog::new(2);
    assert_eq!(0, log.len());
    assert!(log.last_entry().is_none());
    log.push("a".to_string());
    log.push("b".to_string());
    log.push("c".to_string());
    assert_eq!(2, log.len());
    assert_eq!("c", log.last_entry().unwrap().as_str());
}

#[test]
fn mnemonics_match_listing_format() {
    assert_eq!("(0x6101) LD V1, 0x01", listing(0x6101));
    assert_eq!("SYS 0x123 (unsupported)", mnemonic(0x0123));
    assert_eq!("DRW V1, V2, 0xF", mnemonic(0xD12F));
    assert_eq!("SUB V10, V11", mnemonic(0x8AB5));
    assert_eq!("JP V0, 0x2A0", mnemonic(0xB2A0));
    assert_eq!("LD V7, [I]", mnemonic(0xF765));
    assert_eq!("Unsupported", mnemonic(0x8008));
    let lines = disassemble(&vec![0x00, 0xE0, 0x12, 0x02]).unwrap();
    assert_eq!(vec!["(0x00E0) CLS".to_string(), "(0x1202) JP 0x202".to_string()], lines);
    assert!(disassemble(&vec![0x00, 0xE0, 0x12]).is_none());
}
