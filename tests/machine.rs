use chippy::chip8::{Chip8, LoadError};
use chippy::cpu::{Cpu, Fault};
use chippy::mem::{Memory, Rom, RESERVED_MEMORY_SIZE, ROM_SIZE};

const TEST_ROM: [u8; 20] = [
    0x61, 0x01, // Sets V1 to 0x1
    0x71, 0x01, // V1 = V1 + 0x1
    0x31, 0x00, // Skips next instruction if V1 == 0x0
    0x12, 0x02, // PC = 0x0202
    0x61, 0x01, // Sets V1 to 0x1
    0x62, 0xFF, // Sets V2 to 0xFF
    0x81, 0x24, // Sets V1 to V1 + V2. VF should be set to 0x1
    0xB2, 0x12, // PC = V0 + 0x212
    0xC2, 0x30, // V2 = rand byte AND 0x30 (skipped by the jump before it)
    0xFF, 0x1E, // I = I + VF
];

fn run_test_rom_on_chip8() {
    let mut c = Chip8::new(TEST_ROM.to_vec()).unwrap();

    assert_eq!(0x200, c.cpu().pc());
    assert_eq!(0x61, c.cpu().memory().read_byte(c.cpu().pc()));

    c.fetch_decode_execute().unwrap();
    assert_eq!(0x202, c.cpu().pc());
    assert_eq!(0x1, c.cpu().v(0x1));

    for i in 0..=253 {
        c.fetch_decode_execute().unwrap();
        assert_eq!(0x204, c.cpu().pc());
        assert_eq!(0x2 + (i as u8), c.cpu().v(0x1));

        c.fetch_decode_execute().unwrap();
        assert_eq!(0x206, c.cpu().pc());

        c.fetch_decode_execute().unwrap();
        assert_eq!(c.cpu().pc(), 0x202);
    }

    c.fetch_decode_execute().unwrap();
    assert_eq!(0x204, c.cpu().pc());
    assert_eq!(0x0, c.cpu().v(0x1));

    c.fetch_decode_execute().unwrap();
    assert_eq!(0x208, c.cpu().pc());

    c.fetch_decode_execute().unwrap();
    assert_eq!(0x20A, c.cpu().pc());
    assert_eq!(0x1, c.cpu().v(0x1));

    c.fetch_decode_execute().unwrap();
    assert_eq!(0x20C, c.cpu().pc());
    assert_eq!(0xFF, c.cpu().v(0x2));

    c.fetch_decode_execute().unwrap();
    assert_eq!(0x20E, c.cpu().pc());
    assert_eq!(0x0, c.cpu().v(0x1));
    assert_eq!(0xFF, c.cpu().v(0x2));
    assert_eq!(0x1, c.cpu().v(0xF));
}

#[test]
fn chip8_test_new_chip8() {
    run_test_rom_on_chip8();
}

#[test]
fn cpu_test_new_chip8() {
    run_test_rom_on_chip8();
}

#[test]
fn mem_test_memory_mapper() {
    let mm = Memory::new(Rom::from_image(&TEST_ROM.to_vec()));

    assert_eq!(0x61, mm.read_byte(RESERVED_MEMORY_SIZE as u16));
    assert_eq!(0x6101, mm.read_word(RESERVED_MEMORY_SIZE as u16));
}

#[test]
fn mod_test_memory_mapper() {
    let mut mm = Memory::new(Rom::from_image(&TEST_ROM.to_vec()));

    assert_eq!(0x61, mm.read_byte(RESERVED_MEMORY_SIZE as u16));
    assert_eq!(0x6101, mm.read_word(RESERVED_MEMORY_SIZE as u16));

    mm.write_byte(0xF, RESERVED_MEMORY_SIZE as u16);
    assert_eq!(0xF, mm.read_byte(RESERVED_MEMORY_SIZE as u16));
}

#[test]
fn test_run_rom() {
    let mut cpu = Cpu::from_rom(Rom::from_image(&TEST_ROM.to_vec()));

    assert_eq!(0x200, cpu.pc());
    assert_eq!(0x61, cpu.memory().read_byte(cpu.pc()));

    cpu.fetch_decode_execute().unwrap();
    assert_eq!(0x202, cpu.pc());
    assert_eq!(0x1, cpu.v(0x1));

    for i in 0..=253 {
        cpu.fetch_decode_execute().unwrap();
        assert_eq!(0x204, cpu.pc());
        assert_eq!(0x2 + (i as u8), cpu.v(0x1));

        cpu.fetch_decode_execute().unwrap();
        assert_eq!(0x206, cpu.pc());

        cpu.fetch_decode_execute().unwrap();
        assert_eq!(cpu.pc(), 0x202);
    }

    cpu.fetch_decode_execute().unwrap();
    assert_eq!(0x204, cpu.pc());
    assert_eq!(0x0, cpu.v(0x1));

    cpu.fetch_decode_execute().unwrap();
    assert_eq!(0x208, cpu.pc());

    cpu.fetch_decode_execute().unwrap();
    assert_eq!(0x20A, cpu.pc());
    assert_eq!(0x1, cpu.v(0x1));

    cpu.fetch_decode_execute().unwrap();
    assert_eq!(0x20C, cpu.pc());
    assert_eq!(0xFF, cpu.v(0x2));

    cpu.fetch_decode_execute().unwrap();
    assert_eq!(0x20E, cpu.pc());
    assert_eq!(0x0, cpu.v(0x1));
    assert_eq!(0xFF, cpu.v(0x2));
    assert_eq!(0x1, cpu.v(0xF));
}

#[test]
fn new_from_full_size_array() {
    let mut rom = [0u8; ROM_SIZE];
    rom[0] = 0x6A;
    rom[1] = 0x42;
    rom[ROM_SIZE - 1] = 0x99;
    let mut cpu = Cpu::new(rom);
    assert_eq!(0x99, cpu.memory().read_byte(0xFFF));
    cpu.step(0).unwrap();
    assert_eq!(0x42, cpu.v(0xA));
    assert_eq!(0x202, cpu.pc());
}

#[test]
fn font_is_loaded_at_address_zero() {
    let cpu = Cpu::from_rom(Rom::from_image(&vec![]));
    assert_eq!(0xF0, cpu.memory().read_byte(0));
    assert_eq!(0x20, cpu.memory().read_byte(5));
    assert_eq!(0x80, cpu.memory().read_byte(79));
    assert_eq!(0x00, cpu.memory().read_byte(80));
    assert_eq!(0x00, cpu.memory().read_byte(0x1FF));
}

#[test]
fn image_of_exactly_the_region_size_loads() {
    let mut image = vec![0u8; ROM_SIZE];
    image[ROM_SIZE - 1] = 0xAB;
    let c = Chip8::new(image).unwrap();
    assert_eq!(0xAB, c.cpu().memory().read_byte(0xFFF));
}

#[test]
fn image_longer_than_the_region_is_rejected() {
    let image = vec![0u8; ROM_SIZE + 1];
    assert!(matches!(Chip8::new(image), Err(LoadError::RomTooLarge)));
}

#[test]
fn fetch_past_end_of_memory_faults() {
    // JP 0xFFF: the word at 0xFFF would need a byte at 0x1000.
    let mut c = Chip8::new(vec![0x1F, 0xFF]).unwrap();
    c.fetch_decode_execute().unwrap();
    assert_eq!(0xFFF, c.cpu().pc());
    assert_eq!(Err(Fault::OutOfRange), c.fetch_decode_execute());
    assert_eq!(0xFFF, c.cpu().pc());
}
