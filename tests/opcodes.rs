use chippy::cpu::{Cpu, Fault};
use chippy::mem::Rom;

fn machine(program: &[u8]) -> Cpu {
    Cpu::from_rom(Rom::from_image(&program.to_vec()))
}

fn run(cpu: &mut Cpu, steps: usize) {
    for _ in 0..steps {
        cpu.step(0).unwrap();
    }
}

#[test]
fn add_with_carry_sets_flag() {
    // LD V0,0xC8; LD V1,0x64; ADD V0,V1
    let mut cpu = machine(&[0x60, 0xC8, 0x61, 0x64, 0x80, 0x14]);
    run(&mut cpu, 3);
    assert_eq!(0x2C, cpu.v(0));
    assert_eq!(1, cpu.v(0xF));
}

#[test]
fn add_without_carry_clears_flag() {
    // LD VF,7; LD V0,0x80; LD V1,0x7F; ADD V0,V1
    let mut cpu = machine(&[0x6F, 0x07, 0x60, 0x80, 0x61, 0x7F, 0x80, 0x14]);
    run(&mut cpu, 4);
    assert_eq!(0xFF, cpu.v(0));
    assert_eq!(0, cpu.v(0xF));
}

#[test]
fn sub_sets_flag_when_no_borrow() {
    // LD V0,5; LD V1,5; SUB V0,V1
    let mut cpu = machine(&[0x60, 0x05, 0x61, 0x05, 0x80, 0x15]);
    run(&mut cpu, 3);
    assert_eq!(0, cpu.v(0));
    assert_eq!(1, cpu.v(0xF));
}

#[test]
fn sub_with_borrow_wraps_and_clears_flag() {
    // LD V0,3; LD V1,5; SUB V0,V1
    let mut cpu = machine(&[0x60, 0x03, 0x61, 0x05, 0x80, 0x15]);
    run(&mut cpu, 3);
    assert_eq!(0xFE, cpu.v(0));
    assert_eq!(0, cpu.v(0xF));
}

#[test]
fn subn_subtracts_the_other_way() {
    // LD V0,3; LD V1,5; SUBN V0,V1
    let mut cpu = machine(&[0x60, 0x03, 0x61, 0x05, 0x80, 0x17]);
    run(&mut cpu, 3);
    assert_eq!(2, cpu.v(0));
    assert_eq!(1, cpu.v(0xF));
}

#[test]
fn shifts_keep_the_lost_bit_in_flag() {
    // LD V0,0x81; SHR V0; LD V1,0x81; SHL V1
    let mut cpu = machine(&[0x60, 0x81, 0x80, 0x06, 0x61, 0x81, 0x81, 0x0E]);
    run(&mut cpu, 2);
    assert_eq!(0x40, cpu.v(0));
    assert_eq!(1, cpu.v(0xF));
    run(&mut cpu, 2);
    assert_eq!(0x02, cpu.v(1));
    assert_eq!(1, cpu.v(0xF));
}

#[test]
fn logic_ops_and_add_byte_wrap() {
    // LD V0,0xF0; LD V1,0x3C; OR V0,V1; AND V0,V1; XOR V0,V1; ADD V0,0xFF
    let mut cpu = machine(&[0x60, 0xF0, 0x61, 0x3C, 0x80, 0x11, 0x80, 0x12, 0x80, 0x13, 0x70, 0xFF]);
    run(&mut cpu, 3);
    assert_eq!(0xFC, cpu.v(0));
    run(&mut cpu, 1);
    assert_eq!(0x3C, cpu.v(0));
    run(&mut cpu, 1);
    assert_eq!(0x00, cpu.v(0));
    run(&mut cpu, 1);
    assert_eq!(0xFF, cpu.v(0));
}

#[test]
fn bcd_of_157() {
    // LD V3,157; LD I,0x300; LD B,V3
    let mut cpu = machine(&[0x63, 157, 0xA3, 0x00, 0xF3, 0x33]);
    run(&mut cpu, 3);
    assert_eq!(1, cpu.memory().read_byte(0x300));
    assert_eq!(5, cpu.memory().read_byte(0x301));
    assert_eq!(7, cpu.memory().read_byte(0x302));
}

#[test]
fn store_then_load_registers_round_trip() {
    // LD V0..V3; LD I,0x300; LD [I],V3; LD V0..V3 with other values; LD V3,[I]
    let mut cpu = machine(&[
        0x60, 0x11, 0x61, 0x22, 0x62, 0x33, 0x63, 0x44, 0xA3, 0x00, 0xF3, 0x55, 0x60, 0x00, 0x61,
        0x00, 0x62, 0x00, 0x63, 0x00, 0xF3, 0x65,
    ]);
    run(&mut cpu, 6);
    assert_eq!(0x44, cpu.memory().read_byte(0x303));
    run(&mut cpu, 4);
    assert_eq!(0, cpu.v(2));
    run(&mut cpu, 1);
    assert_eq!(0x11, cpu.v(0));
    assert_eq!(0x22, cpu.v(1));
    assert_eq!(0x33, cpu.v(2));
    assert_eq!(0x44, cpu.v(3));
}

#[test]
fn scenario_load_add_skip_jump() {
    let mut cpu = machine(&[0x61, 0x01, 0x71, 0x01, 0x31, 0x00, 0x12, 0x02]);
    cpu.step(0).unwrap();
    assert_eq!(1, cpu.v(1));
    assert_eq!(0x202, cpu.pc());
    cpu.step(0).unwrap();
    assert_eq!(2, cpu.v(1));
    assert_eq!(0x204, cpu.pc());
    cpu.step(0).unwrap();
    assert_eq!(0x206, cpu.pc());
}

#[test]
fn wait_for_key_blocks_then_takes_lowest_key() {
    // LD V5,K
    let mut cpu = machine(&[0xF5, 0x0A]);
    for _ in 0..5 {
        cpu.step(0).unwrap();
        assert_eq!(0x200, cpu.pc());
        assert_eq!(0, cpu.v(5));
    }
    cpu.set_key(0xC, true);
    cpu.set_key(0x7, true);
    cpu.step(0).unwrap();
    assert_eq!(0x202, cpu.pc());
    assert_eq!(0x7, cpu.v(5));
}

#[test]
fn jump_with_offset_does_not_wrap() {
    // LD V0,0xFF; JP V0,0xFFF
    let mut cpu = machine(&[0x60, 0xFF, 0xBF, 0xFF]);
    run(&mut cpu, 2);
    assert_eq!(0xFFF + 0xFF, cpu.pc());
}

#[test]
fn draw_twice_restores_and_reports_collision() {
    // LD I,0 (glyph 0); LD V0,62; LD V1,30; DRW V0,V1,5; DRW V0,V1,5
    let mut cpu = machine(&[0xA0, 0x00, 0x60, 62, 0x61, 30, 0xD0, 0x15, 0xD0, 0x15]);
    run(&mut cpu, 4);
    assert_eq!(0, cpu.v(0xF));
    assert!(cpu.draw());
    // Row 0 of glyph 0 is 0xF0: columns 62, 63, 0, 1 of row 30 are lit.
    assert_eq!(1, cpu.display().pixel(62, 30));
    assert_eq!(1, cpu.display().pixel(1, 30));
    assert_eq!(0, cpu.display().pixel(2, 30));
    // Row 4 of the glyph wraps to row 2.
    assert_eq!(1, cpu.display().pixel(63, 2));
    cpu.clear_draw();
    run(&mut cpu, 1);
    assert_eq!(1, cpu.v(0xF));
    assert!(cpu.draw());
    for y in 0..32 {
        for x in 0..64 {
            assert_eq!(0, cpu.display().pixel(x, y));
        }
    }
}

#[test]
fn clear_screen_blanks_display() {
    // LD I,0; DRW V0,V0,1; CLS
    let mut cpu = machine(&[0xA0, 0x00, 0xD0, 0x01, 0x00, 0xE0]);
    run(&mut cpu, 2);
    assert_eq!(1, cpu.display().pixel(0, 0));
    cpu.clear_draw();
    run(&mut cpu, 1);
    assert_eq!(0, cpu.display().pixel(0, 0));
    assert!(cpu.draw());
}

#[test]
fn call_and_return() {
    // CALL 0x206; (0x202) LD V1,1; JP 0x202; (0x206) LD V2,2; RET
    let mut cpu = machine(&[0x22, 0x06, 0x61, 0x01, 0x12, 0x04, 0x62, 0x02, 0x00, 0xEE]);
    cpu.step(0).unwrap();
    assert_eq!(0x206, cpu.pc());
    assert_eq!(1, cpu.stack_depth());
    run(&mut cpu, 2);
    assert_eq!(0x202, cpu.pc());
    assert_eq!(0, cpu.stack_depth());
    assert_eq!(2, cpu.v(2));
}

#[test]
fn return_with_empty_stack_faults() {
    let mut cpu = machine(&[0x00, 0xEE]);
    assert_eq!(Err(Fault::StackUnderflow), cpu.step(0));
    assert_eq!(0x200, cpu.pc());
}

#[test]
fn seventeenth_nested_call_faults() {
    // CALL 0x200 forever
    let mut cpu = machine(&[0x22, 0x00]);
    run(&mut cpu, 16);
    assert_eq!(16, cpu.stack_depth());
    assert_eq!(Err(Fault::StackOverflow), cpu.step(0));
    assert_eq!(16, cpu.stack_depth());
}

#[test]
fn store_into_reserved_region_faults() {
    // LD I,0x100; LD [I],V0
    let mut cpu = machine(&[0xA1, 0x00, 0xF0, 0x55]);
    run(&mut cpu, 1);
    assert_eq!(Err(Fault::ReservedWrite), cpu.step(0));
    assert_eq!(0x202, cpu.pc());
}

#[test]
fn load_past_end_of_memory_faults() {
    // LD I,0xFFE; LD VF,[I]
    let mut cpu = machine(&[0xAF, 0xFE, 0xFF, 0x65]);
    run(&mut cpu, 1);
    assert_eq!(Err(Fault::OutOfRange), cpu.step(0));
}

#[test]
fn skip_instructions() {
    // LD V0,3; SE V0,3 (skip); -; SNE V0,3 (no skip); SE V0,V1 (no skip); SNE V0,V1 (skip); -; LD V2,9
    let mut cpu = machine(&[
        0x60, 0x03, 0x30, 0x03, 0x00, 0x00, 0x40, 0x03, 0x50, 0x10, 0x90, 0x10, 0x00, 0x00, 0x62,
        0x09,
    ]);
    run(&mut cpu, 2);
    assert_eq!(0x206, cpu.pc());
    run(&mut cpu, 1);
    assert_eq!(0x208, cpu.pc());
    run(&mut cpu, 1);
    assert_eq!(0x20A, cpu.pc());
    run(&mut cpu, 1);
    assert_eq!(0x20E, cpu.pc());
    run(&mut cpu, 1);
    assert_eq!(9, cpu.v(2));
}

#[test]
fn key_skips() {
    // LD V0,4; SKP V0; SKNP V0
    let mut cpu = machine(&[0x60, 0x04, 0xE0, 0x9E, 0xE0, 0xA1]);
    run(&mut cpu, 2);
    assert_eq!(0x204, cpu.pc());
    cpu.set_key(4, true);
    let mut pressed = machine(&[0x60, 0x04, 0xE0, 0x9E, 0x00, 0x00, 0xE0, 0xA1]);
    pressed.set_key(4, true);
    run(&mut pressed, 2);
    assert_eq!(0x206, pressed.pc());
    run(&mut pressed, 1);
    assert_eq!(0x208, pressed.pc());
}

#[test]
fn timers_count_down_and_drive_beep() {
    // LD V0,2; LD DT,V0; LD ST,V0; LD V1,DT
    let mut cpu = machine(&[0x60, 0x02, 0xF0, 0x15, 0xF0, 0x18, 0xF1, 0x07]);
    run(&mut cpu, 2);
    assert_eq!(1, cpu.delay_timer());
    run(&mut cpu, 1);
    assert_eq!(0, cpu.delay_timer());
    assert_eq!(1, cpu.sound_timer());
    assert!(cpu.beep());
    run(&mut cpu, 1);
    assert_eq!(0, cpu.v(1));
    assert_eq!(0, cpu.sound_timer());
    assert!(!cpu.beep());
}

#[test]
fn add_to_index_flags_leaving_address_space() {
    // LD I,0xFFE; LD V0,1; ADD I,V0; ADD I,V0
    let mut cpu = machine(&[0xAF, 0xFE, 0x60, 0x01, 0xF0, 0x1E, 0xF0, 0x1E]);
    run(&mut cpu, 3);
    assert_eq!(0xFFF, cpu.i());
    assert_eq!(0, cpu.v(0xF));
    run(&mut cpu, 1);
    assert_eq!(0x1000, cpu.i());
    assert_eq!(1, cpu.v(0xF));
}

#[test]
fn font_address_of_digit() {
    // LD V0,0xA; LD F,V0
    let mut cpu = machine(&[0x60, 0x0A, 0xF0, 0x29]);
    run(&mut cpu, 2);
    assert_eq!(50, cpu.i());
}

#[test]
fn random_byte_is_masked() {
    // LD V0,0xFF; RND V0,0x0F
    let mut cpu = machine(&[0x60, 0xFF, 0xC0, 0x0F]);
    cpu.step(0).unwrap();
    cpu.step(0xAB).unwrap();
    assert_eq!(0x0B, cpu.v(0));
    let mut drawn = machine(&[0xC0, 0x00]);
    drawn.fetch_decode_execute().unwrap();
    assert_eq!(0, drawn.v(0));
}

#[test]
fn unknown_opcode_is_a_no_op() {
    let mut cpu = machine(&[0x01, 0x23, 0x5A, 0xB1, 0xE0, 0x00]);
    run(&mut cpu, 3);
    assert_eq!(0x206, cpu.pc());
    for r in 0..16 {
        assert_eq!(0, cpu.v(r));
    }
}
