use chip8::Chip8;
use chip8::Instr;
use chip8::isa::decode;

fn boot(rom: &[u8]) -> Chip8 {
    let mut m = Chip8::new();
    let data: Vec<u8> = rom.to_vec();
    m.load_rom(&data).expect("program fits");
    m
}

fn run(m: &mut Chip8, steps: usize) {
    for _ in 0..steps {
        m.cycle(0).expect("step succeeds");
    }
}

#[test]
fn add_imm_wraps_at_256() {
    // V0 = 254; V0 += 5.
    let mut m = boot(&[0x60, 0xFE, 0x70, 0x05]);
    run(&mut m, 2);
    assert_eq!(m.register(0), 3);
    // 7xkk touches no carry flag.
    assert_eq!(m.register(15), 0);
    assert_eq!(m.program_counter(), 0x204);
}

#[test]
fn add_imm_without_overflow() {
    let mut m = boot(&[0x60, 0x10, 0x70, 0x22]);
    run(&mut m, 2);
    assert_eq!(m.register(0), 0x32);
}

#[test]
fn add_reg_sets_carry_exactly_on_overflow() {
    // V0 = 200, V1 = 100, V0 += V1: 300 wraps to 44, carry 1.
    let mut m = boot(&[0x60, 0xC8, 0x61, 0x64, 0x80, 0x14]);
    run(&mut m, 3);
    assert_eq!(m.register(0), 44);
    assert_eq!(m.register(15), 1);
}

#[test]
fn add_reg_clears_carry_without_overflow() {
    let mut m = boot(&[0x60, 0x05, 0x61, 0x03, 0x80, 0x14]);
    run(&mut m, 3);
    assert_eq!(m.register(0), 8);
    assert_eq!(m.register(15), 0);
    assert_eq!(m.program_counter(), 0x206);
}

#[test]
fn sub_sets_no_borrow_flag() {
    // V0 = 5, V1 = 3: V0 -= V1 leaves 2, VF = 1 (no borrow).
    let mut m = boot(&[0x60, 0x05, 0x61, 0x03, 0x80, 0x15]);
    run(&mut m, 3);
    assert_eq!(m.register(0), 2);
    assert_eq!(m.register(15), 1);
}

#[test]
fn sub_wraps_and_clears_flag_on_borrow() {
    // V0 = 3, V1 = 5: V0 -= V1 wraps to 254, VF = 0 (borrow).
    let mut m = boot(&[0x60, 0x03, 0x61, 0x05, 0x80, 0x15]);
    run(&mut m, 3);
    assert_eq!(m.register(0), 254);
    assert_eq!(m.register(15), 0);
}

#[test]
fn subn_uses_reversed_operands() {
    // V0 = 3, V1 = 5: V0 = V1 - V0 = 2, VF = 1 (no borrow).
    let mut m = boot(&[0x60, 0x03, 0x61, 0x05, 0x80, 0x17]);
    run(&mut m, 3);
    assert_eq!(m.register(0), 2);
    assert_eq!(m.register(15), 1);
}

#[test]
fn bitwise_ops() {
    // V0 = 0b1100, V1 = 0b1010.
    let mut m = boot(&[0x60, 0x0C, 0x61, 0x0A, 0x80, 0x11]);
    run(&mut m, 3);
    assert_eq!(m.register(0), 0x0E);
    let mut m = boot(&[0x60, 0x0C, 0x61, 0x0A, 0x80, 0x12]);
    run(&mut m, 3);
    assert_eq!(m.register(0), 0x08);
    let mut m = boot(&[0x60, 0x0C, 0x61, 0x0A, 0x80, 0x13]);
    run(&mut m, 3);
    assert_eq!(m.register(0), 0x06);
}

#[test]
fn shifts_move_the_edge_bit_into_vf() {
    // V0 = 0b10000101: shr gives 0b1000010 and VF = 1.
    let mut m = boot(&[0x60, 0x85, 0x80, 0x06]);
    run(&mut m, 2);
    assert_eq!(m.register(0), 0x42);
    assert_eq!(m.register(15), 1);
    // shl on 0b10000101 gives 0b00001010 and VF = 1.
    let mut m = boot(&[0x60, 0x85, 0x80, 0x0E]);
    run(&mut m, 2);
    assert_eq!(m.register(0), 0x0A);
    assert_eq!(m.register(15), 1);
}

#[test]
fn move_and_load() {
    let mut m = boot(&[0x61, 0x2A, 0x80, 0x10]);
    run(&mut m, 2);
    assert_eq!(m.register(0), 0x2A);
}

#[test]
fn jump_sets_pc() {
    let mut m = boot(&[0x12, 0x34]);
    run(&mut m, 1);
    assert_eq!(m.program_counter(), 0x234);
}

#[test]
fn jump_v0_adds_register() {
    let mut m = boot(&[0x60, 0x10, 0xB3, 0x00]);
    run(&mut m, 2);
    assert_eq!(m.program_counter(), 0x310);
}

#[test]
fn skips_taken_and_not_taken() {
    // 3xkk taken.
    let mut m = boot(&[0x60, 0x07, 0x30, 0x07]);
    run(&mut m, 2);
    assert_eq!(m.program_counter(), 0x206);
    // 3xkk not taken.
    let mut m = boot(&[0x60, 0x07, 0x30, 0x08]);
    run(&mut m, 2);
    assert_eq!(m.program_counter(), 0x204);
    // 4xkk taken.
    let mut m = boot(&[0x60, 0x07, 0x40, 0x08]);
    run(&mut m, 2);
    assert_eq!(m.program_counter(), 0x206);
    // 5xy0 taken, 9xy0 not taken on equal registers.
    let mut m = boot(&[0x60, 0x07, 0x61, 0x07, 0x50, 0x10]);
    run(&mut m, 3);
    assert_eq!(m.program_counter(), 0x208);
    let mut m = boot(&[0x60, 0x07, 0x61, 0x07, 0x90, 0x10]);
    run(&mut m, 3);
    assert_eq!(m.program_counter(), 0x206);
}

#[test]
fn call_then_ret_round_trip() {
    // 0x200: CALL 0x204; 0x202: would be next; 0x204: RET.
    let mut m = boot(&[0x22, 0x04, 0x00, 0x00, 0x00, 0xEE]);
    run(&mut m, 1);
    assert_eq!(m.program_counter(), 0x204);
    assert_eq!(m.stack_pointer(), 1);
    run(&mut m, 1);
    // pc is back at its value immediately after the CALL.
    assert_eq!(m.program_counter(), 0x202);
    assert_eq!(m.stack_pointer(), 0);
}

#[test]
fn load_index_and_add_index() {
    let mut m = boot(&[0xA1, 0x23, 0x60, 0x02, 0xF0, 0x1E]);
    run(&mut m, 3);
    assert_eq!(m.index_register(), 0x125);
}

#[test]
fn add_index_wraps_at_16_bits() {
    let mut m = boot(&[0x60, 0xFF, 0xF0, 0x1E]);
    m.index = 0xFFFF;
    run(&mut m, 2);
    assert_eq!(m.index_register(), 0x00FE);
}

#[test]
fn rand_masks_the_random_byte() {
    let mut m = boot(&[0xC0, 0x0F]);
    m.cycle(0xAB).expect("step succeeds");
    assert_eq!(m.register(0), 0x0B);
}

#[test]
fn font_addr_points_into_the_table() {
    let mut m = boot(&[0x60, 0x0A, 0xF0, 0x29]);
    run(&mut m, 2);
    assert_eq!(m.index_register(), 0x50 + 5 * 0x0A);
    // The glyph for 0xA starts with 0xF0.
    assert_eq!(m.memory_at(0x50 + 5 * 0x0A), 0xF0);
}

#[test]
fn bcd_stores_three_digits() {
    let mut m = boot(&[0x60, 0xFE, 0xA3, 0x00, 0xF0, 0x33]);
    run(&mut m, 3);
    assert_eq!(m.memory_at(0x300), 2);
    assert_eq!(m.memory_at(0x301), 5);
    assert_eq!(m.memory_at(0x302), 4);
}

#[test]
fn store_then_load_restores_registers() {
    // V0 = 7, V1 = 9, V2 = 0xC8, I = 0x300, store V0..=V2, clobber V1,
    // load V0..=V2 back.
    let mut m = boot(&[
        0x60, 0x07, 0x61, 0x09, 0x62, 0xC8, 0xA3, 0x00, 0xF2, 0x55, 0x61, 0x00, 0xF2, 0x65,
    ]);
    run(&mut m, 7);
    assert_eq!(m.register(0), 7);
    assert_eq!(m.register(1), 9);
    assert_eq!(m.register(2), 0xC8);
    // Memory holds the stored bytes, the register past x is untouched.
    assert_eq!(m.memory_at(0x300), 7);
    assert_eq!(m.memory_at(0x301), 9);
    assert_eq!(m.memory_at(0x302), 0xC8);
    assert_eq!(m.register(3), 0);
    // I is not moved by either operation.
    assert_eq!(m.index_register(), 0x300);
}

#[test]
fn delay_timer_read_and_write() {
    let mut m = boot(&[0x60, 0x21, 0xF0, 0x15, 0xF1, 0x07]);
    run(&mut m, 3);
    assert_eq!(m.delay_timer, 0x21);
    assert_eq!(m.register(1), 0x21);
}

#[test]
fn sound_timer_write() {
    let mut m = boot(&[0x60, 0x19, 0xF0, 0x18]);
    run(&mut m, 2);
    assert_eq!(m.sound_timer, 0x19);
}

#[test]
fn skip_key_and_skip_no_key() {
    // V0 = 4; key 4 down: Ex9E skips.
    let mut m = boot(&[0x60, 0x04, 0xE0, 0x9E]);
    m.set_key(4, true);
    run(&mut m, 2);
    assert_eq!(m.program_counter(), 0x206);
    // Key 4 up: ExA1 skips.
    let mut m = boot(&[0x60, 0x04, 0xE0, 0xA1]);
    run(&mut m, 2);
    assert_eq!(m.program_counter(), 0x206);
    // Key 4 down: ExA1 does not skip.
    let mut m = boot(&[0x60, 0x04, 0xE0, 0xA1]);
    m.set_key(4, true);
    run(&mut m, 2);
    assert_eq!(m.program_counter(), 0x204);
}

#[test]
fn wait_key_holds_pc_until_a_key_comes() {
    let mut m = boot(&[0xF0, 0x0A]);
    run(&mut m, 3);
    // No key: pc never advances.
    assert_eq!(m.program_counter(), 0x200);
    m.set_key(9, true);
    run(&mut m, 1);
    assert_eq!(m.register(0), 9);
    assert_eq!(m.program_counter(), 0x202);
}

#[test]
fn wait_key_reports_lowest_key() {
    let mut m = boot(&[0xF0, 0x0A]);
    m.set_key(11, true);
    m.set_key(3, true);
    run(&mut m, 1);
    assert_eq!(m.register(0), 3);
}

#[test]
fn cls_and_draw_scenario() {
    // CLS; I = 0x50 (glyph 0); draw 5 rows at (V0, V0) = (0, 0).
    let mut m = boot(&[0x00, 0xE0, 0xA0, 0x50, 0xD0, 0x05]);
    run(&mut m, 3);
    let glyph = [0xF0u8, 0x90, 0x90, 0x90, 0xF0];
    for y in 0..32 {
        for x in 0..64 {
            let expected = y < 5 && x < 8 && (glyph[y] >> (7 - x)) & 1 == 1;
            assert_eq!(m.pixel(x, y), expected);
        }
    }
    // Nothing was lit before, so no collision.
    assert_eq!(m.register(15), 0);
}

#[test]
fn draw_twice_restores_the_screen_and_collides() {
    // Draw glyph 0 at (0, 0) twice.
    let mut m = boot(&[0xA0, 0x50, 0xD0, 0x05, 0xD0, 0x05]);
    run(&mut m, 2);
    assert_eq!(m.register(15), 0);
    assert!(m.pixel(0, 0));
    run(&mut m, 1);
    // The second draw erases every pixel it lit and reports the collision.
    assert_eq!(m.register(15), 1);
    for y in 0..32 {
        for x in 0..64 {
            assert!(!m.pixel(x, y));
        }
    }
}

#[test]
fn draw_wraps_around_both_edges() {
    // V0 = 62, V1 = 30: an 8-wide, 2-high sprite of full rows.
    let mut m = boot(&[0x60, 0x3E, 0x61, 0x1E, 0xA2, 0x0A, 0xD0, 0x12, 0x00, 0x00, 0xFF, 0xFF]);
    run(&mut m, 4);
    // Row 30 holds columns 62, 63 and wraps to 0..6; row 31 likewise.
    assert!(m.pixel(62, 30));
    assert!(m.pixel(63, 31));
    assert!(m.pixel(0, 30));
    assert!(m.pixel(5, 31));
    assert!(!m.pixel(6, 30));
    assert!(!m.pixel(62, 0));
}

#[test]
fn draw_coordinates_reduce_modulo_screen() {
    // V0 = 64 draws as column 0; V1 = 33 draws as row 1.
    let mut m = boot(&[0x60, 0x40, 0x61, 0x21, 0xA0, 0x50, 0xD0, 0x15]);
    run(&mut m, 4);
    assert!(m.pixel(0, 1));
    assert!(!m.pixel(0, 0));
}

#[test]
fn last_opcode_is_retained() {
    let mut m = boot(&[0x60, 0x07]);
    run(&mut m, 1);
    assert_eq!(m.last_opcode(), 0x6007);
}

#[test]
fn decode_splits_operand_fields() {
    assert_eq!(decode(0x00E0), Instr::Cls);
    assert_eq!(decode(0x00EE), Instr::Ret);
    assert_eq!(decode(0x1ABC), Instr::Jump { nnn: 0xABC });
    assert_eq!(decode(0x2123), Instr::Call { nnn: 0x123 });
    assert_eq!(decode(0x7A05), Instr::AddImm { x: 0xA, kk: 0x05 });
    assert_eq!(decode(0x8AB4), Instr::Add { x: 0xA, y: 0xB });
    assert_eq!(decode(0x8AB5), Instr::Sub { x: 0xA, y: 0xB });
    assert_eq!(decode(0x8AB7), Instr::SubN { x: 0xA, y: 0xB });
    assert_eq!(decode(0xD123), Instr::Draw { x: 1, y: 2, n: 3 });
    assert_eq!(decode(0xE19E), Instr::SkipKey { x: 1 });
    assert_eq!(decode(0xF265), Instr::LoadRegs { x: 2 });
    // Words outside the table decode to Unknown.
    assert_eq!(decode(0x5AB1), Instr::Unknown);
    assert_eq!(decode(0x8AB8), Instr::Unknown);
    assert_eq!(decode(0xE100), Instr::Unknown);
    assert_eq!(decode(0xFFFF), Instr::Unknown);
    assert_eq!(decode(0x0123), Instr::Unknown);
}
