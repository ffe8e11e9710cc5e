use chip8::Chip8;
use chip8::Chip8Error;
use chip8::FixedTimestep;

fn boot(rom: &[u8]) -> Chip8 {
    let mut m = Chip8::new();
    let data: Vec<u8> = rom.to_vec();
    m.load_rom(&data).expect("program fits");
    m
}

#[test]
fn new_machine_is_zeroed_with_font() {
    let m = Chip8::new();
    assert_eq!(m.program_counter(), 0);
    assert_eq!(m.index_register(), 0);
    assert_eq!(m.stack_pointer(), 0);
    assert_eq!(m.delay_timer, 0);
    assert_eq!(m.sound_timer, 0);
    for x in 0..16 {
        assert_eq!(m.register(x), 0);
    }
    // The first glyph (digit 0) and the last byte of the table.
    assert_eq!(m.memory_at(0x50), 0xF0);
    assert_eq!(m.memory_at(0x51), 0x90);
    assert_eq!(m.memory_at(0x9F), 0x80);
    // Outside the font everything is zero.
    assert_eq!(m.memory_at(0x4F), 0);
    assert_eq!(m.memory_at(0xA0), 0);
    assert_eq!(m.memory_at(0x200), 0);
    for y in 0..32 {
        for x in 0..64 {
            assert!(!m.pixel(x, y));
        }
    }
}

#[test]
fn load_one_byte_rom() {
    let mut m = Chip8::new();
    let data = vec![0xABu8];
    assert_eq!(m.load_rom(&data), Ok(()));
    assert_eq!(m.memory_at(0x200), 0xAB);
    assert_eq!(m.program_counter(), 0x200);
}

#[test]
fn load_rom_too_large_fails() {
    let mut m = Chip8::new();
    let data = vec![0x01u8; 4096 - 0x200 + 1];
    assert_eq!(m.load_rom(&data), Err(Chip8Error::OutOfSpace));
    // Nothing changed.
    assert_eq!(m.program_counter(), 0);
    assert_eq!(m.memory_at(0x200), 0);
}

#[test]
fn load_rom_largest_fit() {
    let mut m = Chip8::new();
    let data = vec![0x77u8; 4096 - 0x200];
    assert_eq!(m.load_rom(&data), Ok(()));
    assert_eq!(m.memory_at(0x200), 0x77);
    assert_eq!(m.memory_at(4095), 0x77);
    assert_eq!(m.program_counter(), 0x200);
}

#[test]
fn timers_count_down_and_stop_at_zero() {
    let mut m = Chip8::new();
    m.delay_timer = 3;
    m.sound_timer = 1;
    for _ in 0..5 {
        m.update_timers();
    }
    assert_eq!(m.delay_timer, 0);
    assert_eq!(m.sound_timer, 0);
}

#[test]
fn timers_single_tick() {
    let mut m = Chip8::new();
    m.delay_timer = 7;
    m.sound_timer = 2;
    m.update_timers();
    assert_eq!(m.delay_timer, 6);
    assert_eq!(m.sound_timer, 1);
}

#[test]
fn set_key_reflects_in_keypad() {
    let mut m = Chip8::new();
    m.set_key(5, true);
    assert!(m.keypad[5]);
    m.set_key(5, false);
    assert!(!m.keypad[5]);
}

#[test]
fn fetch_past_memory_is_out_of_bounds() {
    let mut m = Chip8::new();
    m.pc = 4095;
    assert_eq!(m.cycle(0), Err(Chip8Error::OutOfBounds { pc: 4095 }));
    // The machine is unchanged.
    assert_eq!(m.program_counter(), 4095);
}

#[test]
fn unknown_opcode_reports_word_and_pc() {
    let mut m = boot(&[0xFF, 0xFF]);
    assert_eq!(
        m.cycle(0),
        Err(Chip8Error::UnknownOpcode { opcode: 0xFFFF, pc: 0x200 })
    );
    assert_eq!(m.program_counter(), 0x200);
}

#[test]
fn ret_on_empty_stack_underflows() {
    let mut m = boot(&[0x00, 0xEE]);
    assert_eq!(m.cycle(0), Err(Chip8Error::StackUnderflow { pc: 0x200 }));
}

#[test]
fn call_on_full_stack_overflows() {
    let mut m = boot(&[0x23, 0x00]);
    m.sp = 16;
    assert_eq!(m.cycle(0), Err(Chip8Error::StackOverflow { pc: 0x200 }));
}

#[test]
fn draw_past_memory_is_out_of_bounds() {
    // D001 with I at the last byte +1.
    let mut m = boot(&[0xD0, 0x01]);
    m.index = 4096;
    assert_eq!(m.cycle(0), Err(Chip8Error::OutOfBounds { pc: 0x200 }));
}

#[test]
fn store_past_memory_is_out_of_bounds() {
    let mut m = boot(&[0xF1, 0x55]);
    m.index = 4095;
    assert_eq!(m.cycle(0), Err(Chip8Error::OutOfBounds { pc: 0x200 }));
}

#[test]
fn font_test_draws_the_grid() {
    let mut m = Chip8::new();
    m.font_test();
    // Glyph 0 lands at (5, 1); its first row is 0xF0: four lit pixels.
    assert!(m.pixel(5, 1));
    assert!(m.pixel(6, 1));
    assert!(m.pixel(7, 1));
    assert!(m.pixel(8, 1));
    assert!(!m.pixel(9, 1));
    // Glyph 1 lands at (12, 1); its first row is 0x20.
    assert!(!m.pixel(12, 1));
    assert!(!m.pixel(13, 1));
    assert!(m.pixel(14, 1));
}

#[test]
fn timestep_pays_out_whole_ticks() {
    let mut t = FixedTimestep::new(60);
    assert_eq!(t.timestep, 1_000_000_000 / 60);
    // Two periods and one nanosecond of change.
    let ticks = t.update(2 * (1_000_000_000 / 60) + 1);
    assert_eq!(ticks, 2);
    assert_eq!(t.accumulator, 1);
    // Just under one more period: nothing yet.
    let ticks = t.update(1_000_000_000 / 60 - 1);
    assert_eq!(ticks, 1);
    assert_eq!(t.accumulator, 0);
}

#[test]
fn timestep_accumulates_across_updates() {
    let mut t = FixedTimestep::new(1000);
    assert_eq!(t.timestep, 1_000_000);
    assert_eq!(t.update(400_000), 0);
    assert_eq!(t.update(400_000), 0);
    assert_eq!(t.update(400_000), 1);
    assert_eq!(t.accumulator, 200_000);
}

#[test]
fn memory_run_reads_a_span() {
    let m = Chip8::new();
    let run = m.memory_run(0x50, 5);
    assert_eq!(run, vec![0xF0, 0x90, 0x90, 0x90, 0xF0]);
    let empty = m.memory_run(0x200, 0);
    assert!(empty.is_empty());
}
