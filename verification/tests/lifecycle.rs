use chip8_core::{Emu, EmuError, FONTSET, MAX_PROGRAM_SIZE, SCREEN_HEIGHT, SCREEN_WIDTH};

fn assert_power_on(emu: &Emu) {
    assert_eq!(emu.pc(), 0x200);
    assert_eq!(emu.index(), 0);
    assert_eq!(emu.delay_timer(), 0);
    assert_eq!(emu.sound_timer(), 0);
    assert_eq!(emu.stack_depth(), 0);
    for x in 0..16usize {
        assert_eq!(emu.register(x), Some(0));
        assert_eq!(emu.key(x), Some(false));
    }
    for a in 0..80usize {
        assert_eq!(emu.memory(a), Some(FONTSET[a]));
    }
    for a in 80..4096usize {
        assert_eq!(emu.memory(a), Some(0));
    }
    assert!(emu.framebuffer_snapshot().iter().all(|lit| !*lit));
    assert!(emu.lit_pixels().is_empty());
}

#[test]
fn new_machine_is_at_power_on() {
    let emu = Emu::new();
    assert_power_on(&emu);
}

#[test]
fn screen_constants_match_the_snapshot() {
    let emu = Emu::new();
    assert_eq!(SCREEN_WIDTH, 64);
    assert_eq!(SCREEN_HEIGHT, 32);
    assert_eq!(emu.framebuffer_snapshot().len(), SCREEN_WIDTH * SCREEN_HEIGHT);
}

#[test]
fn font_table_holds_the_glyphs() {
    let emu = Emu::new();
    assert_eq!(emu.memory(0), Some(0xF0));
    assert_eq!(emu.memory(5), Some(0x20));
    assert_eq!(emu.memory(9), Some(0x70));
    assert_eq!(emu.memory(75), Some(0xF0));
    assert_eq!(emu.memory(79), Some(0x80));
}

#[test]
fn reset_restores_power_on_from_a_used_machine() {
    let mut emu = Emu::new();
    // V0 = 3, V1 = 4, DT = V0, ST = V1, draw the glyph at I = 0, call 0x20C, I = 0x123.
    let program: [u8; 14] = [
        0x60, 0x03, 0x61, 0x04, 0xF0, 0x15, 0xF1, 0x18, 0xD0, 0x15, 0x22, 0x0C, 0xA1, 0x23,
    ];
    assert_eq!(emu.load_program(&program), Ok(()));
    for _ in 0..7 {
        assert_eq!(emu.tick_with(0), Ok(()));
    }
    assert_eq!(emu.set_key(9, true), Ok(()));
    assert_eq!(emu.stack_depth(), 1);
    assert_eq!(emu.index(), 0x123);
    assert!(!emu.lit_pixels().is_empty());
    emu.reset();
    assert_power_on(&emu);
}

#[test]
fn reset_is_idempotent() {
    let mut emu = Emu::new();
    emu.reset();
    assert_power_on(&emu);
    emu.reset();
    assert_power_on(&emu);
}

#[test]
fn load_program_copies_bytes_at_0x200() {
    let mut emu = Emu::new();
    let program: [u8; 5] = [0x12, 0x34, 0x56, 0x78, 0x9A];
    assert_eq!(emu.load_program(&program), Ok(()));
    assert_eq!(emu.memory(0x1FF), Some(0));
    assert_eq!(emu.memory(0x200), Some(0x12));
    assert_eq!(emu.memory(0x201), Some(0x34));
    assert_eq!(emu.memory(0x202), Some(0x56));
    assert_eq!(emu.memory(0x203), Some(0x78));
    assert_eq!(emu.memory(0x204), Some(0x9A));
    assert_eq!(emu.memory(0x205), Some(0));
    assert_eq!(emu.pc(), 0x200);
    assert_eq!(emu.memory(0), Some(0xF0));
}

#[test]
fn load_program_leaves_bytes_behind_a_shorter_program() {
    let mut emu = Emu::new();
    assert_eq!(emu.load_program(&[1, 2, 3, 4]), Ok(()));
    assert_eq!(emu.load_program(&[9, 8]), Ok(()));
    assert_eq!(emu.memory(0x200), Some(9));
    assert_eq!(emu.memory(0x201), Some(8));
    assert_eq!(emu.memory(0x202), Some(3));
    assert_eq!(emu.memory(0x203), Some(4));
}

#[test]
fn load_program_takes_an_empty_program() {
    let mut emu = Emu::new();
    assert_eq!(emu.load_program(&[]), Ok(()));
    assert_power_on(&emu);
}

#[test]
fn load_program_takes_the_largest_program() {
    let mut emu = Emu::new();
    let program: Vec<u8> = vec![0xAB; MAX_PROGRAM_SIZE];
    assert_eq!(MAX_PROGRAM_SIZE, 4096 - 0x200);
    assert_eq!(emu.load_program(&program), Ok(()));
    assert_eq!(emu.memory(0x200), Some(0xAB));
    assert_eq!(emu.memory(4095), Some(0xAB));
    assert_eq!(emu.memory(0x1FF), Some(0));
}

#[test]
fn load_program_refuses_one_byte_too_many() {
    let mut emu = Emu::new();
    let program: Vec<u8> = vec![0xAB; MAX_PROGRAM_SIZE + 1];
    assert_eq!(emu.load_program(&program), Err(EmuError::ProgramTooLarge { len: 3585 }));
    assert_power_on(&emu);
}

#[test]
fn set_key_latches_and_releases() {
    let mut emu = Emu::new();
    assert_eq!(emu.set_key(0, true), Ok(()));
    assert_eq!(emu.set_key(15, true), Ok(()));
    assert_eq!(emu.key(0), Some(true));
    assert_eq!(emu.key(15), Some(true));
    assert_eq!(emu.key(7), Some(false));
    assert_eq!(emu.set_key(0, false), Ok(()));
    assert_eq!(emu.key(0), Some(false));
    assert_eq!(emu.key(15), Some(true));
}

#[test]
fn set_key_refuses_an_index_out_of_range() {
    let mut emu = Emu::new();
    assert_eq!(emu.set_key(16, true), Err(EmuError::KeyOutOfRange { index: 16 }));
    assert_eq!(emu.set_key(usize::MAX, true), Err(EmuError::KeyOutOfRange { index: usize::MAX }));
    for k in 0..16usize {
        assert_eq!(emu.key(k), Some(false));
    }
}

#[test]
fn getters_refuse_what_lies_outside() {
    let emu = Emu::new();
    assert_eq!(emu.register(16), None);
    assert_eq!(emu.memory(4096), None);
    assert_eq!(emu.key(16), None);
}

#[test]
fn tick_timers_counts_down_and_stops_at_zero() {
    let mut emu = Emu::new();
    // V0 = 2, DT = V0.
    assert_eq!(emu.load_program(&[0x60, 0x02, 0xF0, 0x15]), Ok(()));
    assert_eq!(emu.tick_with(0), Ok(()));
    assert_eq!(emu.tick_with(0), Ok(()));
    assert_eq!(emu.delay_timer(), 2);
    assert!(!emu.tick_timers());
    assert_eq!(emu.delay_timer(), 1);
    assert!(!emu.tick_timers());
    assert_eq!(emu.delay_timer(), 0);
    assert!(!emu.tick_timers());
    assert_eq!(emu.delay_timer(), 0);
    assert_eq!(emu.sound_timer(), 0);
}

#[test]
fn tick_timers_buzzes_on_the_last_unit_of_the_sound_timer() {
    let mut emu = Emu::new();
    // V0 = 3, ST = V0.
    assert_eq!(emu.load_program(&[0x60, 0x03, 0xF0, 0x18]), Ok(()));
    assert_eq!(emu.tick_with(0), Ok(()));
    assert_eq!(emu.tick_with(0), Ok(()));
    assert_eq!(emu.sound_timer(), 3);
    assert!(!emu.tick_timers());
    assert_eq!(emu.sound_timer(), 2);
    assert!(!emu.tick_timers());
    assert_eq!(emu.sound_timer(), 1);
    assert!(emu.tick_timers());
    assert_eq!(emu.sound_timer(), 0);
    assert!(!emu.tick_timers());
    assert_eq!(emu.sound_timer(), 0);
}

#[test]
fn tick_timers_leaves_the_program_counter_alone() {
    let mut emu = Emu::new();
    emu.tick_timers();
    assert_power_on(&emu);
}
