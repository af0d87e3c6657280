use chip8_core::Emu;

fn machine(program: &[u8]) -> Emu {
    let mut emu = Emu::new();
    assert_eq!(emu.load_program(program), Ok(()));
    emu
}

fn run(emu: &mut Emu, ticks: usize) {
    for _ in 0..ticks {
        assert_eq!(emu.tick_with(0), Ok(()));
    }
}

fn lit(emu: &Emu, x: usize, y: usize) -> bool {
    emu.framebuffer_snapshot()[x + 64 * y]
}

#[test]
fn draw_glyph_zero_at_the_origin() {
    // I = 0 and V0 = 0 at power-on: draw the five rows of glyph "0" at (0, 0).
    let mut emu = machine(&[0xD0, 0x05]);
    run(&mut emu, 1);
    let rows: [u8; 5] = [0xF0, 0x90, 0x90, 0x90, 0xF0];
    for y in 0..32usize {
        for x in 0..64usize {
            let expected: bool = y < 5 && x < 8 && rows[y] & (0x80 >> x) != 0;
            assert_eq!(lit(&emu, x, y), expected);
        }
    }
    assert_eq!(emu.register(0xF), Some(0));
    assert_eq!(emu.pc(), 0x202);
    assert_eq!(emu.index(), 0);
}

#[test]
fn draw_puts_the_highest_bit_leftmost() {
    // sprite 0x80 at (10, 3), then sprite 0x01 at (20, 3).
    let mut emu = machine(&[
        0x60, 0x0A, 0x61, 0x03, 0xA2, 0x10, 0xD0, 0x11, 0x60, 0x14, 0xA2, 0x11, 0xD0, 0x11, 0x00,
        0x00, 0x80, 0x01,
    ]);
    run(&mut emu, 7);
    assert_eq!(emu.lit_pixels(), vec![(10, 3), (27, 3)]);
}

#[test]
fn draw_wraps_columns_and_rows() {
    // V0 = 60, V1 = 30, I = 0x208, four rows of 0xFF.
    let mut emu = machine(&[
        0x60, 0x3C, 0x61, 0x1E, 0xA2, 0x08, 0xD0, 0x14, 0xFF, 0xFF, 0xFF, 0xFF,
    ]);
    run(&mut emu, 4);
    let columns: [usize; 8] = [0, 1, 2, 3, 60, 61, 62, 63];
    let rows: [usize; 4] = [0, 1, 30, 31];
    let mut expected: Vec<(usize, usize)> = Vec::new();
    for y in rows {
        for x in columns {
            expected.push((x, y));
        }
    }
    assert_eq!(emu.lit_pixels(), expected);
    for y in 0..32usize {
        for x in 0..64usize {
            assert_eq!(lit(&emu, x, y), columns.contains(&x) && rows.contains(&y));
        }
    }
    assert_eq!(emu.register(0xF), Some(0));
}

#[test]
fn draw_takes_coordinates_modulo_the_display() {
    // V0 = 64 + 5, V1 = 32 * 7 + 2: the same place as (5, 2).
    let mut emu = machine(&[0x60, 0x45, 0x61, 0xE2, 0xA2, 0x08, 0xD0, 0x11, 0xC0]);
    run(&mut emu, 4);
    assert_eq!(emu.lit_pixels(), vec![(5, 2), (6, 2)]);
}

#[test]
fn draw_twice_restores_the_display_and_reports_the_erasure() {
    // glyph "0" drawn over glyph "8" at (3, 4); then glyph "0" twice more.
    let mut emu = machine(&[
        0x60, 0x03, 0x61, 0x04, 0x62, 0x08, 0xF2, 0x29, 0xD0, 0x15, 0x62, 0x07, 0xF2, 0x29, 0xD0,
        0x15, 0xD0, 0x15,
    ]);
    run(&mut emu, 5);
    let before: Vec<bool> = emu.framebuffer_snapshot().to_vec();
    assert_eq!(emu.register(0xF), Some(0));
    run(&mut emu, 3);
    // glyph "7" shares lit pixels with glyph "8": some went off.
    assert_eq!(emu.register(0xF), Some(1));
    assert_ne!(emu.framebuffer_snapshot().to_vec(), before);
    run(&mut emu, 1);
    assert_eq!(emu.framebuffer_snapshot().to_vec(), before);
    assert_eq!(emu.register(0xF), Some(1));
}

#[test]
fn draw_twice_on_a_dark_display_erases_everything() {
    let mut emu = machine(&[0xD0, 0x05, 0xD0, 0x05]);
    run(&mut emu, 1);
    assert_eq!(emu.register(0xF), Some(0));
    assert_eq!(emu.lit_pixels().len(), 14);
    run(&mut emu, 1);
    assert_eq!(emu.register(0xF), Some(1));
    assert!(emu.lit_pixels().is_empty());
}

#[test]
fn second_draw_of_a_sprite_that_was_wholly_lit_reports_nothing() {
    // one pixel at (0, 0), drawn three times: on (VF 0), off (VF 1), on again (VF 0).
    let mut emu = machine(&[0xA2, 0x08, 0xD0, 0x01, 0xD0, 0x01, 0xD0, 0x01, 0x80]);
    run(&mut emu, 2);
    assert_eq!(emu.register(0xF), Some(0));
    run(&mut emu, 1);
    assert_eq!(emu.register(0xF), Some(1));
    run(&mut emu, 1);
    assert_eq!(emu.register(0xF), Some(0));
    assert_eq!(emu.lit_pixels(), vec![(0, 0)]);
}

#[test]
fn draw_recomputes_the_flag_each_time() {
    // a collision, then a draw elsewhere: VF goes back to 0.
    let mut emu = machine(&[0xD0, 0x05, 0xD0, 0x05, 0x60, 0x20, 0xD0, 0x05]);
    run(&mut emu, 2);
    assert_eq!(emu.register(0xF), Some(1));
    run(&mut emu, 2);
    assert_eq!(emu.register(0xF), Some(0));
}

#[test]
fn draw_of_a_blank_sprite_changes_nothing() {
    // memory at 0x300 is zero.
    let mut emu = machine(&[0xD0, 0x05, 0xA3, 0x00, 0xD0, 0x0F]);
    run(&mut emu, 1);
    let before: Vec<bool> = emu.framebuffer_snapshot().to_vec();
    run(&mut emu, 2);
    assert_eq!(emu.framebuffer_snapshot().to_vec(), before);
    assert_eq!(emu.register(0xF), Some(0));
}

#[test]
fn draw_fifteen_rows() {
    let mut program: Vec<u8> = vec![0xA2, 0x04, 0xD0, 0x0F];
    for _ in 0..15 {
        program.push(0x81);
    }
    let mut emu = machine(&program);
    run(&mut emu, 2);
    let cells: Vec<(usize, usize)> = emu.lit_pixels();
    assert_eq!(cells.len(), 30);
    for y in 0..15usize {
        assert_eq!(cells[2 * y], (0, y));
        assert_eq!(cells[2 * y + 1], (7, y));
    }
}

#[test]
fn clear_screen_switches_everything_off() {
    let mut emu = machine(&[0xD0, 0x05, 0x00, 0xE0]);
    run(&mut emu, 1);
    assert!(lit(&emu, 0, 0));
    run(&mut emu, 1);
    assert!(emu.framebuffer_snapshot().iter().all(|pixel| !*pixel));
    assert_eq!(emu.pc(), 0x204);
    assert_eq!(emu.memory(0), Some(0xF0));
}

#[test]
fn lit_pixels_lists_row_by_row() {
    // one pixel at (63, 0), one at (0, 1), one at (5, 31).
    let mut emu = machine(&[
        0xA2, 0x14, 0x60, 0x3F, 0xD0, 0x11, 0x60, 0x00, 0x61, 0x01, 0xD0, 0x11, 0x60, 0x05, 0x61,
        0x1F, 0xD0, 0x11, 0x00, 0x00, 0x80,
    ]);
    run(&mut emu, 9);
    assert_eq!(emu.lit_pixels(), vec![(63, 0), (0, 1), (5, 31)]);
}
