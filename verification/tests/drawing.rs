use emulator::{Emulator, Fault};

fn with_program(program: &[u8]) -> Emulator {
    let mut machine = Emulator::new();
    machine.load_rom(program).unwrap();
    machine
}

fn steps(machine: &mut Emulator, count: usize) {
    for _ in 0..count {
        assert_eq!(machine.step(0), Ok(()));
    }
}

fn lit_cells(machine: &Emulator) -> Vec<(usize, usize)> {
    let mut cells = Vec::new();
    for (index, cell) in machine.display().iter().enumerate() {
        if *cell {
            cells.push((index % 64, index / 64));
        }
    }
    cells
}

/// I = 0x20C; V0 = `vx`; V1 = `vy`; three draws of `rows` rows at (V0, V1),
/// a clear, then the sprite bytes.
fn draw_program(vx: u8, vy: u8, rows: u8, sprite: &[u8]) -> Vec<u8> {
    let mut program = vec![
        0xA2, 0x0E, 0x60, vx, 0x61, vy, 0xD0, 0x10 | rows, 0xD0, 0x10 | rows, 0xD0, 0x10 | rows,
        0x00, 0xE0,
    ];
    program.extend_from_slice(sprite);
    program
}

#[test]
fn draw_wraps_around_the_right_edge() {
    let mut machine = with_program(&draw_program(63, 0, 1, &[0xFF]));
    steps(&mut machine, 4);
    assert_eq!(
        lit_cells(&machine),
        vec![(0, 0), (1, 0), (2, 0), (3, 0), (4, 0), (5, 0), (6, 0), (63, 0)]
    );
    assert_eq!(machine.display().len(), 2048);
    assert_eq!(machine.registers()[0xF], 0);
}

#[test]
fn draw_wraps_around_the_bottom_edge() {
    let mut machine = with_program(&draw_program(0, 31, 2, &[0x80, 0x40]));
    steps(&mut machine, 4);
    assert_eq!(lit_cells(&machine), vec![(1, 0), (0, 31)]);
}

#[test]
fn draw_takes_coordinates_modulo_the_screen() {
    let mut machine = with_program(&draw_program(64 + 3, 32 + 2, 1, &[0xC0]));
    steps(&mut machine, 4);
    assert_eq!(lit_cells(&machine), vec![(3, 2), (4, 2)]);
    let mut machine = with_program(&draw_program(255, 255, 2, &[0x80, 0xC0]));
    steps(&mut machine, 4);
    assert_eq!(lit_cells(&machine), vec![(0, 0), (63, 0), (63, 31)]);
}

#[test]
fn draw_puts_the_high_bit_leftmost() {
    let mut machine = with_program(&draw_program(8, 4, 3, &[0x80, 0x01, 0x3C]));
    steps(&mut machine, 4);
    assert_eq!(
        lit_cells(&machine),
        vec![(8, 4), (15, 5), (10, 6), (11, 6), (12, 6), (13, 6)]
    );
    assert_eq!(machine.registers()[0xF], 0);
    assert_eq!(machine.program_counter(), 0x208);
    assert_eq!(machine.index_register(), 0x20E);
}

#[test]
fn draw_twice_turns_the_cells_off_and_reports_the_collision() {
    let mut machine = with_program(&draw_program(10, 5, 2, &[0xA5, 0xFF]));
    steps(&mut machine, 4);
    assert_eq!(lit_cells(&machine).len(), 12);
    assert_eq!(machine.registers()[0xF], 0);
    steps(&mut machine, 1);
    assert_eq!(lit_cells(&machine), vec![]);
    assert_eq!(machine.registers()[0xF], 1);
    steps(&mut machine, 1);
    assert_eq!(lit_cells(&machine).len(), 12);
    assert_eq!(machine.registers()[0xF], 0);
}

#[test]
fn collision_counts_for_the_whole_sprite() {
    // one cell at (0, 0), then a two-row sprite whose first row hits it and
    // whose second row does not hit anything
    let program = [
        0xA2, 0x0C, 0xD0, 0x01, 0xA2, 0x0D, 0xD0, 0x02, 0x00, 0x00, 0x00, 0x00, 0x80, 0x80, 0xFF,
    ];
    let mut machine = with_program(&program);
    steps(&mut machine, 4);
    assert_eq!(machine.registers()[0xF], 1);
    assert_eq!(
        lit_cells(&machine),
        vec![(0, 1), (1, 1), (2, 1), (3, 1), (4, 1), (5, 1), (6, 1), (7, 1)]
    );
}

#[test]
fn draw_without_overlap_reports_no_collision() {
    // a cell at (0, 0), then another sprite at (8, 0)
    let program = [0xA2, 0x0A, 0xD0, 0x01, 0x61, 0x08, 0xD1, 0x01, 0x00, 0x00, 0x80];
    let mut machine = with_program(&program);
    steps(&mut machine, 2);
    assert_eq!(machine.registers()[0xF], 0);
    steps(&mut machine, 2);
    assert_eq!(machine.registers()[0xF], 0);
    assert_eq!(lit_cells(&machine), vec![(0, 0), (8, 0)]);
}

#[test]
fn draw_of_no_rows_clears_the_flag_and_draws_nothing() {
    let mut machine = with_program(&[0x6F, 0x09, 0xAF, 0xFF, 0xD0, 0x00]);
    steps(&mut machine, 3);
    assert_eq!(lit_cells(&machine), vec![]);
    assert_eq!(machine.registers()[0xF], 0);
    assert_eq!(machine.program_counter(), 0x206);
}

#[test]
fn draw_reads_its_position_before_it_writes_the_flag() {
    // VF = 5; draw at (VF, VF)
    let program = [0x6F, 0x05, 0xA2, 0x06, 0xDF, 0xF1, 0x80];
    let mut machine = with_program(&program);
    steps(&mut machine, 3);
    assert_eq!(lit_cells(&machine), vec![(5, 5)]);
    assert_eq!(machine.registers()[0xF], 0);
}

#[test]
fn draw_beyond_memory_is_a_fault() {
    let mut machine = with_program(&[0xAF, 0xFF, 0xD0, 0x02]);
    steps(&mut machine, 1);
    let display = machine.display().to_vec();
    let registers = machine.registers().to_vec();
    assert_eq!(machine.step(0), Err(Fault::MemoryOutOfBounds { address: 0xFFF }));
    assert_eq!(machine.display().to_vec(), display);
    assert_eq!(machine.registers().to_vec(), registers);
    assert_eq!(machine.program_counter(), 0x202);
    // one row still fits
    let mut machine = with_program(&[0xAF, 0xFF, 0xD0, 0x01]);
    steps(&mut machine, 2);
    assert_eq!(machine.program_counter(), 0x204);
}

#[test]
fn draw_of_a_font_glyph_shows_the_digit() {
    // V2 = 0xA; I = glyph of V2; draw five rows at (V0, V1) = (0, 0)
    let mut machine = with_program(&[0x62, 0x0A, 0xF2, 0x29, 0xD0, 0x15]);
    steps(&mut machine, 3);
    let mut expected = Vec::new();
    for (row, byte) in [0xF0u8, 0x90, 0xF0, 0x90, 0x90].iter().enumerate() {
        for col in 0..8 {
            if byte & (0x80 >> col) != 0 {
                expected.push((col as usize, row));
            }
        }
    }
    assert_eq!(lit_cells(&machine), expected);
}

#[test]
fn cls_yields_an_all_false_grid_of_2048_cells() {
    let mut machine = with_program(&draw_program(20, 10, 4, &[0xFF, 0x81, 0x81, 0xFF]));
    steps(&mut machine, 6);
    assert!(!lit_cells(&machine).is_empty());
    let registers = machine.registers().to_vec();
    steps(&mut machine, 1);
    assert_eq!(machine.display().len(), 2048);
    assert_eq!(machine.display(), &[false; 2048]);
    assert_eq!(machine.registers().to_vec(), registers);
    assert_eq!(machine.program_counter(), 0x20E);
}

#[test]
fn framebuffer_persists_across_other_instructions() {
    let mut machine = with_program(&[0xA2, 0x08, 0xD0, 0x01, 0x60, 0x07, 0x70, 0x01, 0xFF]);
    steps(&mut machine, 2);
    let display = machine.display().to_vec();
    steps(&mut machine, 2);
    machine.tick_timers();
    assert_eq!(machine.display().to_vec(), display);
}
