use emulator::{Emulator, Fault};

fn loaded(program: &[u8]) -> Emulator {
    let mut machine = Emulator::new();
    machine.load_rom(program).unwrap();
    machine
}

fn run(machine: &mut Emulator, steps: usize) {
    for _ in 0..steps {
        assert_eq!(machine.step(0), Ok(()));
    }
}

/// Runs `program` to its end, one step for each two bytes.
fn ran(program: &[u8]) -> Emulator {
    let mut machine = loaded(program);
    run(&mut machine, program.len() / 2);
    machine
}

fn snapshot(machine: &Emulator) -> (Vec<u8>, Vec<u8>, Vec<u16>, Vec<bool>, Vec<bool>, [u16; 2], [u8; 3]) {
    (
        machine.memory().to_vec(),
        machine.registers().to_vec(),
        machine.stack().to_vec(),
        machine.keys().to_vec(),
        machine.display().to_vec(),
        [machine.program_counter(), machine.index_register()],
        [machine.stack_pointer(), machine.delay_timer(), machine.sound_timer()],
    )
}

#[test]
fn load_then_add_zero_keeps_the_value() {
    for x in 0..16u8 {
        for kk in 0..=255u8 {
            let machine = ran(&[0x60 | x, kk, 0x70 | x, 0x00]);
            assert_eq!(machine.registers()[x as usize], kk);
            assert_eq!(machine.program_counter(), 0x204);
        }
    }
}

#[test]
fn add_byte_wraps_without_a_flag() {
    let machine = ran(&[0x63, 0xF0, 0x73, 0x20]);
    assert_eq!(machine.registers()[3], 0x10);
    assert_eq!(machine.registers()[0xF], 0);
}

#[test]
fn add_with_carry() {
    let machine = ran(&[0x60, 0xFF, 0x61, 0x01, 0x80, 0x14]);
    assert_eq!(machine.registers()[0], 0x00);
    assert_eq!(machine.registers()[0xF], 1);
    assert_eq!(machine.registers()[1], 0x01);
}

#[test]
fn add_without_carry_clears_the_flag() {
    let machine = ran(&[0x6F, 0x01, 0x60, 0x10, 0x61, 0x22, 0x80, 0x14]);
    assert_eq!(machine.registers()[0], 0x32);
    assert_eq!(machine.registers()[0xF], 0);
}

#[test]
fn add_into_the_flag_register_leaves_the_carry() {
    // VF = 0xFF; V1 = 2; VF += V1
    let machine = ran(&[0x6F, 0xFF, 0x61, 0x02, 0x8F, 0x14]);
    assert_eq!(machine.registers()[0xF], 1);
    // VF = 3; V1 = 2; VF += V1
    let machine = ran(&[0x6F, 0x03, 0x61, 0x02, 0x8F, 0x14]);
    assert_eq!(machine.registers()[0xF], 0);
}

#[test]
fn sub_no_borrow_flag() {
    let machine = ran(&[0x62, 0x05, 0x63, 0x03, 0x82, 0x35]);
    assert_eq!(machine.registers()[2], 2);
    assert_eq!(machine.registers()[0xF], 1);
    let machine = ran(&[0x62, 0x03, 0x63, 0x05, 0x82, 0x35]);
    assert_eq!(machine.registers()[2], 0xFE);
    assert_eq!(machine.registers()[0xF], 0);
}

#[test]
fn sub_of_equal_values_is_no_borrow() {
    let machine = ran(&[0x62, 0x07, 0x63, 0x07, 0x82, 0x35]);
    assert_eq!(machine.registers()[2], 0);
    assert_eq!(machine.registers()[0xF], 1);
}

#[test]
fn subn_subtracts_the_other_way() {
    let machine = ran(&[0x62, 0x03, 0x63, 0x05, 0x82, 0x37]);
    assert_eq!(machine.registers()[2], 2);
    assert_eq!(machine.registers()[3], 5);
    assert_eq!(machine.registers()[0xF], 1);
    let machine = ran(&[0x62, 0x05, 0x63, 0x03, 0x82, 0x37]);
    assert_eq!(machine.registers()[2], 0xFE);
    assert_eq!(machine.registers()[0xF], 0);
}

#[test]
fn shr_moves_bit_zero_into_the_flag() {
    let machine = ran(&[0x64, 0x05, 0x84, 0x06]);
    assert_eq!(machine.registers()[4], 0x02);
    assert_eq!(machine.registers()[0xF], 1);
    let machine = ran(&[0x64, 0xFE, 0x84, 0x06]);
    assert_eq!(machine.registers()[4], 0x7F);
    assert_eq!(machine.registers()[0xF], 0);
}

#[test]
fn shl_moves_bit_seven_into_the_flag() {
    let machine = ran(&[0x64, 0x81, 0x84, 0x0E]);
    assert_eq!(machine.registers()[4], 0x02);
    assert_eq!(machine.registers()[0xF], 1);
    let machine = ran(&[0x64, 0x7F, 0x84, 0x0E]);
    assert_eq!(machine.registers()[4], 0xFE);
    assert_eq!(machine.registers()[0xF], 0);
}

#[test]
fn shifts_do_not_read_the_second_register() {
    let machine = ran(&[0x64, 0x04, 0x65, 0xFF, 0x84, 0x56]);
    assert_eq!(machine.registers()[4], 0x02);
    assert_eq!(machine.registers()[5], 0xFF);
    let machine = ran(&[0x64, 0x04, 0x65, 0xFF, 0x84, 0x5E]);
    assert_eq!(machine.registers()[4], 0x08);
    assert_eq!(machine.registers()[5], 0xFF);
}

#[test]
fn assign_or_and_xor_leave_the_flag_alone() {
    let machine = ran(&[0x6F, 0x07, 0x61, 0x5A, 0x80, 0x10]);
    assert_eq!(machine.registers()[0], 0x5A);
    assert_eq!(machine.registers()[0xF], 0x07);
    let machine = ran(&[0x6F, 0x07, 0x60, 0xF0, 0x61, 0x3C, 0x80, 0x11]);
    assert_eq!(machine.registers()[0], 0xFC);
    assert_eq!(machine.registers()[0xF], 0x07);
    let machine = ran(&[0x6F, 0x07, 0x60, 0xF0, 0x61, 0x3C, 0x80, 0x12]);
    assert_eq!(machine.registers()[0], 0x30);
    assert_eq!(machine.registers()[0xF], 0x07);
    let machine = ran(&[0x6F, 0x07, 0x60, 0xF0, 0x61, 0x3C, 0x80, 0x13]);
    assert_eq!(machine.registers()[0], 0xCC);
    assert_eq!(machine.registers()[0xF], 0x07);
}

#[test]
fn skip_advances_by_four_when_taken_and_by_two_when_not() {
    // 3xkk
    let mut machine = loaded(&[0x61, 0x22, 0x31, 0x22]);
    run(&mut machine, 2);
    assert_eq!(machine.program_counter(), 0x202 + 4);
    let mut machine = loaded(&[0x61, 0x22, 0x31, 0x23]);
    run(&mut machine, 2);
    assert_eq!(machine.program_counter(), 0x202 + 2);
    // 4xkk
    let mut machine = loaded(&[0x61, 0x22, 0x41, 0x23]);
    run(&mut machine, 2);
    assert_eq!(machine.program_counter(), 0x202 + 4);
    let mut machine = loaded(&[0x61, 0x22, 0x41, 0x22]);
    run(&mut machine, 2);
    assert_eq!(machine.program_counter(), 0x202 + 2);
    // 5xy0
    let mut machine = loaded(&[0x61, 0x22, 0x62, 0x22, 0x51, 0x20]);
    run(&mut machine, 3);
    assert_eq!(machine.program_counter(), 0x204 + 4);
    let mut machine = loaded(&[0x61, 0x22, 0x62, 0x23, 0x51, 0x20]);
    run(&mut machine, 3);
    assert_eq!(machine.program_counter(), 0x204 + 2);
    // 9xy0
    let mut machine = loaded(&[0x61, 0x22, 0x62, 0x23, 0x91, 0x20]);
    run(&mut machine, 3);
    assert_eq!(machine.program_counter(), 0x204 + 4);
    let mut machine = loaded(&[0x61, 0x22, 0x62, 0x22, 0x91, 0x20]);
    run(&mut machine, 3);
    assert_eq!(machine.program_counter(), 0x204 + 2);
}

#[test]
fn key_skips_follow_the_key_named_by_the_register() {
    // Ex9E with the key down, then up
    let mut machine = loaded(&[0x61, 0x0B, 0xE1, 0x9E]);
    machine.set_key_press(0xB, true).unwrap();
    run(&mut machine, 2);
    assert_eq!(machine.program_counter(), 0x202 + 4);
    let mut machine = loaded(&[0x61, 0x0B, 0xE1, 0x9E]);
    machine.set_key_press(0xA, true).unwrap();
    run(&mut machine, 2);
    assert_eq!(machine.program_counter(), 0x202 + 2);
    // ExA1 with the key up, then down
    let mut machine = loaded(&[0x61, 0x0B, 0xE1, 0xA1]);
    run(&mut machine, 2);
    assert_eq!(machine.program_counter(), 0x202 + 4);
    let mut machine = loaded(&[0x61, 0x0B, 0xE1, 0xA1]);
    machine.set_key_press(0xB, true).unwrap();
    run(&mut machine, 2);
    assert_eq!(machine.program_counter(), 0x202 + 2);
}

#[test]
fn key_skip_on_a_key_outside_the_pad_is_a_fault() {
    for second in [0x9Eu8, 0xA1] {
        let mut machine = loaded(&[0x61, 0x10, 0xE1, second]);
        run(&mut machine, 1);
        let before = snapshot(&machine);
        assert_eq!(machine.step(0), Err(Fault::InvalidKey { key: 0x10 }));
        assert_eq!(snapshot(&machine), before);
    }
}

#[test]
fn jump_sets_the_program_counter() {
    let machine = ran(&[0x1A, 0xBC]);
    assert_eq!(machine.program_counter(), 0xABC);
}

#[test]
fn jump_with_offset_adds_v0() {
    let machine = ran(&[0x60, 0xFF, 0xBF, 0xFF]);
    assert_eq!(machine.program_counter(), 0xFFF + 0xFF);
    let machine = ran(&[0x60, 0x04, 0xB3, 0x00]);
    assert_eq!(machine.program_counter(), 0x304);
}

#[test]
fn call_pushes_the_return_address_and_ret_pops_it() {
    // 0x200: call 0x206; 0x202: V1 = 1; 0x204: jump 0x204; 0x206: V0 = 9; 0x208: ret
    let mut machine = loaded(&[0x22, 0x06, 0x61, 0x01, 0x12, 0x04, 0x60, 0x09, 0x00, 0xEE]);
    run(&mut machine, 1);
    assert_eq!(machine.program_counter(), 0x206);
    assert_eq!(machine.stack_pointer(), 1);
    assert_eq!(machine.stack()[0], 0x202);
    run(&mut machine, 2);
    assert_eq!(machine.program_counter(), 0x202);
    assert_eq!(machine.stack_pointer(), 0);
    assert_eq!(machine.registers()[0], 9);
    run(&mut machine, 1);
    assert_eq!(machine.registers()[1], 1);
}

#[test]
fn ret_on_an_empty_stack_is_a_fault() {
    let mut machine = loaded(&[0x00, 0xEE]);
    let before = snapshot(&machine);
    assert_eq!(machine.step(0), Err(Fault::StackUnderflow));
    assert_eq!(snapshot(&machine), before);
    assert_eq!(machine.step(0), Err(Fault::StackUnderflow));
}

#[test]
fn seventeenth_nested_call_is_a_fault() {
    // a subroutine that calls itself
    let mut machine = loaded(&[0x22, 0x00]);
    run(&mut machine, 16);
    assert_eq!(machine.stack_pointer(), 16);
    assert_eq!(machine.stack(), &[0x202u16; 16]);
    let before = snapshot(&machine);
    assert_eq!(machine.step(0), Err(Fault::StackOverflow));
    assert_eq!(snapshot(&machine), before);
}

#[test]
fn unknown_opcode_is_a_fault() {
    let mut machine = loaded(&[0xFF, 0xFF]);
    let before = snapshot(&machine);
    assert_eq!(machine.step(0), Err(Fault::UnknownOpcode { opcode: 0xFFFF }));
    assert_eq!(snapshot(&machine), before);
    assert_eq!(machine.tick(), Err(Fault::UnknownOpcode { opcode: 0xFFFF }));
    assert_eq!(snapshot(&machine), before);
}

#[test]
fn empty_memory_holds_no_instruction() {
    let mut machine = Emulator::new();
    assert_eq!(machine.step(0), Err(Fault::UnknownOpcode { opcode: 0x0000 }));
    assert_eq!(machine.program_counter(), 0x200);
}

#[test]
fn fetch_beyond_memory_is_a_fault() {
    // jump to the last byte of memory: the word there has no second byte
    let mut machine = loaded(&[0x1F, 0xFF]);
    run(&mut machine, 1);
    let before = snapshot(&machine);
    assert_eq!(machine.step(0), Err(Fault::MemoryOutOfBounds { address: 0xFFF }));
    assert_eq!(snapshot(&machine), before);
    assert_eq!(machine.tick(), Err(Fault::MemoryOutOfBounds { address: 0xFFF }));
    // V0 = 1; jump to 0xFFF + V0
    let mut machine = loaded(&[0x60, 0x01, 0xBF, 0xFF]);
    run(&mut machine, 2);
    assert_eq!(machine.step(0), Err(Fault::MemoryOutOfBounds { address: 0x1000 }));
}

#[test]
fn last_word_of_memory_can_be_fetched() {
    let mut rom = vec![0u8; 3584];
    rom[0] = 0x1F;
    rom[1] = 0xFE;
    rom[3582] = 0x6A;
    rom[3583] = 0x42;
    let mut machine = loaded(&rom);
    run(&mut machine, 2);
    assert_eq!(machine.registers()[0xA], 0x42);
    assert_eq!(machine.program_counter(), 0x1000);
    assert_eq!(machine.step(0), Err(Fault::MemoryOutOfBounds { address: 0x1000 }));
}

#[test]
fn load_i_sets_the_address_register() {
    let machine = ran(&[0xAF, 0xED]);
    assert_eq!(machine.index_register(), 0xFED);
    assert_eq!(machine.program_counter(), 0x202);
}

#[test]
fn add_to_i_stays_within_twelve_bits() {
    let machine = ran(&[0xA1, 0x00, 0x60, 0x23, 0xF0, 0x1E]);
    assert_eq!(machine.index_register(), 0x123);
    let machine = ran(&[0xAF, 0xFF, 0x60, 0x01, 0xF0, 0x1E]);
    assert_eq!(machine.index_register(), 0x000);
    let machine = ran(&[0xAF, 0xF0, 0x60, 0xFF, 0xF0, 0x1E]);
    assert_eq!(machine.index_register(), 0x0EF);
}

#[test]
fn random_instruction_masks_the_byte_it_is_given() {
    let mut machine = loaded(&[0xC3, 0x0F, 0xC4, 0xFF, 0xC5, 0x00]);
    assert_eq!(machine.step(0xA7), Ok(()));
    assert_eq!(machine.registers()[3], 0x07);
    assert_eq!(machine.step(0xA7), Ok(()));
    assert_eq!(machine.registers()[4], 0xA7);
    assert_eq!(machine.step(0xA7), Ok(()));
    assert_eq!(machine.registers()[5], 0x00);
    assert_eq!(machine.program_counter(), 0x206);
}

#[test]
fn tick_draws_a_byte_within_the_mask() {
    for _ in 0..200 {
        let mut machine = loaded(&[0x63, 0xFF, 0xC3, 0x3C, 0xC4, 0x00]);
        assert_eq!(machine.tick(), Ok(()));
        assert_eq!(machine.tick(), Ok(()));
        assert_eq!(machine.registers()[3] & !0x3C, 0);
        assert_eq!(machine.tick(), Ok(()));
        assert_eq!(machine.registers()[4], 0);
        assert_eq!(machine.program_counter(), 0x206);
    }
}

#[test]
fn tick_and_step_agree_on_every_other_instruction() {
    let program = [
        0x60, 0xFF, 0x61, 0x01, 0x80, 0x14, 0xA2, 0x10, 0xF1, 0x55, 0xF0, 0x33, 0x22, 0x0E, 0x00,
        0xEE, 0xD0, 0x15,
    ];
    let mut ticked = loaded(&program);
    let mut stepped = loaded(&program);
    for _ in 0..9 {
        assert_eq!(ticked.tick(), stepped.step(0x5A));
        assert_eq!(snapshot(&ticked), snapshot(&stepped));
    }
}

#[test]
fn timers_are_read_and_written_through_registers() {
    let machine = ran(&[0x60, 0x2A, 0xF0, 0x15, 0xF1, 0x07, 0x62, 0x11, 0xF2, 0x18]);
    assert_eq!(machine.delay_timer(), 0x2A);
    assert_eq!(machine.registers()[1], 0x2A);
    assert_eq!(machine.sound_timer(), 0x11);
}

#[test]
fn wait_for_key_repeats_until_a_key_is_down() {
    let mut machine = loaded(&[0xF5, 0x0A, 0x61, 0x01]);
    let before = snapshot(&machine);
    run(&mut machine, 3);
    assert_eq!(snapshot(&machine), before);
    machine.set_key_press(7, true).unwrap();
    machine.set_key_press(3, true).unwrap();
    machine.set_key_press(0xF, true).unwrap();
    run(&mut machine, 1);
    assert_eq!(machine.registers()[5], 3);
    assert_eq!(machine.program_counter(), 0x202);
    run(&mut machine, 1);
    assert_eq!(machine.registers()[1], 1);
}

#[test]
fn wait_for_key_takes_key_zero_first() {
    let mut machine = loaded(&[0xF5, 0x0A]);
    machine.set_key_press(0, true).unwrap();
    machine.set_key_press(1, true).unwrap();
    run(&mut machine, 1);
    assert_eq!(machine.registers()[5], 0);
    assert_eq!(machine.program_counter(), 0x202);
}

#[test]
fn wait_for_key_does_not_touch_the_timers() {
    let mut machine = loaded(&[0x60, 0x09, 0xF0, 0x15, 0xF0, 0x18, 0xF5, 0x0A]);
    run(&mut machine, 5);
    assert_eq!(machine.delay_timer(), 9);
    assert_eq!(machine.sound_timer(), 9);
    assert_eq!(machine.program_counter(), 0x206);
}

#[test]
fn font_address_is_five_times_the_digit() {
    for digit in 0..16u8 {
        let machine = ran(&[0x62, digit, 0xF2, 0x29]);
        assert_eq!(machine.index_register(), 5 * digit as u16);
    }
}

#[test]
fn font_address_of_no_digit_is_a_fault() {
    let mut machine = loaded(&[0x62, 0x10, 0xF2, 0x29]);
    run(&mut machine, 1);
    let before = snapshot(&machine);
    assert_eq!(machine.step(0), Err(Fault::InvalidDigit { value: 0x10 }));
    assert_eq!(snapshot(&machine), before);
}

#[test]
fn bcd_stores_hundreds_tens_and_units() {
    let machine = ran(&[0xA3, 0x00, 0x60, 254, 0xF0, 0x33]);
    assert_eq!(&machine.memory()[0x300..0x303], &[2, 5, 4]);
    assert_eq!(machine.index_register(), 0x300);
    let machine = ran(&[0xA3, 0x00, 0x60, 7, 0xF0, 0x33]);
    assert_eq!(&machine.memory()[0x300..0x303], &[0, 0, 7]);
    let machine = ran(&[0xA3, 0x00, 0x60, 100, 0xF0, 0x33]);
    assert_eq!(&machine.memory()[0x300..0x303], &[1, 0, 0]);
    let machine = ran(&[0xAF, 0xFD, 0x60, 199, 0xF0, 0x33]);
    assert_eq!(&machine.memory()[0xFFD..0x1000], &[1, 9, 9]);
}

#[test]
fn bcd_beyond_memory_is_a_fault() {
    let mut machine = loaded(&[0xAF, 0xFE, 0x60, 254, 0xF0, 0x33]);
    run(&mut machine, 2);
    let before = snapshot(&machine);
    assert_eq!(machine.step(0), Err(Fault::MemoryOutOfBounds { address: 0xFFE }));
    assert_eq!(snapshot(&machine), before);
}

#[test]
fn store_registers_includes_vx() {
    let machine = ran(&[0x60, 0x11, 0x61, 0x22, 0x62, 0x33, 0xA3, 0x00, 0xF1, 0x55]);
    assert_eq!(&machine.memory()[0x300..0x303], &[0x11, 0x22, 0x00]);
    assert_eq!(machine.index_register(), 0x300);
    assert_eq!(&machine.registers()[..3], &[0x11, 0x22, 0x33]);
}

#[test]
fn load_registers_includes_vx() {
    // I = 0x20A; load V0..=V1; data follows the program
    let machine = ran(&[0x62, 0x77, 0xA2, 0x0A, 0xF1, 0x65, 0x00, 0x00, 0x00, 0x00, 0xAA, 0xBB, 0xCC][..6]);
    assert_eq!(&machine.registers()[..3], &[0, 0, 0x77]);
    let mut machine = loaded(&[0x62, 0x77, 0xA2, 0x0A, 0xF1, 0x65, 0x00, 0x00, 0x00, 0x00, 0xAA, 0xBB, 0xCC]);
    run(&mut machine, 3);
    assert_eq!(&machine.registers()[..3], &[0xAA, 0xBB, 0x77]);
    assert_eq!(machine.index_register(), 0x20A);
}

#[test]
fn store_then_load_restores_the_registers() {
    for x in 0..16u8 {
        let mut program = Vec::new();
        for r in 0..16u8 {
            program.extend_from_slice(&[0x60 | r, 0x10 + r]);
        }
        program.extend_from_slice(&[0xA4, 0x00, 0xF0 | x, 0x55]);
        for r in 0..16u8 {
            program.extend_from_slice(&[0x60 | r, 0xEE]);
        }
        program.extend_from_slice(&[0xF0 | x, 0x65]);
        let machine = ran(&program);
        for r in 0..16u8 {
            let expected = if r <= x { 0x10 + r } else { 0xEE };
            assert_eq!(machine.registers()[r as usize], expected);
        }
        assert_eq!(machine.index_register(), 0x400);
    }
}

#[test]
fn block_copies_beyond_memory_are_faults() {
    for second in [0x55u8, 0x65] {
        // I = 0xFFE with x = 2 needs 0xFFE..=0x1000
        let mut machine = loaded(&[0xAF, 0xFE, 0xF2, second]);
        run(&mut machine, 1);
        let before = snapshot(&machine);
        assert_eq!(machine.step(0), Err(Fault::MemoryOutOfBounds { address: 0xFFE }));
        assert_eq!(snapshot(&machine), before);
        // with x = 1 it fits
        let mut machine = loaded(&[0xAF, 0xFE, 0xF1, second]);
        run(&mut machine, 2);
        assert_eq!(machine.program_counter(), 0x204);
    }
}

#[test]
fn a_faulted_machine_faults_again() {
    let mut machine = loaded(&[0x60, 0x01, 0xFF, 0xFF, 0x61, 0x02]);
    run(&mut machine, 1);
    for _ in 0..3 {
        assert_eq!(machine.step(0), Err(Fault::UnknownOpcode { opcode: 0xFFFF }));
        assert_eq!(machine.program_counter(), 0x202);
    }
    assert_eq!(machine.registers()[1], 0);
}

#[test]
fn awaiting_key_tells_a_wait_from_progress() {
    let mut machine = loaded(&[0x61, 0x01, 0xF5, 0x0A, 0x12, 0x04]);
    assert!(!machine.awaiting_key());
    run(&mut machine, 1);
    assert!(machine.awaiting_key());
    run(&mut machine, 2);
    assert!(machine.awaiting_key());
    assert_eq!(machine.program_counter(), 0x202);
    machine.set_key_press(9, true).unwrap();
    assert!(!machine.awaiting_key());
    run(&mut machine, 1);
    assert_eq!(machine.registers()[5], 9);
    // a jump to itself makes no progress either, but waits for no key
    run(&mut machine, 2);
    assert_eq!(machine.program_counter(), 0x204);
    assert!(!machine.awaiting_key());
    // nor does a machine that has halted
    let mut machine = loaded(&[0xFF, 0xFF]);
    assert!(!machine.awaiting_key());
    assert_eq!(machine.step(0), Err(Fault::UnknownOpcode { opcode: 0xFFFF }));
}
