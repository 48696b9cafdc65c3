use chip8::instruction::decode;
use chip8::{Fault, Instruction, CHIP8};

fn loaded(program: &[u8]) -> CHIP8 {
    let mut chip = CHIP8::new();
    assert_eq!(chip.load(program), Ok(()));
    chip
}

fn run(chip: &mut CHIP8, cycles: usize) {
    for _ in 0..cycles {
        assert_eq!(chip.cycle(), Ok(()));
    }
}

#[test]
fn decode_every_pattern() {
    assert_eq!(decode(0x00E0), Some(Instruction::ClearScreen));
    assert_eq!(decode(0x00EE), Some(Instruction::Return));
    assert_eq!(decode(0x1ABC), Some(Instruction::Jump { addr: 0xABC }));
    assert_eq!(decode(0x2FFF), Some(Instruction::Call { addr: 0xFFF }));
    assert_eq!(decode(0x3A12), Some(Instruction::SkipEqual { x: 0xA, byte: 0x12 }));
    assert_eq!(decode(0x4B34), Some(Instruction::SkipNotEqual { x: 0xB, byte: 0x34 }));
    assert_eq!(decode(0x5120), Some(Instruction::SkipRegistersEqual { x: 1, y: 2 }));
    assert_eq!(decode(0x6CFF), Some(Instruction::Load { x: 0xC, byte: 0xFF }));
    assert_eq!(decode(0x7D01), Some(Instruction::AddByte { x: 0xD, byte: 0x01 }));
    assert_eq!(decode(0x8120), Some(Instruction::Move { x: 1, y: 2 }));
    assert_eq!(decode(0x8121), Some(Instruction::Or { x: 1, y: 2 }));
    assert_eq!(decode(0x8122), Some(Instruction::And { x: 1, y: 2 }));
    assert_eq!(decode(0x8123), Some(Instruction::Xor { x: 1, y: 2 }));
    assert_eq!(decode(0x8124), Some(Instruction::Add { x: 1, y: 2 }));
    assert_eq!(decode(0x8125), Some(Instruction::Subtract { x: 1, y: 2 }));
    assert_eq!(decode(0x8126), Some(Instruction::ShiftRight { x: 1 }));
    assert_eq!(decode(0x8127), Some(Instruction::SubtractFrom { x: 1, y: 2 }));
    assert_eq!(decode(0x812E), Some(Instruction::ShiftLeft { x: 1 }));
    assert_eq!(decode(0x9EF0), Some(Instruction::SkipRegistersNotEqual { x: 0xE, y: 0xF }));
    assert_eq!(decode(0xA123), Some(Instruction::LoadIndex { addr: 0x123 }));
    assert_eq!(decode(0xB456), Some(Instruction::JumpOffset { addr: 0x456 }));
    assert_eq!(decode(0xC70F), Some(Instruction::Random { x: 7, byte: 0x0F }));
    assert_eq!(decode(0xD12F), Some(Instruction::Draw { x: 1, y: 2, rows: 15 }));
    assert_eq!(decode(0xE39E), Some(Instruction::SkipKeyDown { x: 3 }));
    assert_eq!(decode(0xE3A1), Some(Instruction::SkipKeyUp { x: 3 }));
    assert_eq!(decode(0xF407), Some(Instruction::ReadDelay { x: 4 }));
    assert_eq!(decode(0xF40A), Some(Instruction::WaitKey { x: 4 }));
    assert_eq!(decode(0xF415), Some(Instruction::SetDelay { x: 4 }));
    assert_eq!(decode(0xF418), Some(Instruction::SetSound { x: 4 }));
    assert_eq!(decode(0xF41E), Some(Instruction::AddIndex { x: 4 }));
    assert_eq!(decode(0xF429), Some(Instruction::LoadGlyph { x: 4 }));
    assert_eq!(decode(0xF433), Some(Instruction::StoreDecimal { x: 4 }));
    assert_eq!(decode(0xF455), Some(Instruction::StoreRegisters { x: 4 }));
    assert_eq!(decode(0xF465), Some(Instruction::LoadRegisters { x: 4 }));
}

#[test]
fn decode_rejects_what_the_table_lacks() {
    for word in [0x0000u16, 0x0123, 0x00E1, 0x00EF, 0x0FFF, 0x00FE] {
        assert_eq!(decode(word), None);
    }
    for n in 1..16u16 {
        assert_eq!(decode(0x5120 | n), None);
        assert_eq!(decode(0x9120 | n), None);
    }
    for n in [0x8u16, 0x9, 0xA, 0xB, 0xC, 0xD, 0xF] {
        assert_eq!(decode(0x8120 | n), None);
    }
    for byte in 0..=0xFFu16 {
        let known_e = byte == 0x9E || byte == 0xA1;
        assert_eq!(decode(0xE000 | byte).is_some(), known_e);
        let known_f = [0x07, 0x0A, 0x15, 0x18, 0x1E, 0x29, 0x33, 0x55, 0x65].contains(&byte);
        assert_eq!(decode(0xF000 | byte).is_some(), known_f);
    }
}

#[test]
fn decode_accepts_every_word_of_the_open_categories() {
    for class in [0x1u16, 0x2, 0x3, 0x4, 0x6, 0x7, 0xA, 0xB, 0xC, 0xD] {
        for low in [0x000u16, 0x001, 0x7FF, 0xFFF] {
            assert!(decode(class << 12 | low).is_some());
        }
    }
}

#[test]
fn add_byte_wraps_and_sets_no_flag() {
    // V0 := 0xFF, V0 += 2
    let mut chip = loaded(&[0x60, 0xFF, 0x70, 0x02]);
    run(&mut chip, 2);
    assert_eq!(chip.register(0), 0x01);
    assert_eq!(chip.register(0xF), 0);
    assert_eq!(chip.pc(), 0x204);
}

#[test]
fn add_byte_keeps_a_flag_that_was_set() {
    // VF := 1, V0 := 0xFF, V0 += 2
    let mut chip = loaded(&[0x6F, 0x01, 0x60, 0xFF, 0x70, 0x02]);
    run(&mut chip, 3);
    assert_eq!(chip.register(0), 0x01);
    assert_eq!(chip.register(0xF), 1);
}

#[test]
fn add_registers_sets_the_carry() {
    // V0 := 0xFF, V1 := 1, V0 += V1
    let mut chip = loaded(&[0x60, 0xFF, 0x61, 0x01, 0x80, 0x14]);
    run(&mut chip, 3);
    assert_eq!(chip.register(0), 0x00);
    assert_eq!(chip.register(1), 0x01);
    assert_eq!(chip.register(0xF), 1);
    assert_eq!(chip.pc(), 0x206);
}

#[test]
fn add_registers_clears_the_carry() {
    // VF := 1, V0 := 0xFE, V1 := 1, V0 += V1
    let mut chip = loaded(&[0x6F, 0x01, 0x60, 0xFE, 0x61, 0x01, 0x80, 0x14]);
    run(&mut chip, 4);
    assert_eq!(chip.register(0), 0xFF);
    assert_eq!(chip.register(0xF), 0);
}

#[test]
fn flag_outlives_a_result_written_to_vf() {
    // VF := 0xF0, V1 := 0x20, VF += V1: the sum 0x10 is dropped, the carry stays
    let mut chip = loaded(&[0x6F, 0xF0, 0x61, 0x20, 0x8F, 0x14]);
    run(&mut chip, 3);
    assert_eq!(chip.register(0xF), 1);
    // VF := 5, V1 := 3, VF -= V1
    let mut chip = loaded(&[0x6F, 0x05, 0x61, 0x03, 0x8F, 0x15]);
    run(&mut chip, 3);
    assert_eq!(chip.register(0xF), 1);
    // VF := 3, VF >>= 1
    let mut chip = loaded(&[0x6F, 0x03, 0x8F, 0x06]);
    run(&mut chip, 2);
    assert_eq!(chip.register(0xF), 1);
    // VF := 0x40, VF <<= 1
    let mut chip = loaded(&[0x6F, 0x40, 0x8F, 0x0E]);
    run(&mut chip, 2);
    assert_eq!(chip.register(0xF), 0);
}

#[test]
fn operands_are_read_before_the_flag_is_written() {
    // V0 := 10, VF := 3, V0 -= VF: 10 - 3, and 10 > 3
    let mut chip = loaded(&[0x60, 0x0A, 0x6F, 0x03, 0x80, 0xF5]);
    run(&mut chip, 3);
    assert_eq!(chip.register(0), 7);
    assert_eq!(chip.register(0xF), 1);
    // V0 := 3, VF := 10, V0 := VF - V0
    let mut chip = loaded(&[0x60, 0x03, 0x6F, 0x0A, 0x80, 0xF7]);
    run(&mut chip, 3);
    assert_eq!(chip.register(0), 7);
    assert_eq!(chip.register(0xF), 1);
}

#[test]
fn subtract_wraps_and_flags_greater() {
    // V0 := 5, V1 := 7, V0 -= V1
    let mut chip = loaded(&[0x60, 0x05, 0x61, 0x07, 0x80, 0x15]);
    run(&mut chip, 3);
    assert_eq!(chip.register(0), 0xFE);
    assert_eq!(chip.register(0xF), 0);
    // V0 := 7, V1 := 5, V0 -= V1
    let mut chip = loaded(&[0x60, 0x07, 0x61, 0x05, 0x80, 0x15]);
    run(&mut chip, 3);
    assert_eq!(chip.register(0), 2);
    assert_eq!(chip.register(0xF), 1);
    // equal operands: the flag is 0
    let mut chip = loaded(&[0x60, 0x07, 0x61, 0x07, 0x80, 0x15]);
    run(&mut chip, 3);
    assert_eq!(chip.register(0), 0);
    assert_eq!(chip.register(0xF), 0);
}

#[test]
fn subtract_from_wraps_and_flags_greater() {
    // V0 := 5, V1 := 7, V0 := V1 - V0
    let mut chip = loaded(&[0x60, 0x05, 0x61, 0x07, 0x80, 0x17]);
    run(&mut chip, 3);
    assert_eq!(chip.register(0), 2);
    assert_eq!(chip.register(0xF), 1);
    // V0 := 7, V1 := 5, V0 := V1 - V0
    let mut chip = loaded(&[0x60, 0x07, 0x61, 0x05, 0x80, 0x17]);
    run(&mut chip, 3);
    assert_eq!(chip.register(0), 0xFE);
    assert_eq!(chip.register(0xF), 0);
}

#[test]
fn shifts_work_on_vx_and_ignore_vy() {
    // V0 := 0x85, V1 := 0xFF, V0 >>= 1
    let mut chip = loaded(&[0x60, 0x85, 0x61, 0xFF, 0x80, 0x16]);
    run(&mut chip, 3);
    assert_eq!(chip.register(0), 0x42);
    assert_eq!(chip.register(1), 0xFF);
    assert_eq!(chip.register(0xF), 1);
    // V0 := 0x84, V0 >>= 1
    let mut chip = loaded(&[0x60, 0x84, 0x80, 0x16]);
    run(&mut chip, 2);
    assert_eq!(chip.register(0), 0x42);
    assert_eq!(chip.register(0xF), 0);
    // V0 := 0x85, V1 := 0xFF, V0 <<= 1
    let mut chip = loaded(&[0x60, 0x85, 0x61, 0xFF, 0x80, 0x1E]);
    run(&mut chip, 3);
    assert_eq!(chip.register(0), 0x0A);
    assert_eq!(chip.register(1), 0xFF);
    assert_eq!(chip.register(0xF), 1);
    // V0 := 0x45, V0 <<= 1
    let mut chip = loaded(&[0x60, 0x45, 0x80, 0x0E]);
    run(&mut chip, 2);
    assert_eq!(chip.register(0), 0x8A);
    assert_eq!(chip.register(0xF), 0);
}

#[test]
fn logic_instructions_leave_the_flag() {
    // VF := 7, V0 := 0b1100, V1 := 0b1010, then one of move, or, and, xor
    for (low, expected) in [(0x10u8, 0b1010u8), (0x11, 0b1110), (0x12, 0b1000), (0x13, 0b0110)] {
        let mut chip = loaded(&[0x6F, 0x07, 0x60, 0x0C, 0x61, 0x0A, 0x80, low]);
        run(&mut chip, 4);
        assert_eq!(chip.register(0), expected);
        assert_eq!(chip.register(1), 0b1010);
        assert_eq!(chip.register(0xF), 7);
        assert_eq!(chip.pc(), 0x208);
    }
}

#[test]
fn skips_move_by_four_when_taken_and_two_when_not() {
    // V0 := 0x11, V1 := 0x11, V2 := 0x22, then the skip
    let cases: [(u8, u8, bool); 8] = [
        (0x30, 0x11, true),
        (0x30, 0x12, false),
        (0x40, 0x12, true),
        (0x40, 0x11, false),
        (0x50, 0x10, true),
        (0x50, 0x20, false),
        (0x90, 0x20, true),
        (0x90, 0x10, false),
    ];
    for (high, low, taken) in cases {
        let mut chip = loaded(&[0x60, 0x11, 0x61, 0x11, 0x62, 0x22, high, low]);
        run(&mut chip, 4);
        assert_eq!(chip.pc(), if taken { 0x20A } else { 0x208 });
    }
}

#[test]
fn key_skips_follow_the_keypad() {
    // V0 := 5, skip if key V0 down
    let mut chip = loaded(&[0x60, 0x05, 0xE0, 0x9E]);
    run(&mut chip, 2);
    assert_eq!(chip.pc(), 0x204);
    let mut chip = loaded(&[0x60, 0x05, 0xE0, 0x9E]);
    chip.press_key(5);
    run(&mut chip, 2);
    assert_eq!(chip.pc(), 0x206);
    // V0 := 5, skip if key V0 up
    let mut chip = loaded(&[0x60, 0x05, 0xE0, 0xA1]);
    run(&mut chip, 2);
    assert_eq!(chip.pc(), 0x206);
    let mut chip = loaded(&[0x60, 0x05, 0xE0, 0xA1]);
    chip.press_key(5);
    run(&mut chip, 2);
    assert_eq!(chip.pc(), 0x204);
    let mut chip = loaded(&[0x60, 0x05, 0xE0, 0xA1]);
    chip.press_key(4);
    chip.press_key(5);
    chip.release_key(5);
    run(&mut chip, 2);
    assert_eq!(chip.pc(), 0x206);
}

#[test]
fn jump_sets_the_program_counter() {
    let mut chip = loaded(&[0x1A, 0xBC]);
    run(&mut chip, 1);
    assert_eq!(chip.pc(), 0xABC);
    assert_eq!(chip.stack_pointer(), 0);
}

#[test]
fn jump_offset_adds_v0() {
    // V0 := 0x12, jump to 0x300 + V0
    let mut chip = loaded(&[0x60, 0x12, 0xB3, 0x00]);
    run(&mut chip, 2);
    assert_eq!(chip.pc(), 0x312);
    // V0 := 0xFF, jump to 0xFFF + V0: past the end of memory
    let mut chip = loaded(&[0x60, 0xFF, 0xBF, 0xFF]);
    run(&mut chip, 2);
    assert_eq!(chip.pc(), 0x10FE);
    assert_eq!(chip.cycle(), Err(Fault::OutOfBoundsAccess));
}

#[test]
fn call_then_return_resumes_after_the_call() {
    // 0x200: V0 := 1; 0x202: call 0x208; 0x204: V1 := 2; 0x208: return
    let mut chip = loaded(&[0x60, 0x01, 0x22, 0x08, 0x61, 0x02, 0x00, 0x00, 0x00, 0xEE]);
    run(&mut chip, 2);
    assert_eq!(chip.pc(), 0x208);
    assert_eq!(chip.stack_pointer(), 1);
    run(&mut chip, 1);
    assert_eq!(chip.pc(), 0x204);
    assert_eq!(chip.stack_pointer(), 0);
    run(&mut chip, 1);
    assert_eq!(chip.register(1), 2);
}

#[test]
fn nested_calls_return_in_reverse_order() {
    // 0x200: call 0x204; 0x202: jump 0x202
    // 0x204: call 0x208; 0x206: return
    // 0x208: V0 := 9;    0x20A: return
    let mut chip = loaded(&[0x22, 0x04, 0x12, 0x02, 0x22, 0x08, 0x00, 0xEE, 0x60, 0x09, 0x00, 0xEE]);
    run(&mut chip, 2);
    assert_eq!(chip.pc(), 0x208);
    assert_eq!(chip.stack_pointer(), 2);
    run(&mut chip, 2);
    assert_eq!(chip.pc(), 0x206);
    assert_eq!(chip.stack_pointer(), 1);
    run(&mut chip, 1);
    assert_eq!(chip.pc(), 0x202);
    assert_eq!(chip.stack_pointer(), 0);
    assert_eq!(chip.register(0), 9);
}

#[test]
fn sixteen_calls_fit_and_one_more_does_not() {
    // call 0x200, again and again
    let mut chip = loaded(&[0x22, 0x00]);
    run(&mut chip, 16);
    assert_eq!(chip.stack_pointer(), 16);
    assert_eq!(chip.cycle(), Err(Fault::OutOfBoundsAccess));
    assert_eq!(chip.stack_pointer(), 16);
    assert_eq!(chip.pc(), 0x200);
}

#[test]
fn load_index_and_add_index() {
    // I := 0x123, V0 := 0x10, I += V0
    let mut chip = loaded(&[0xA1, 0x23, 0x60, 0x10, 0xF0, 0x1E]);
    run(&mut chip, 3);
    assert_eq!(chip.index(), 0x133);
    assert_eq!(chip.pc(), 0x206);
}

#[test]
fn add_index_wraps_at_sixteen_bits() {
    // I := 0xFFF, V0 := 0xFF, then I += V0, 241 times: 4095 + 241 * 255 = 65550
    let mut program = vec![0xAF, 0xFF, 0x60, 0xFF];
    for _ in 0..241 {
        program.push(0xF0);
        program.push(0x1E);
    }
    let mut chip = loaded(&program);
    run(&mut chip, 2 + 240);
    assert_eq!(chip.index(), 0xFFF + 240 * 255);
    run(&mut chip, 1);
    assert_eq!(chip.index(), 14);
}

#[test]
fn load_glyph_points_at_the_digit() {
    // V0 := 0xA, I := glyph of V0
    let mut chip = loaded(&[0x60, 0x0A, 0xF0, 0x29]);
    run(&mut chip, 2);
    assert_eq!(chip.index(), 50);
    // V0 := 0xF
    let mut chip = loaded(&[0x60, 0x0F, 0xF0, 0x29]);
    run(&mut chip, 2);
    assert_eq!(chip.index(), 75);
}

#[test]
fn load_glyph_ignores_what_is_no_digit() {
    // I := 0x321, V0 := 0x10, I := glyph of V0
    let mut chip = loaded(&[0xA3, 0x21, 0x60, 0x10, 0xF0, 0x29]);
    run(&mut chip, 3);
    assert_eq!(chip.index(), 0x321);
    assert_eq!(chip.pc(), 0x206);
}

#[test]
fn store_decimal_writes_three_digits() {
    // V0 := 254, I := 0x300, store decimal
    let mut chip = loaded(&[0x60, 0xFE, 0xA3, 0x00, 0xF0, 0x33]);
    run(&mut chip, 3);
    assert_eq!(chip.read(0x300), Ok(2));
    assert_eq!(chip.read(0x301), Ok(5));
    assert_eq!(chip.read(0x302), Ok(4));
    assert_eq!(chip.read(0x303), Ok(0));
    assert_eq!(chip.index(), 0x300);
    // V0 := 7
    let mut chip = loaded(&[0x60, 0x07, 0xA3, 0x00, 0xF0, 0x33]);
    run(&mut chip, 3);
    assert_eq!(chip.read(0x300), Ok(0));
    assert_eq!(chip.read(0x301), Ok(0));
    assert_eq!(chip.read(0x302), Ok(7));
}

#[test]
fn store_registers_includes_vx() {
    // V0 := 0x11, V1 := 0x22, V2 := 0x33, I := 0x300, store V0..V1
    let mut chip = loaded(&[0x60, 0x11, 0x61, 0x22, 0x62, 0x33, 0xA3, 0x00, 0xF1, 0x55]);
    run(&mut chip, 5);
    assert_eq!(chip.read(0x300), Ok(0x11));
    assert_eq!(chip.read(0x301), Ok(0x22));
    assert_eq!(chip.read(0x302), Ok(0));
    assert_eq!(chip.index(), 0x300);
    assert_eq!(chip.pc(), 0x20A);
}

#[test]
fn load_registers_excludes_vx() {
    // I := 0x208, V2 := 0x77, load V0..V2; data at 0x208
    let mut chip = loaded(&[0xA2, 0x08, 0x62, 0x77, 0xF2, 0x65, 0x00, 0x00, 0xAA, 0xBB, 0xCC]);
    run(&mut chip, 3);
    assert_eq!(chip.register(0), 0xAA);
    assert_eq!(chip.register(1), 0xBB);
    assert_eq!(chip.register(2), 0x77);
    assert_eq!(chip.index(), 0x208);
    assert_eq!(chip.pc(), 0x206);
}

#[test]
fn load_registers_with_x_zero_loads_nothing() {
    // I := 0x206, V0 := 0x55, load V0..V0; data at 0x206
    let mut chip = loaded(&[0xA2, 0x06, 0x60, 0x55, 0xF0, 0x65, 0xAA]);
    run(&mut chip, 3);
    assert_eq!(chip.register(0), 0x55);
    assert_eq!(chip.pc(), 0x206);
}

#[test]
fn timers_are_set_and_read() {
    // V0 := 0x3C, delay := V0, sound := V0, V1 := delay
    let mut chip = loaded(&[0x60, 0x3C, 0xF0, 0x15, 0xF0, 0x18, 0xF1, 0x07]);
    run(&mut chip, 4);
    assert_eq!(chip.delay_timer(), 0x3C);
    assert_eq!(chip.sound_timer(), 0x3C);
    assert_eq!(chip.register(1), 0x3C);
}

#[test]
fn random_is_masked() {
    // V0 := 0xFF, V0 := random & 0x0F
    for _ in 0..64 {
        let mut chip = loaded(&[0x60, 0xFF, 0xC0, 0x0F]);
        run(&mut chip, 2);
        assert!(chip.register(0) <= 0x0F);
        assert_eq!(chip.pc(), 0x204);
    }
    // V0 := 0xFF, V0 := random & 0
    let mut chip = loaded(&[0x60, 0xFF, 0xC0, 0x00]);
    run(&mut chip, 2);
    assert_eq!(chip.register(0), 0);
}

#[test]
fn random_draws_more_than_one_value() {
    let mut seen = [false; 256];
    for _ in 0..512 {
        let mut chip = loaded(&[0xC0, 0xFF]);
        run(&mut chip, 1);
        seen[chip.register(0) as usize] = true;
    }
    assert!(seen.iter().filter(|&&hit| hit).count() > 1);
}

#[test]
fn step_uses_the_byte_it_is_given() {
    // V3 := random & 0xF0
    let mut chip = loaded(&[0xC3, 0xF0]);
    assert_eq!(chip.step(0xAB), Ok(()));
    assert_eq!(chip.register(3), 0xA0);
    assert_eq!(chip.pc(), 0x202);
    // any other instruction ignores it
    let mut one = loaded(&[0x60, 0x12]);
    let mut other = loaded(&[0x60, 0x12]);
    assert_eq!(one.step(0x00), Ok(()));
    assert_eq!(other.step(0xFF), Ok(()));
    assert_eq!(one.register(0), other.register(0));
    assert_eq!(one.pc(), other.pc());
}

#[test]
fn plain_instructions_move_by_two() {
    let programs: [[u8; 2]; 16] = [
        [0x00, 0xE0],
        [0x61, 0x12],
        [0x71, 0x12],
        [0x81, 0x20],
        [0x81, 0x24],
        [0x81, 0x25],
        [0x81, 0x26],
        [0x81, 0x27],
        [0x81, 0x2E],
        [0xA1, 0x23],
        [0xC1, 0xFF],
        [0xD1, 0x25],
        [0xF1, 0x07],
        [0xF1, 0x15],
        [0xF1, 0x1E],
        [0xF1, 0x29],
    ];
    for program in programs {
        let mut chip = loaded(&program);
        run(&mut chip, 1);
        assert_eq!(chip.pc(), 0x202);
    }
}

#[test]
fn wait_key_blocks_until_a_key_is_down() {
    // V0 := 0x42, V1 := 0x99, wait for a key into V1
    let mut chip = loaded(&[0x60, 0x42, 0x61, 0x99, 0xF1, 0x0A]);
    run(&mut chip, 2);
    for _ in 0..10 {
        assert_eq!(chip.cycle(), Ok(()));
        assert_eq!(chip.pc(), 0x204);
        for x in 2..16 {
            assert_eq!(chip.register(x), 0);
        }
        assert_eq!(chip.register(0), 0x42);
        assert_eq!(chip.register(1), 0x99);
    }
    chip.press_key(0xB);
    assert_eq!(chip.cycle(), Ok(()));
    assert_eq!(chip.register(1), 0xB);
    assert_eq!(chip.register(0), 0x42);
    assert_eq!(chip.pc(), 0x206);
}

#[test]
fn wait_key_takes_the_lowest_key_down() {
    let mut chip = loaded(&[0xF5, 0x0A]);
    chip.press_key(9);
    chip.press_key(3);
    chip.press_key(12);
    run(&mut chip, 1);
    assert_eq!(chip.register(5), 3);
    assert_eq!(chip.pc(), 0x202);
    // key 0 counts
    let mut chip = loaded(&[0x65, 0x77, 0xF5, 0x0A]);
    chip.press_key(0);
    run(&mut chip, 2);
    assert_eq!(chip.register(5), 0);
    assert_eq!(chip.pc(), 0x204);
}

#[test]
fn wait_key_blocks_again_after_release() {
    let mut chip = loaded(&[0xF0, 0x0A]);
    chip.press_key(4);
    chip.release_key(4);
    run(&mut chip, 3);
    assert_eq!(chip.pc(), 0x200);
}

#[test]
fn waiting_for_a_key_is_reported() {
    // V0 := 1, wait for a key into V0, V1 := 2
    let mut chip = loaded(&[0x60, 0x01, 0xF0, 0x0A, 0x61, 0x02]);
    assert!(!chip.is_waiting_for_key());
    run(&mut chip, 1);
    assert!(chip.is_waiting_for_key());
    run(&mut chip, 1);
    assert!(chip.is_waiting_for_key());
    chip.press_key(6);
    assert!(!chip.is_waiting_for_key());
    chip.release_key(6);
    assert!(chip.is_waiting_for_key());
    chip.press_key(6);
    run(&mut chip, 1);
    assert_eq!(chip.register(0), 6);
    assert!(!chip.is_waiting_for_key());
    chip.release_key(6);
    assert!(!chip.is_waiting_for_key());
}

#[test]
fn waiting_for_a_key_is_not_reported_off_the_end_of_memory() {
    let mut chip = loaded(&[0x1F, 0xFF]);
    run(&mut chip, 1);
    assert!(!chip.is_waiting_for_key());
}
