use chip8::{Fault, CHIP8};

fn loaded(program: &[u8]) -> CHIP8 {
    let mut chip = CHIP8::new();
    assert_eq!(chip.load(program), Ok(()));
    chip
}

fn run(chip: &mut CHIP8, cycles: usize) {
    for _ in 0..cycles {
        assert_eq!(chip.cycle(), Ok(()));
    }
}

#[test]
fn unknown_system_words_are_fatal() {
    for (high, low) in [(0x00u8, 0x00u8), (0x01, 0x23), (0x00, 0xE1), (0x00, 0xEF), (0x0F, 0xFF), (0x0E, 0xE0)] {
        let mut chip = loaded(&[high, low]);
        let word = (high as u16) << 8 | low as u16;
        assert_eq!(chip.cycle(), Err(Fault::UndecodableOpcode(word)));
        assert_eq!(chip.pc(), 0x200);
    }
}

#[test]
fn an_empty_machine_stops_at_once() {
    let mut chip = CHIP8::new();
    assert_eq!(chip.cycle(), Err(Fault::UndecodableOpcode(0x0000)));
    assert_eq!(chip.cycle(), Err(Fault::UndecodableOpcode(0x0000)));
    assert_eq!(chip.pc(), 0x200);
}

#[test]
fn unknown_sub_opcodes_are_fatal() {
    for (high, low) in [(0x81u8, 0x28u8), (0x81, 0x2F), (0x51, 0x21), (0x91, 0x2F), (0xE1, 0x00), (0xF1, 0xFF)] {
        let mut chip = loaded(&[high, low]);
        let word = (high as u16) << 8 | low as u16;
        assert_eq!(chip.cycle(), Err(Fault::UndecodableOpcode(word)));
        assert_eq!(chip.step(0), Err(Fault::UndecodableOpcode(word)));
        assert_eq!(chip.pc(), 0x200);
        for x in 0..16 {
            assert_eq!(chip.register(x), 0);
        }
    }
}

#[test]
fn fetch_beyond_memory_is_fatal() {
    // jump to 0xFFF: the second byte of the word would be at 4096
    let mut chip = loaded(&[0x1F, 0xFF]);
    run(&mut chip, 1);
    assert_eq!(chip.pc(), 0xFFF);
    assert_eq!(chip.cycle(), Err(Fault::OutOfBoundsAccess));
    assert_eq!(chip.pc(), 0xFFF);
}

#[test]
fn fetch_of_the_last_word_works() {
    // jump to 0xFFE, where a load sits
    let mut chip = loaded(&[0x1F, 0xFE]);
    assert_eq!(chip.load_at(&[0x6A, 0x55], 0xFFE), Ok(()));
    run(&mut chip, 2);
    assert_eq!(chip.register(0xA), 0x55);
    assert_eq!(chip.pc(), 0x1000);
    assert_eq!(chip.cycle(), Err(Fault::OutOfBoundsAccess));
}

#[test]
fn a_skip_at_the_last_word_leaves_memory() {
    // jump to 0xFFE, where a skip that is taken sits
    let mut chip = loaded(&[0x1F, 0xFE]);
    assert_eq!(chip.load_at(&[0x30, 0x00], 0xFFE), Ok(()));
    run(&mut chip, 2);
    assert_eq!(chip.pc(), 0x1002);
    assert_eq!(chip.cycle(), Err(Fault::OutOfBoundsAccess));
}

#[test]
fn return_with_nothing_pending_is_fatal() {
    let mut chip = loaded(&[0x00, 0xEE]);
    assert_eq!(chip.cycle(), Err(Fault::OutOfBoundsAccess));
    assert_eq!(chip.pc(), 0x200);
    assert_eq!(chip.stack_pointer(), 0);
}

#[test]
fn a_key_number_beyond_the_keypad_is_fatal() {
    // V0 := 16, skip if key V0 down
    let mut chip = loaded(&[0x60, 0x10, 0xE0, 0x9E]);
    run(&mut chip, 1);
    assert_eq!(chip.cycle(), Err(Fault::OutOfBoundsAccess));
    assert_eq!(chip.pc(), 0x202);
    // V0 := 255, skip if key V0 up
    let mut chip = loaded(&[0x60, 0xFF, 0xE0, 0xA1]);
    run(&mut chip, 1);
    assert_eq!(chip.cycle(), Err(Fault::OutOfBoundsAccess));
    assert_eq!(chip.pc(), 0x202);
    // V0 := 15 is a key
    let mut chip = loaded(&[0x60, 0x0F, 0xE0, 0xA1]);
    run(&mut chip, 2);
    assert_eq!(chip.pc(), 0x206);
}

#[test]
fn store_decimal_beyond_memory_is_fatal() {
    // V0 := 123, I := 0xFFE, store decimal: the units would be at 4096
    let mut chip = loaded(&[0x60, 0x7B, 0xAF, 0xFE, 0xF0, 0x33]);
    run(&mut chip, 2);
    assert_eq!(chip.cycle(), Err(Fault::OutOfBoundsAccess));
    assert_eq!(chip.read(0xFFE), Ok(0));
    assert_eq!(chip.read(0xFFF), Ok(0));
    assert_eq!(chip.pc(), 0x204);
    // I := 0xFFD fits
    let mut chip = loaded(&[0x60, 0x7B, 0xAF, 0xFD, 0xF0, 0x33]);
    run(&mut chip, 3);
    assert_eq!(chip.read(0xFFD), Ok(1));
    assert_eq!(chip.read(0xFFE), Ok(2));
    assert_eq!(chip.read(0xFFF), Ok(3));
}

#[test]
fn store_registers_beyond_memory_is_fatal() {
    // V0 := 1, V1 := 2, I := 0xFFF, store V0..V1
    let mut chip = loaded(&[0x60, 0x01, 0x61, 0x02, 0xAF, 0xFF, 0xF1, 0x55]);
    run(&mut chip, 3);
    assert_eq!(chip.cycle(), Err(Fault::OutOfBoundsAccess));
    assert_eq!(chip.read(0xFFF), Ok(0));
    assert_eq!(chip.pc(), 0x206);
    // store V0 alone fits
    let mut chip = loaded(&[0x60, 0x01, 0x61, 0x02, 0xAF, 0xFF, 0xF0, 0x55]);
    run(&mut chip, 4);
    assert_eq!(chip.read(0xFFF), Ok(1));
}

#[test]
fn load_registers_beyond_memory_is_fatal() {
    // V0 := 9, I := 0xFFF, load V0..V2: V1 would come from 4096
    let mut chip = loaded(&[0x60, 0x09, 0xAF, 0xFF, 0xF2, 0x65]);
    run(&mut chip, 2);
    assert_eq!(chip.cycle(), Err(Fault::OutOfBoundsAccess));
    assert_eq!(chip.register(0), 9);
    assert_eq!(chip.pc(), 0x204);
    // load V0..V1 reads the last byte alone
    let mut chip = loaded(&[0x60, 0x09, 0xAF, 0xFF, 0xF1, 0x65]);
    assert_eq!(chip.load_at(&[0x5A], 0xFFF), Ok(()));
    run(&mut chip, 3);
    assert_eq!(chip.register(0), 0x5A);
}

#[test]
fn memory_instructions_with_a_wrapped_index() {
    // I := 0xFFF, V0 := 0xFF, I += V0 (0x10FE), then a sprite of no rows and a
    // load of no registers read nothing
    let mut chip = loaded(&[0xAF, 0xFF, 0x60, 0xFF, 0xF0, 0x1E, 0xD0, 0x00, 0xF0, 0x65, 0xF0, 0x55]);
    run(&mut chip, 5);
    assert_eq!(chip.index(), 0x10FE);
    assert_eq!(chip.pc(), 0x20A);
    // a store of V0 writes one byte
    assert_eq!(chip.cycle(), Err(Fault::OutOfBoundsAccess));
}

#[test]
fn a_fault_changes_nothing() {
    // V0 := 7, I := 0x123, delay := V0, call 0x20A, (0x20A:) an unknown word
    let mut chip = loaded(&[0x60, 0x07, 0xA1, 0x23, 0xF0, 0x15, 0x22, 0x0A, 0x00, 0x00, 0xFF, 0xFF]);
    chip.press_key(2);
    run(&mut chip, 4);
    let memory: Vec<u8> = (0..4096).map(|address| chip.read(address).unwrap()).collect();
    for _ in 0..3 {
        assert_eq!(chip.cycle(), Err(Fault::UndecodableOpcode(0xFFFF)));
        assert_eq!(chip.pc(), 0x20A);
        assert_eq!(chip.index(), 0x123);
        assert_eq!(chip.register(0), 7);
        assert_eq!(chip.delay_timer(), 7);
        assert_eq!(chip.stack_pointer(), 1);
        assert!(chip.is_key_pressed(2));
        for address in 0..4096 {
            assert_eq!(chip.read(address), Ok(memory[address]));
        }
    }
}
