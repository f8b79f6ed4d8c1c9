use chip8::cpu::Cpu;
use chip8::instruction::Instruction;
use chip8::machine::Fault;

fn machine(program: &[u8]) -> Cpu {
    let mut c = Cpu::new();
    c.load(program);
    c
}

fn run(c: &mut Cpu, cycles: usize) {
    for _ in 0..cycles {
        c.step(0).unwrap();
    }
}

fn registers(c: &Cpu) -> Vec<u8> {
    (0..16).map(|i| c.register(i)).collect()
}

#[test]
fn new_machine_holds_the_glyphs_and_starts_at_0x200() {
    let c = Cpu::new();
    assert_eq!(c.program_counter(), 0x200);
    assert_eq!(c.address_register(), 0);
    assert_eq!(c.stack_pointer(), 0);
    assert!(c.draw_flag);
    assert_eq!(c.memory_at(0), 0xF0);
    assert_eq!(c.memory_at(5), 0x20);
    assert_eq!(c.memory_at(79), 0x80);
    assert_eq!(c.memory_at(80), 0);
    assert_eq!(registers(&c), vec![0; 16]);
}

#[test]
fn load_copies_the_program_at_0x200() {
    let c = machine(&[0xAB, 0xCD, 0xEF]);
    assert_eq!(c.memory_at(0x1FF), 0);
    assert_eq!(c.memory_at(0x200), 0xAB);
    assert_eq!(c.memory_at(0x201), 0xCD);
    assert_eq!(c.memory_at(0x202), 0xEF);
    assert_eq!(c.memory_at(0x203), 0);
}

#[test]
fn add_sets_carry_when_the_sum_exceeds_255() {
    // V1 = 200, V2 = 100, V1 += V2
    let mut c = machine(&[0x61, 200, 0x62, 100, 0x81, 0x24]);
    run(&mut c, 3);
    assert_eq!(c.register(1), 44);
    assert_eq!(c.register(0xF), 1);
}

#[test]
fn add_clears_carry_without_overflow() {
    let mut c = machine(&[0x6F, 7, 0x61, 10, 0x62, 20, 0x81, 0x24]);
    run(&mut c, 4);
    assert_eq!(c.register(1), 30);
    assert_eq!(c.register(0xF), 0);
}

#[test]
fn add_of_255_and_1_wraps_to_zero_with_carry() {
    let mut c = machine(&[0x61, 255, 0x62, 1, 0x81, 0x24]);
    run(&mut c, 3);
    assert_eq!(c.register(1), 0);
    assert_eq!(c.register(0xF), 1);
}

#[test]
fn sub_clears_flag_on_borrow_and_wraps() {
    // V1 = 5, V2 = 10, V1 -= V2
    let mut c = machine(&[0x61, 5, 0x62, 10, 0x81, 0x25]);
    run(&mut c, 3);
    assert_eq!(c.register(1), 251);
    assert_eq!(c.register(0xF), 0);
}

#[test]
fn sub_sets_flag_without_borrow() {
    let mut c = machine(&[0x61, 10, 0x62, 10, 0x81, 0x25]);
    run(&mut c, 3);
    assert_eq!(c.register(1), 0);
    assert_eq!(c.register(0xF), 1);
}

#[test]
fn reverse_sub_takes_vy_minus_vx() {
    let mut c = machine(&[0x61, 10, 0x62, 3, 0x81, 0x27, 0x63, 3, 0x64, 10, 0x83, 0x47]);
    run(&mut c, 3);
    assert_eq!(c.register(1), 249);
    assert_eq!(c.register(0xF), 0);
    run(&mut c, 3);
    assert_eq!(c.register(3), 7);
    assert_eq!(c.register(0xF), 1);
}

#[test]
fn shifts_put_the_lost_bit_in_the_flag() {
    let mut c = machine(&[0x61, 0b1000_0011, 0x81, 0x06, 0x62, 0b1000_0001, 0x82, 0x0E]);
    run(&mut c, 2);
    assert_eq!(c.register(1), 0b0100_0001);
    assert_eq!(c.register(0xF), 1);
    run(&mut c, 2);
    assert_eq!(c.register(2), 0b0000_0010);
    assert_eq!(c.register(0xF), 1);
}

#[test]
fn logic_operations_combine_registers() {
    let mut c = machine(&[
        0x61, 0b1100, 0x62, 0b1010, 0x83, 0x10, 0x83, 0x21, 0x84, 0x10, 0x84, 0x22, 0x85, 0x10,
        0x85, 0x23,
    ]);
    run(&mut c, 8);
    assert_eq!(c.register(3), 0b1110);
    assert_eq!(c.register(4), 0b1000);
    assert_eq!(c.register(5), 0b0110);
}

#[test]
fn add_constant_wraps_without_touching_the_flag() {
    let mut c = machine(&[0x6F, 9, 0x61, 250, 0x71, 10]);
    run(&mut c, 3);
    assert_eq!(c.register(1), 4);
    assert_eq!(c.register(0xF), 9);
}

#[test]
fn clear_screen_darkens_every_pixel() {
    // draw the glyph for 0, then clear
    let mut c = machine(&[0xA0, 0x00, 0xD0, 0x05, 0x00, 0xE0]);
    run(&mut c, 2);
    assert_eq!(c.graphics.get_pixel(0, 0), 1);
    c.draw_flag = false;
    run(&mut c, 1);
    assert!(c.draw_flag);
    for y in 0..32 {
        for x in 0..64 {
            assert_eq!(c.graphics.get_pixel(x, y), 0);
        }
    }
}

#[test]
fn drawing_the_same_sprite_twice_erases_it() {
    // V1 = 3, V2 = 4, I = glyph 8, draw twice
    let mut c = machine(&[0x61, 3, 0x62, 4, 0xA0, 40, 0xD1, 0x25, 0xD1, 0x25]);
    run(&mut c, 4);
    assert_eq!(c.register(0xF), 0);
    assert_eq!(c.graphics.get_pixel(3, 4), 1);
    run(&mut c, 1);
    assert_eq!(c.register(0xF), 1);
    for y in 0..32 {
        for x in 0..64 {
            assert_eq!(c.graphics.get_pixel(x, y), 0);
        }
    }
}

#[test]
fn draw_marks_the_frame_for_redraw() {
    let mut c = machine(&[0xA0, 0x00, 0xD0, 0x01]);
    c.draw_flag = false;
    run(&mut c, 1);
    assert!(!c.draw_flag);
    let e = c.step(0).unwrap();
    assert!(e.redraw);
    assert!(c.draw_flag);
    assert_eq!(e.instruction, Instruction::Draw { x: 0, y: 0, n: 1 });
}

#[test]
fn call_then_return_resumes_after_the_call() {
    // 0x200: call 0x300; 0x300: return
    let mut program = vec![0u8; 0x102];
    program[0] = 0x23;
    program[1] = 0x00;
    program[0x100] = 0x00;
    program[0x101] = 0xEE;
    let mut c = machine(&program);
    run(&mut c, 1);
    assert_eq!(c.program_counter(), 0x300);
    assert_eq!(c.stack_pointer(), 1);
    run(&mut c, 1);
    assert_eq!(c.program_counter(), 0x202);
    assert_eq!(c.stack_pointer(), 0);
}

#[test]
fn wait_key_holds_the_program_counter_until_a_key_is_down() {
    let mut c = machine(&[0xF3, 0x0A]);
    for _ in 0..10 {
        run(&mut c, 1);
        assert_eq!(c.program_counter(), 0x200);
    }
    c.keypad.set(0xA, true);
    run(&mut c, 1);
    assert_eq!(c.program_counter(), 0x202);
    assert_eq!(c.register(3), 0xA);
}

#[test]
fn wait_key_takes_the_highest_key_down() {
    let mut c = machine(&[0xF3, 0x0A]);
    c.keypad.set(0x2, true);
    c.keypad.set(0x9, true);
    c.keypad.set(0x4, true);
    run(&mut c, 1);
    assert_eq!(c.register(3), 0x9);
}

#[test]
fn bcd_of_234_writes_2_3_4() {
    let mut c = machine(&[0x65, 234, 0xA3, 0x00, 0xF5, 0x33]);
    run(&mut c, 3);
    assert_eq!(c.memory_at(0x300), 2);
    assert_eq!(c.memory_at(0x301), 3);
    assert_eq!(c.memory_at(0x302), 4);
}

#[test]
fn bcd_of_small_values_has_leading_zeros() {
    let mut c = machine(&[0x65, 7, 0xA3, 0x00, 0xF5, 0x33]);
    run(&mut c, 3);
    assert_eq!(c.memory_at(0x300), 0);
    assert_eq!(c.memory_at(0x301), 0);
    assert_eq!(c.memory_at(0x302), 7);
}

#[test]
fn store_then_load_restores_registers_up_to_x() {
    let mut c = machine(&[
        0x60, 11, 0x61, 22, 0x62, 33, 0x63, 44, 0xA3, 0x00, 0xF2, 0x55, // store V0..=V2
        0x60, 0, 0x61, 0, 0x62, 0, 0x63, 0, // zero them
        0xF2, 0x65, // load V0..=V2
    ]);
    run(&mut c, 6);
    assert_eq!(c.memory_at(0x300), 11);
    assert_eq!(c.memory_at(0x302), 33);
    assert_eq!(c.memory_at(0x303), 0);
    run(&mut c, 5);
    assert_eq!(c.register(0), 11);
    assert_eq!(c.register(1), 22);
    assert_eq!(c.register(2), 33);
    assert_eq!(c.register(3), 0);
    assert_eq!(c.address_register(), 0x300);
}

#[test]
fn jump_moves_only_the_program_counter() {
    let mut c = machine(&[0x1A, 0xBC]);
    let before = registers(&c);
    run(&mut c, 1);
    assert_eq!(c.program_counter(), 0xABC);
    assert_eq!(registers(&c), before);
    assert_eq!(c.address_register(), 0);
    assert_eq!(c.stack_pointer(), 0);
    assert_eq!(c.delay_timer(), 0);
    assert_eq!(c.sound_timer(), 0);
    assert_eq!(c.memory_at(0x200), 0x1A);
}

#[test]
fn jump_with_offset_adds_v0() {
    let mut c = machine(&[0x60, 0x10, 0xB3, 0x00]);
    run(&mut c, 2);
    assert_eq!(c.program_counter(), 0x310);
}

#[test]
fn skips_move_past_the_next_instruction() {
    let mut c = machine(&[0x61, 5, 0x31, 5]);
    run(&mut c, 2);
    assert_eq!(c.program_counter(), 0x206);
    let mut c = machine(&[0x61, 5, 0x31, 6]);
    run(&mut c, 2);
    assert_eq!(c.program_counter(), 0x204);
    let mut c = machine(&[0x61, 5, 0x41, 6]);
    run(&mut c, 2);
    assert_eq!(c.program_counter(), 0x206);
    let mut c = machine(&[0x61, 5, 0x62, 5, 0x51, 0x20]);
    run(&mut c, 3);
    assert_eq!(c.program_counter(), 0x208);
    let mut c = machine(&[0x61, 5, 0x62, 5, 0x91, 0x20]);
    run(&mut c, 3);
    assert_eq!(c.program_counter(), 0x206);
}

#[test]
fn key_skips_follow_the_pad() {
    let mut c = machine(&[0x61, 0xA, 0xE1, 0x9E]);
    c.keypad.set(0xA, true);
    run(&mut c, 2);
    assert_eq!(c.program_counter(), 0x206);
    let mut c = machine(&[0x61, 0xA, 0xE1, 0xA1]);
    run(&mut c, 2);
    assert_eq!(c.program_counter(), 0x206);
    let mut c = machine(&[0x61, 0xA, 0xE1, 0xA1]);
    c.keypad.set(0xA, true);
    run(&mut c, 2);
    assert_eq!(c.program_counter(), 0x204);
}

#[test]
fn timers_count_down_once_per_cycle_and_stop_at_zero() {
    let mut c = machine(&[0x61, 2, 0xF1, 0x15, 0xF1, 0x18, 0xF2, 0x07]);
    run(&mut c, 2);
    assert_eq!(c.delay_timer(), 1);
    run(&mut c, 1);
    assert_eq!(c.delay_timer(), 0);
    assert_eq!(c.sound_timer(), 1);
    run(&mut c, 1);
    assert_eq!(c.register(2), 0);
    assert_eq!(c.sound_timer(), 0);
}

#[test]
fn get_delay_reads_the_timer_before_it_counts_down() {
    let mut c = machine(&[0x61, 9, 0xF1, 0x15, 0xF2, 0x07]);
    run(&mut c, 3);
    assert_eq!(c.register(2), 8);
}

#[test]
fn address_register_instructions() {
    let mut c = machine(&[0xA1, 0x00, 0x61, 0x22, 0xF1, 0x1E, 0x62, 0xB, 0xF2, 0x29]);
    run(&mut c, 3);
    assert_eq!(c.address_register(), 0x122);
    run(&mut c, 2);
    assert_eq!(c.address_register(), 55);
}

#[test]
fn random_masks_the_random_byte() {
    let mut c = machine(&[0xC3, 0x3C, 0xC4, 0x0F]);
    c.step(0xFF).unwrap();
    assert_eq!(c.register(3), 0x3C);
    c.step(0xA5).unwrap();
    assert_eq!(c.register(4), 0x05);
}

#[test]
fn cycle_runs_one_instruction() {
    let mut c = machine(&[0x61, 0x42, 0xC2, 0x00]);
    let e = c.cycle().unwrap();
    assert_eq!(e.instruction, Instruction::SetNum { x: 1, nn: 0x42 });
    assert_eq!(c.register(1), 0x42);
    c.cycle().unwrap();
    assert_eq!(c.register(2), 0);
    assert_eq!(c.program_counter(), 0x204);
}

#[test]
fn unknown_words_are_skipped() {
    let mut c = machine(&[0x01, 0x23, 0xF1, 0x99]);
    let e = c.step(0).unwrap();
    assert_eq!(e.instruction, Instruction::Unknown { word: 0x0123 });
    assert_eq!(c.program_counter(), 0x202);
    run(&mut c, 1);
    assert_eq!(c.program_counter(), 0x204);
}

#[test]
fn return_with_empty_stack_faults() {
    let mut c = machine(&[0x00, 0xEE]);
    assert_eq!(c.step(0), Err(Fault::StackUnderflow));
    assert_eq!(c.program_counter(), 0x200);
}

#[test]
fn seventeenth_nested_call_faults() {
    let mut c = machine(&[0x22, 0x00]);
    run(&mut c, 16);
    assert_eq!(c.stack_pointer(), 16);
    assert_eq!(c.step(0), Err(Fault::StackOverflow));
    assert_eq!(c.stack_pointer(), 16);
}

#[test]
fn fetch_past_the_end_of_memory_faults() {
    let mut c = machine(&[0x1F, 0xFF]);
    run(&mut c, 1);
    assert_eq!(c.step(0), Err(Fault::ProgramCounterOutOfRange { pc: 0xFFF }));
}

#[test]
fn memory_access_past_the_end_faults() {
    let mut c = machine(&[0xAF, 0xFE, 0xF0, 0x33]);
    run(&mut c, 1);
    assert_eq!(c.step(0), Err(Fault::MemoryOutOfRange { address: 0xFFE }));
    let mut c = machine(&[0xAF, 0xFE, 0xF2, 0x55]);
    run(&mut c, 1);
    assert_eq!(c.step(0), Err(Fault::MemoryOutOfRange { address: 0xFFE }));
    let mut c = machine(&[0xAF, 0xFE, 0xF2, 0x65]);
    run(&mut c, 1);
    assert_eq!(c.step(0), Err(Fault::MemoryOutOfRange { address: 0xFFE }));
    let mut c = machine(&[0xAF, 0xFE, 0xD0, 0x03]);
    run(&mut c, 1);
    assert_eq!(c.step(0), Err(Fault::MemoryOutOfRange { address: 0xFFE }));
}

#[test]
fn key_instruction_with_no_key_code_faults() {
    let mut c = machine(&[0x61, 0x20, 0xE1, 0x9E]);
    run(&mut c, 1);
    assert_eq!(c.step(0), Err(Fault::KeyOutOfRange { key: 0x20 }));
}
