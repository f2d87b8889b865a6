use chip8_vm::keypad::{key_event, set_keypad_value, KeyEvent};
use chip8_vm::machine::{Execution, VirtualMachine, VmError, FRAME_BUDGET_NS, KEY_RELEASE_NS};
use chip8_vm::ops::{decode_opcode, Operation};
use chip8_vm::settings::Chip8Settings;

fn settings() -> Chip8Settings {
    Chip8Settings {
        shift_quirk: false,
        or_and_xor_quirk: false,
        mem_quirk: false,
        sprite_wrapping_quirk: false,
        jump_offset_quirk: false,
        execution_speed_permille: 1000,
        font_memory_starting_location: 0x050,
    }
}

fn machine(s: Chip8Settings, program: &[u16]) -> VirtualMachine {
    let mut bytes = Vec::new();
    for op in program {
        bytes.push((op >> 8) as u8);
        bytes.push((op & 0xff) as u8);
    }
    VirtualMachine::initialize(&s, &bytes).unwrap()
}

fn step(vm: &mut VirtualMachine) -> Result<Execution, VmError> {
    vm.simulate_operation_cycle(0, 0)
}

/// Runs `cycles` operations, letting a frame pass whenever one is deferred.
fn run(vm: &mut VirtualMachine, cycles: usize) {
    for _ in 0..cycles {
        while step(vm).unwrap() == Execution::Deferred {
            vm.simulate_operation_cycle(FRAME_BUDGET_NS, 0).unwrap();
        }
    }
}

#[test]
fn initialize_loads_font_and_program() {
    let vm = machine(settings(), &[0x1234]);
    assert_eq!(vm.pc, 0x200);
    assert_eq!(vm.mem[0x200], 0x12);
    assert_eq!(vm.mem[0x201], 0x34);
    assert_eq!(vm.mem[0x202], 0);
    assert_eq!(vm.mem[0x050], 0xf0);
    assert_eq!(vm.mem[0x055], 0x20);
    assert_eq!(vm.mem[0x050 + 79], 0x80);
    assert_eq!(vm.font_locations[0], 0x050);
    assert_eq!(vm.font_locations[15], 0x050 + 75);
    assert_eq!(vm.sp, 0);
    assert!(vm.fb.iter().all(|p| !p));
}

#[test]
fn initialize_rejects_font_outside_low_memory() {
    let mut s = settings();
    s.font_memory_starting_location = 0x1c0;
    assert_eq!(VirtualMachine::initialize(&s, &[]).err(), Some(VmError::FontOutOfRange));
    s.font_memory_starting_location = 0x200 - 80;
    assert!(VirtualMachine::initialize(&s, &[]).is_ok());
}

#[test]
fn initialize_rejects_oversized_program() {
    let big = vec![0u8; 4096 - 0x200 + 1];
    assert_eq!(
        VirtualMachine::initialize(&settings(), &big).err(),
        Some(VmError::ProgramTooLarge)
    );
    let fits = vec![0xaau8; 4096 - 0x200];
    let vm = VirtualMachine::initialize(&settings(), &fits).unwrap();
    assert_eq!(vm.mem[4095], 0xaa);
}

#[test]
fn decode_splits_operands() {
    assert_eq!(decode_opcode(0xd12f), Ok(Operation::DrawSprite { x: 1, y: 2, n: 15 }));
    assert_eq!(decode_opcode(0x8ab4), Ok(Operation::Add { x: 0xa, y: 0xb }));
    assert_eq!(decode_opcode(0x00e0), Ok(Operation::ClearDisplay));
    assert_eq!(decode_opcode(0x00ee), Ok(Operation::SubroutineReturn));
    assert_eq!(decode_opcode(0x0123), Ok(Operation::CallRoutine { nnn: 0x123 }));
    assert_eq!(decode_opcode(0xf365), Ok(Operation::LoadRegisters { x: 3 }));
    assert_eq!(decode_opcode(0x8008), Err(VmError::UnknownOpcode(0x8008)));
    assert_eq!(decode_opcode(0x5121), Err(VmError::UnknownOpcode(0x5121)));
    assert_eq!(decode_opcode(0xe000), Err(VmError::UnknownOpcode(0xe000)));
    assert_eq!(decode_opcode(0xf0ff), Err(VmError::UnknownOpcode(0xf0ff)));
}

#[test]
fn costs_scale_with_speed() {
    assert_eq!(Operation::DrawSprite { x: 0, y: 0, n: 1 }.cost_ns(1000), 10_734_000);
    assert_eq!(Operation::ClearDisplay.cost_ns(500), 54_500);
    assert_eq!(Operation::SetVxToNn { x: 0, nn: 0 }.cost_ns(2000), 54_000);
}

#[test]
fn clear_then_jump_loops_forever_with_blank_screen() {
    let mut vm = machine(settings(), &[0x00e0, 0x1200]);
    vm.fb[5] = true;
    vm.fb[2047] = true;
    assert_eq!(step(&mut vm), Ok(Execution::Done(109_000)));
    assert!(vm.fb.iter().all(|p| !p));
    assert_eq!(vm.pc, 0x202);
    for _ in 0..100 {
        step(&mut vm).unwrap();
        assert!(vm.pc == 0x200 || vm.pc == 0x202);
        assert_eq!(vm.sp, 0);
        assert!(vm.fb.iter().all(|p| !p));
    }
    step(&mut vm).unwrap();
    step(&mut vm).unwrap();
    assert_eq!(vm.pc, 0x202);
}

#[test]
fn shift_right_copies_vy_without_quirk() {
    let mut vm = machine(settings(), &[0x6000, 0x6103, 0x8016]);
    run(&mut vm, 3);
    assert_eq!(vm.v[0], 0x01);
    assert_eq!(vm.v[0xf], 1);
}

#[test]
fn shift_right_ignores_vy_with_quirk() {
    let mut s = settings();
    s.shift_quirk = true;
    let mut vm = machine(s, &[0x6000, 0x6103, 0x8016]);
    run(&mut vm, 3);
    assert_eq!(vm.v[0], 0x00);
    assert_eq!(vm.v[0xf], 0);
}

#[test]
fn shift_left_flags_high_bit() {
    let mut vm = machine(settings(), &[0x6081, 0x610f, 0x801e]);
    run(&mut vm, 3);
    assert_eq!(vm.v[0], 0x1e);
    assert_eq!(vm.v[0xf], 0);
    let mut s = settings();
    s.shift_quirk = true;
    let mut vm = machine(s, &[0x6081, 0x610f, 0x801e]);
    run(&mut vm, 3);
    assert_eq!(vm.v[0], 0x02);
    assert_eq!(vm.v[0xf], 1);
}

#[test]
fn or_resets_flag_only_with_logic_quirk() {
    let program = [0x6f01, 0x6030, 0x6103, 0x8011];
    let mut vm = machine(settings(), &program);
    run(&mut vm, 4);
    assert_eq!(vm.v[0], 0x33);
    assert_eq!(vm.v[0xf], 1);
    let mut s = settings();
    s.or_and_xor_quirk = true;
    let mut vm = machine(s, &program);
    run(&mut vm, 4);
    assert_eq!(vm.v[0], 0x33);
    assert_eq!(vm.v[0xf], 0);
}

#[test]
fn and_xor_results() {
    let mut vm = machine(settings(), &[0x603c, 0x610f, 0x8012, 0x623c, 0x8213]);
    run(&mut vm, 5);
    assert_eq!(vm.v[0], 0x0c);
    assert_eq!(vm.v[2], 0x33);
}

#[test]
fn add_registers_sets_carry() {
    let mut vm = machine(settings(), &[0x60c8, 0x6164, 0x8014, 0x6201, 0x6301, 0x8234]);
    run(&mut vm, 6);
    assert_eq!(vm.v[0], 44);
    assert_eq!(vm.v[2], 2);
    assert_eq!(vm.v[0xf], 0);
    let mut vm = machine(settings(), &[0x60c8, 0x6164, 0x8014]);
    run(&mut vm, 3);
    assert_eq!(vm.v[0xf], 1);
}

#[test]
fn subtract_sets_no_borrow_flag() {
    let mut vm = machine(settings(), &[0x6005, 0x6103, 0x8015]);
    run(&mut vm, 3);
    assert_eq!((vm.v[0], vm.v[0xf]), (2, 1));
    let mut vm = machine(settings(), &[0x6003, 0x6105, 0x8015]);
    run(&mut vm, 3);
    assert_eq!((vm.v[0], vm.v[0xf]), (254, 0));
    let mut vm = machine(settings(), &[0x6003, 0x6105, 0x8017]);
    run(&mut vm, 3);
    assert_eq!((vm.v[0], vm.v[0xf]), (2, 1));
    let mut vm = machine(settings(), &[0x6005, 0x6105, 0x8017]);
    run(&mut vm, 3);
    assert_eq!((vm.v[0], vm.v[0xf]), (0, 1));
}

#[test]
fn add_immediate_wraps_without_flag() {
    let mut vm = machine(settings(), &[0x6ff0, 0x6ff0, 0x7f20, 0x60ff, 0x7002]);
    run(&mut vm, 5);
    assert_eq!(vm.v[0], 1);
    assert_eq!(vm.v[0xf], 0x10);
}

#[test]
fn skips_follow_comparisons() {
    let mut vm = machine(settings(), &[0x6005, 0x3005]);
    run(&mut vm, 2);
    assert_eq!(vm.pc, 0x206);
    let mut vm = machine(settings(), &[0x6005, 0x3006]);
    run(&mut vm, 2);
    assert_eq!(vm.pc, 0x204);
    let mut vm = machine(settings(), &[0x6005, 0x4006]);
    run(&mut vm, 2);
    assert_eq!(vm.pc, 0x206);
    let mut vm = machine(settings(), &[0x6005, 0x6105, 0x5010]);
    run(&mut vm, 3);
    assert_eq!(vm.pc, 0x208);
    let mut vm = machine(settings(), &[0x6005, 0x6105, 0x9010]);
    run(&mut vm, 3);
    assert_eq!(vm.pc, 0x206);
}

#[test]
fn call_and_return() {
    let mut vm = machine(settings(), &[0x2206, 0x6001, 0x1204, 0x00ee]);
    step(&mut vm).unwrap();
    assert_eq!(vm.pc, 0x206);
    assert_eq!(vm.sp, 1);
    assert_eq!(vm.stack[0], 0x200);
    step(&mut vm).unwrap();
    assert_eq!(vm.pc, 0x202);
    assert_eq!(vm.sp, 0);
    run(&mut vm, 2);
    assert_eq!(vm.v[0], 1);
    assert_eq!(vm.pc, 0x204);
}

#[test]
fn return_with_empty_stack_fails() {
    let mut vm = machine(settings(), &[0x00ee]);
    assert_eq!(step(&mut vm), Err(VmError::StackUnderflow));
    assert_eq!(vm.pc, 0x200);
}

#[test]
fn call_with_full_stack_fails() {
    let mut vm = machine(settings(), &[0x2200]);
    run(&mut vm, 16);
    assert_eq!(vm.sp, 16);
    assert_eq!(step(&mut vm), Err(VmError::StackOverflow));
    assert_eq!(vm.sp, 16);
}

#[test]
fn unknown_opcode_fails_without_change() {
    let mut vm = machine(settings(), &[0xe000]);
    assert_eq!(step(&mut vm), Err(VmError::UnknownOpcode(0xe000)));
    assert_eq!(vm.pc, 0x200);
    assert_eq!(vm.frame_time_ns, 0);
}

#[test]
fn fetch_past_memory_end_fails() {
    let mut vm = machine(settings(), &[0x1fff]);
    step(&mut vm).unwrap();
    assert_eq!(vm.pc, 0xfff);
    assert_eq!(vm.fetch_opcode(), Err(VmError::MemoryOutOfBounds));
    assert_eq!(step(&mut vm), Err(VmError::MemoryOutOfBounds));
    let mut vm = machine(settings(), &[0x1ffe]);
    step(&mut vm).unwrap();
    assert_eq!(vm.fetch_opcode(), Ok(0x0000));
}

#[test]
fn jump_with_offset() {
    let mut vm = machine(settings(), &[0x6004, 0x6210, 0xb300]);
    run(&mut vm, 3);
    assert_eq!(vm.pc, 0x304);
    let mut s = settings();
    s.jump_offset_quirk = true;
    let mut vm = machine(s, &[0x6004, 0x6310, 0xb300]);
    run(&mut vm, 3);
    assert_eq!(vm.pc, 0x310);
}

#[test]
fn index_register_operations() {
    let mut vm = machine(settings(), &[0xa123, 0x6010, 0xf01e]);
    run(&mut vm, 3);
    assert_eq!(vm.i, 0x133);
    let mut vm = machine(settings(), &[0xafff, 0x6002, 0xf01e, 0xf01e]);
    run(&mut vm, 3);
    assert_eq!(vm.i, 0x1001);
    let mut vm = machine(settings(), &[0x601a, 0xf029]);
    run(&mut vm, 2);
    assert_eq!(vm.i, 0x050 + 5 * 0xa);
}

#[test]
fn random_is_masked() {
    let mut vm = machine(settings(), &[0x6055, 0xc000]);
    run(&mut vm, 2);
    assert_eq!(vm.v[0], 0);
    let mut vm = machine(settings(), &[0xc00f]);
    run(&mut vm, 1);
    assert_eq!(vm.v[0] & 0xf0, 0);
    let mut vm = machine(settings(), &[0xc10f]);
    vm.run_cycle(0xab, 0, 0).unwrap();
    assert_eq!(vm.v[1], 0x0b);
}

#[test]
fn draw_twice_restores_screen() {
    // Draw the glyph for 0 at (2, 3), then again.
    let mut vm = machine(settings(), &[0xa050, 0x6002, 0x6103, 0xd015, 0xd015]);
    vm.fb[3 * 64 + 2] = true;
    vm.fb[3 * 64 + 7] = true;
    let before = vm.fb;
    run(&mut vm, 4);
    assert_eq!(vm.v[0xf], 1);
    assert!(!vm.fb[3 * 64 + 2]);
    assert!(vm.fb[3 * 64 + 3]);
    assert!(vm.fb[3 * 64 + 7]);
    assert!(vm.fb[4 * 64 + 2]);
    assert!(!vm.fb[4 * 64 + 3]);
    run(&mut vm, 1);
    assert_eq!(vm.fb, before);
    assert_eq!(vm.v[0xf], 1);
}

#[test]
fn draw_on_blank_screen_has_no_collision() {
    let mut vm = machine(settings(), &[0xa050, 0x6f01, 0xd005, 0xd005]);
    run(&mut vm, 3);
    assert_eq!(vm.v[0xf], 0);
    assert_eq!(vm.fb.iter().filter(|p| **p).count(), 14);
    run(&mut vm, 1);
    assert_eq!(vm.v[0xf], 1);
    assert!(vm.fb.iter().all(|p| !p));
}

#[test]
fn draw_clips_at_edges() {
    // Glyph 0 at (62, 30): only two columns and two rows land on screen.
    let mut vm = machine(settings(), &[0xa050, 0x603e, 0x611e, 0xd015]);
    run(&mut vm, 4);
    assert_eq!(vm.fb.iter().filter(|p| **p).count(), 3);
    assert!(vm.fb[30 * 64 + 62]);
    assert!(vm.fb[30 * 64 + 63]);
    assert!(vm.fb[31 * 64 + 62]);
    assert!(!vm.fb[31 * 64 + 63]);
    assert!(!vm.fb[30 * 64]);
    assert!(!vm.fb[0]);
}

#[test]
fn draw_start_wraps_only_with_quirk() {
    let program = [0xa050, 0x6042, 0x6121, 0xd015];
    let mut vm = machine(settings(), &program);
    run(&mut vm, 4);
    assert!(vm.fb.iter().all(|p| !p));
    let mut s = settings();
    s.sprite_wrapping_quirk = true;
    let mut vm = machine(s, &program);
    run(&mut vm, 4);
    assert!(vm.fb[64 + 2]);
    assert_eq!(vm.fb.iter().filter(|p| **p).count(), 14);
}

#[test]
fn draw_reading_past_memory_fails() {
    let mut vm = machine(settings(), &[0xaffe, 0xd005]);
    run(&mut vm, 1);
    assert_eq!(step(&mut vm), Err(VmError::MemoryOutOfBounds));
    assert_eq!(vm.pc, 0x202);
}

#[test]
fn bcd_digits() {
    let mut vm = machine(settings(), &[0x60fe, 0xa300, 0xf033]);
    run(&mut vm, 3);
    assert_eq!(&vm.mem[0x300..0x303], &[2, 5, 4]);
    let mut vm = machine(settings(), &[0x6007, 0xaffe, 0xf033]);
    run(&mut vm, 2);
    assert_eq!(step(&mut vm), Err(VmError::MemoryOutOfBounds));
}

#[test]
fn store_and_load_registers() {
    let program = [0x6001, 0x6102, 0x6203, 0xa300, 0xf255, 0x6000, 0x6100, 0xa300, 0xf165];
    let mut vm = machine(settings(), &program);
    run(&mut vm, 5);
    assert_eq!(&vm.mem[0x300..0x304], &[1, 2, 3, 0]);
    assert_eq!(vm.i, 0x300);
    run(&mut vm, 4);
    assert_eq!((vm.v[0], vm.v[1], vm.v[2]), (1, 2, 3));
    assert_eq!(vm.i, 0x300);
    let mut s = settings();
    s.mem_quirk = true;
    let mut vm = machine(s, &program);
    run(&mut vm, 5);
    assert_eq!(vm.i, 0x303);
    run(&mut vm, 4);
    assert_eq!(vm.i, 0x302);
    let mut vm = machine(settings(), &[0xaffe, 0xf255]);
    run(&mut vm, 1);
    assert_eq!(step(&mut vm), Err(VmError::MemoryOutOfBounds));
}

#[test]
fn timers_count_down_at_frame_boundary() {
    let mut vm = machine(settings(), &[0x6003, 0xf015, 0xf018, 0xf207, 0x1208]);
    run(&mut vm, 4);
    assert_eq!(vm.delay_timer, 3);
    assert_eq!(vm.sound_timer, 3);
    assert!(vm.buzzer_active());
    assert_eq!(vm.v[2], 3);
    assert!(!vm.draw_flag);
    vm.simulate_operation_cycle(FRAME_BUDGET_NS, 0).unwrap();
    assert!(vm.draw_flag);
    assert_eq!(vm.frame_time_ns, 0);
    assert_eq!(vm.delay_timer, 2);
    assert_eq!(vm.sound_timer, 2);
    for _ in 0..5 {
        vm.simulate_operation_cycle(u64::MAX, 0).unwrap();
    }
    assert_eq!(vm.delay_timer, 0);
    assert_eq!(vm.sound_timer, 0);
    assert!(!vm.buzzer_active());
}

#[test]
fn operation_over_budget_is_deferred() {
    let mut vm = machine(settings(), &[0xa050, 0xd015]);
    step(&mut vm).unwrap();
    vm.frame_time_ns = FRAME_BUDGET_NS - 10_000_000;
    let before_fb = vm.fb;
    assert_eq!(step(&mut vm), Ok(Execution::Deferred));
    assert_eq!(vm.pc, 0x202);
    assert_eq!(vm.fb, before_fb);
    assert_eq!(vm.frame_time_ns, FRAME_BUDGET_NS - 10_000_000);
    vm.frame_time_ns = FRAME_BUDGET_NS - 10_734_000;
    assert_eq!(step(&mut vm), Ok(Execution::Done(10_734_000)));
    assert_eq!(vm.pc, 0x204);
    assert_eq!(vm.frame_time_ns, FRAME_BUDGET_NS);
}

#[test]
fn deferred_operation_runs_after_boundary() {
    let mut vm = machine(settings(), &[0x6007]);
    vm.frame_time_ns = FRAME_BUDGET_NS;
    assert_eq!(vm.simulate_operation_cycle(1, 0), Ok(Execution::Deferred));
    assert!(vm.draw_flag);
    assert_eq!(vm.frame_time_ns, 0);
    assert_eq!(vm.pc, 0x200);
    assert_eq!(step(&mut vm), Ok(Execution::Done(27_000)));
    assert_eq!(vm.v[0], 7);
}

#[test]
fn wait_for_key_needs_press_and_release() {
    let mut vm = machine(settings(), &[0xf30a]);
    for _ in 0..3 {
        step(&mut vm).unwrap();
        assert_eq!(vm.pc, 0x200);
    }
    set_keypad_value(&mut vm, 0x5, 1_000);
    assert!(vm.keypad[5]);
    step(&mut vm).unwrap();
    assert_eq!(vm.pc, 0x200);
    set_keypad_value(&mut vm, 0x50, 2_000);
    assert!(!vm.keypad[5]);
    assert!(vm.keypad_shadow[5]);
    assert_eq!(vm.key_release_ns[5], 2_000);
    vm.simulate_operation_cycle(0, 3_000).unwrap();
    assert_eq!(vm.v[3], 5);
    assert_eq!(vm.pc, 0x202);
}

#[test]
fn key_release_expires_after_window() {
    let mut vm = machine(settings(), &[0x1200]);
    vm.key_up(7, 1_000);
    vm.simulate_operation_cycle(0, 1_000 + KEY_RELEASE_NS - 1).unwrap();
    assert!(vm.keypad_shadow[7]);
    vm.simulate_operation_cycle(0, 1_000 + KEY_RELEASE_NS).unwrap();
    assert!(!vm.keypad_shadow[7]);
}

#[test]
fn expired_release_is_not_a_keypress() {
    let mut vm = machine(settings(), &[0x1200, 0xf00a]);
    vm.key_up(4, 0);
    vm.simulate_operation_cycle(0, KEY_RELEASE_NS).unwrap();
    vm.pc = 0x202;
    step(&mut vm).unwrap();
    assert_eq!(vm.pc, 0x202);
}

#[test]
fn key_skips() {
    let mut vm = machine(settings(), &[0x6012, 0xe09e]);
    vm.key_down(2);
    run(&mut vm, 2);
    assert_eq!(vm.pc, 0x206);
    let mut vm = machine(settings(), &[0x6012, 0xe0a1]);
    vm.key_down(2);
    run(&mut vm, 2);
    assert_eq!(vm.pc, 0x204);
    let mut vm = machine(settings(), &[0x6012, 0xe0a1]);
    run(&mut vm, 2);
    assert_eq!(vm.pc, 0x206);
}

#[test]
fn input_codes() {
    assert_eq!(key_event(0x0), Some(KeyEvent::Down(0)));
    assert_eq!(key_event(0xf), Some(KeyEvent::Down(0xf)));
    assert_eq!(key_event(0x100), Some(KeyEvent::Up(0)));
    assert_eq!(key_event(0xa0), Some(KeyEvent::Up(0xa)));
    assert_eq!(key_event(0x1000), None);
    let mut vm = machine(settings(), &[]);
    set_keypad_value(&mut vm, 0x0, 5);
    assert!(vm.keypad[0]);
    set_keypad_value(&mut vm, 0x100, 9);
    assert!(!vm.keypad[0]);
    assert!(vm.keypad_shadow[0]);
    assert_eq!(vm.key_release_ns[0], 9);
    let copy = vm.keypad_shadow;
    set_keypad_value(&mut vm, 0x1000, 9);
    assert_eq!(vm.keypad_shadow, copy);
}

#[test]
fn reset_keeps_program_and_settings() {
    let mut s = settings();
    s.mem_quirk = true;
    let mut vm = machine(s, &[0x6107, 0xf115, 0x2208, 0x0000, 0xa050, 0xd015]);
    vm.key_down(3);
    vm.key_up(4, 10);
    run(&mut vm, 5);
    assert_eq!(vm.sp, 1);
    let mem = vm.mem;
    vm.reset();
    assert_eq!(vm.mem, mem);
    assert_eq!(vm.settings, s);
    assert_eq!(vm.pc, 0x200);
    assert_eq!(vm.sp, 0);
    assert_eq!(vm.i, 0);
    assert_eq!(vm.v, [0u8; 16]);
    assert_eq!(vm.delay_timer, 0);
    assert_eq!(vm.sound_timer, 0);
    assert_eq!(vm.keypad, [false; 16]);
    assert_eq!(vm.keypad_shadow, [false; 16]);
    assert!(vm.fb.iter().all(|p| !p));
    assert_eq!(vm.font_locations[1], 0x055);
    step(&mut vm).unwrap();
    assert_eq!(vm.v[1], 7);
}

#[test]
fn legacy_routine_call_is_ignored() {
    let mut vm = machine(settings(), &[0x0123]);
    assert_eq!(step(&mut vm), Ok(Execution::Done(100_000)));
    assert_eq!(vm.pc, 0x202);
}
