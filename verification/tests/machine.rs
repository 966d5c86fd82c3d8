//! Construction, program loading, keypad, fatal conditions, timers and
//! cycle events.

use chip8_rs::Chip8;
use chip8_rs::CycleEvents;
use chip8_rs::Fatal;
use chip8_rs::LoadError;
use chip8_rs::Quirks;

fn default_quirks() -> Quirks {
    Quirks { shift_uses_vy: false, bnnn_uses_vx: false, fx55_increases_i: false }
}

fn machine() -> Chip8 {
    Chip8::new(default_quirks())
}

fn step(m: &mut Chip8) -> CycleEvents {
    m.emulate_cycle().expect("cycle must not be fatal")
}

/// Writes one opcode at the current program counter and runs one cycle.
fn run_op(m: &mut Chip8, op: u16) -> CycleEvents {
    let pc = m.pc() as usize;
    m.memory[pc % 4096] = (op >> 8) as u8;
    m.memory[(pc + 1) % 4096] = (op & 0xFF) as u8;
    step(m)
}

#[test]
fn new_machine_is_zeroed_with_pc_at_0x200() {
    let m = machine();
    assert_eq!(m.pc(), 0x200);
    assert_eq!(m.index_register(), 0);
    assert_eq!(m.delay_timer(), 0);
    assert_eq!(m.sound_timer(), 0);
    assert_eq!(m.stack_depth(), 0);
    assert!(!m.draw_flag());
    for x in 0..16 {
        assert_eq!(m.reg(x), 0);
        assert!(!m.keypad[x]);
    }
    for y in 0..32 {
        for x in 0..64 {
            assert_eq!(m.pixel(x, y), 0);
        }
    }
}

#[test]
fn new_machine_holds_font_at_0x50() {
    let m = machine();
    // Glyph 0 starts the table; glyph F ends it.
    assert_eq!(m.memory_byte(0x50), 0xF0);
    assert_eq!(m.memory_byte(0x51), 0x90);
    assert_eq!(m.memory_byte(0x9F), 0x80);
    // Just outside the table everything is zero.
    assert_eq!(m.memory_byte(0x4F), 0x00);
    assert_eq!(m.memory_byte(0xA0), 0x00);
}

#[test]
fn load_3600_bytes_fails_program_too_large() {
    let mut m = machine();
    let program = vec![0xAAu8; 3600];
    assert_eq!(m.load_program(&program), Err(LoadError::ProgramTooLarge));
    // Nothing was staged.
    assert_eq!(m.memory_byte(0x200), 0x00);
    assert_eq!(m.memory_byte(4095), 0x00);
}

#[test]
fn load_3584_bytes_fills_memory_to_the_end() {
    let mut m = machine();
    let mut program = vec![0x11u8; 3584];
    program[0] = 0x77;
    program[3583] = 0xAB;
    assert_eq!(m.load_program(&program), Ok(()));
    assert_eq!(m.memory_byte(0x200), 0x77);
    assert_eq!(m.memory_byte(4095), 0xAB);
}

#[test]
fn loaded_program_executes_from_0x200() {
    let mut m = machine();
    // 6A42: VA := 0x42
    let program = vec![0x6A, 0x42];
    m.load_program(&program).unwrap();
    step(&mut m);
    assert_eq!(m.reg(0xA), 0x42);
    assert_eq!(m.pc(), 0x202);
}

#[test]
fn return_on_empty_stack_is_fatal_and_leaves_machine_untouched() {
    let mut m = machine();
    m.memory[0x200] = 0x00;
    m.memory[0x201] = 0xEE;
    assert_eq!(m.emulate_cycle(), Err(Fatal::StackUnderflow));
    // The machine did not move.
    assert_eq!(m.pc(), 0x200);
    assert_eq!(m.stack_depth(), 0);
    // The fault repeats on the next call rather than being swallowed.
    assert_eq!(m.emulate_cycle(), Err(Fatal::StackUnderflow));
}

#[test]
fn call_then_return_balances_the_stack() {
    let mut m = machine();
    // 2300: call 0x300
    let events = run_op(&mut m, 0x2300);
    assert!(events.unknown_opcode.is_none());
    assert_eq!(m.pc(), 0x300);
    assert_eq!(m.stack_depth(), 1);
    // 00EE at 0x300: return to the instruction after the call.
    run_op(&mut m, 0x00EE);
    assert_eq!(m.pc(), 0x202);
    assert_eq!(m.stack_depth(), 0);
}

#[test]
fn unknown_opcode_is_reported_and_is_a_no_op() {
    let mut m = machine();
    run_op(&mut m, 0x6642); // V6 := 0x42
    let events = run_op(&mut m, 0x0123);
    assert_eq!(events.unknown_opcode, Some(0x0123));
    // Execution continued: pc advanced, registers untouched.
    assert_eq!(m.pc(), 0x204);
    assert_eq!(m.reg(6), 0x42);
    // A recognized opcode reports no unknown word.
    let events = run_op(&mut m, 0x6001);
    assert_eq!(events.unknown_opcode, None);
}

#[test]
fn five_and_nine_families_require_a_zero_low_nibble() {
    let mut m = machine();
    let events = run_op(&mut m, 0x5123);
    assert_eq!(events.unknown_opcode, Some(0x5123));
    let events = run_op(&mut m, 0x9127);
    assert_eq!(events.unknown_opcode, Some(0x9127));
}

#[test]
fn timers_tick_down_once_per_cycle() {
    let mut m = machine();
    run_op(&mut m, 0x6003); // V0 := 3
    run_op(&mut m, 0xF015); // delay := V0; tick brings it to 2
    assert_eq!(m.delay_timer(), 2);
    run_op(&mut m, 0x0000); // no-op cycle
    assert_eq!(m.delay_timer(), 1);
    run_op(&mut m, 0x0000);
    assert_eq!(m.delay_timer(), 0);
    run_op(&mut m, 0x0000);
    assert_eq!(m.delay_timer(), 0);
}

#[test]
fn sound_timer_signals_beep_on_its_final_tick() {
    let mut m = machine();
    run_op(&mut m, 0x6002); // V0 := 2
    let events = run_op(&mut m, 0xF018); // sound := 2, ticks to 1
    assert!(!events.beep);
    assert_eq!(m.sound_timer(), 1);
    let events = run_op(&mut m, 0x0000); // sound stands at 1: beep edge
    assert!(events.beep);
    assert_eq!(m.sound_timer(), 0);
    let events = run_op(&mut m, 0x0000);
    assert!(!events.beep);
    assert_eq!(m.sound_timer(), 0);
}

#[test]
fn read_delay_timer_into_register() {
    let mut m = machine();
    run_op(&mut m, 0x6005); // V0 := 5
    run_op(&mut m, 0xF015); // delay := 5, ticks to 4
    run_op(&mut m, 0xF307); // V3 := delay
    assert_eq!(m.reg(3), 4);
}

#[test]
fn keypad_events_set_and_clear_keys() {
    let mut m = machine();
    m.set_key(4, true);
    assert!(m.keypad[4]);
    m.set_key(4, false);
    assert!(!m.keypad[4]);
}

#[test]
fn draw_flag_is_set_by_the_engine_and_cleared_by_the_driver() {
    let mut m = machine();
    run_op(&mut m, 0x00E0);
    assert!(m.draw_flag());
    m.clear_draw_flag();
    assert!(!m.draw_flag());
}

#[test]
fn quirks_are_kept_as_constructed() {
    let q = Quirks { shift_uses_vy: true, bnnn_uses_vx: false, fx55_increases_i: true };
    let m = Chip8::new(q);
    assert_eq!(m.quirks(), q);
}

#[test]
fn framebuffer_getter_matches_pixels() {
    let mut m = machine();
    m.memory[0x300] = 0x80;
    run_op(&mut m, 0xA300); // I := 0x300
    run_op(&mut m, 0x6005); // V0 := 5 (x)
    run_op(&mut m, 0x6107); // V1 := 7 (y)
    run_op(&mut m, 0xD011); // draw 1 row at (5, 7)
    let fb = m.framebuffer();
    assert_eq!(fb.len(), 64 * 32);
    assert_eq!(fb[7 * 64 + 5], 1);
    assert_eq!(m.pixel(5, 7), 1);
}
