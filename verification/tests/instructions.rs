//! Opcode semantics: arithmetic flags, skips, jumps, shifts, sprite
//! drawing, register stores and loads, and the quirk toggles.

use chip8_rs::isa::decode;
use chip8_rs::Chip8;
use chip8_rs::CycleEvents;
use chip8_rs::Instruction;
use chip8_rs::Quirks;

fn machine_with(quirks: Quirks) -> Chip8 {
    Chip8::new(quirks)
}

fn machine() -> Chip8 {
    machine_with(Quirks { shift_uses_vy: false, bnnn_uses_vx: false, fx55_increases_i: false })
}

fn step(m: &mut Chip8) -> CycleEvents {
    m.emulate_cycle().expect("cycle must not be fatal")
}

/// Writes one opcode at the current program counter and runs one cycle.
fn run_op(m: &mut Chip8, op: u16) -> CycleEvents {
    let pc = m.pc() as usize;
    m.memory[pc % 4096] = (op >> 8) as u8;
    m.memory[(pc + 1) % 4096] = (op & 0xFF) as u8;
    step(m)
}

#[test]
fn decode_classifies_each_opcode_family() {
    assert_eq!(decode(0x00E0), Instruction::ClearScreen);
    assert_eq!(decode(0x00EE), Instruction::Return);
    assert_eq!(decode(0x1abc), Instruction::Jump { nnn: 0xabc });
    assert_eq!(decode(0x2def), Instruction::Call { nnn: 0xdef });
    assert_eq!(decode(0x3a55), Instruction::SkipEqImm { x: 0xa, kk: 0x55 });
    assert_eq!(decode(0x4b66), Instruction::SkipNeImm { x: 0xb, kk: 0x66 });
    assert_eq!(decode(0x5cd0), Instruction::SkipEqReg { x: 0xc, y: 0xd });
    assert_eq!(decode(0x6e99), Instruction::LoadImm { x: 0xe, kk: 0x99 });
    assert_eq!(decode(0x7f01), Instruction::AddImm { x: 0xf, kk: 0x01 });
    assert_eq!(decode(0x8120), Instruction::Move { x: 1, y: 2 });
    assert_eq!(decode(0x8121), Instruction::Or { x: 1, y: 2 });
    assert_eq!(decode(0x8122), Instruction::And { x: 1, y: 2 });
    assert_eq!(decode(0x8123), Instruction::Xor { x: 1, y: 2 });
    assert_eq!(decode(0x8124), Instruction::AddReg { x: 1, y: 2 });
    assert_eq!(decode(0x8125), Instruction::SubReg { x: 1, y: 2 });
    assert_eq!(decode(0x8126), Instruction::ShiftRight { x: 1, y: 2 });
    assert_eq!(decode(0x8127), Instruction::SubFrom { x: 1, y: 2 });
    assert_eq!(decode(0x812E), Instruction::ShiftLeft { x: 1, y: 2 });
    assert_eq!(decode(0x9340), Instruction::SkipNeReg { x: 3, y: 4 });
    assert_eq!(decode(0xA321), Instruction::LoadIndex { nnn: 0x321 });
    assert_eq!(decode(0xB654), Instruction::JumpOffset { x: 6, nnn: 0x654 });
    assert_eq!(decode(0xC2F0), Instruction::Random { x: 2, kk: 0xF0 });
    assert_eq!(decode(0xD125), Instruction::Draw { x: 1, y: 2, n: 5 });
    assert_eq!(decode(0xE49E), Instruction::SkipKeyDown { x: 4 });
    assert_eq!(decode(0xE5A1), Instruction::SkipKeyUp { x: 5 });
    assert_eq!(decode(0xF107), Instruction::ReadDelay { x: 1 });
    assert_eq!(decode(0xF20A), Instruction::WaitKey { x: 2 });
    assert_eq!(decode(0xF315), Instruction::SetDelay { x: 3 });
    assert_eq!(decode(0xF418), Instruction::SetSound { x: 4 });
    assert_eq!(decode(0xF51E), Instruction::AddIndex { x: 5 });
    assert_eq!(decode(0xF629), Instruction::FontIndex { x: 6 });
    assert_eq!(decode(0xF733), Instruction::StoreDigits { x: 7 });
    assert_eq!(decode(0xF855), Instruction::StoreRegs { x: 8 });
    assert_eq!(decode(0xF965), Instruction::LoadRegs { x: 9 });
    assert_eq!(decode(0x8128), Instruction::Unknown { op: 0x8128 });
    assert_eq!(decode(0xE400), Instruction::Unknown { op: 0xE400 });
    assert_eq!(decode(0xF499), Instruction::Unknown { op: 0xF499 });
    assert_eq!(decode(0x0300), Instruction::Unknown { op: 0x0300 });
}

#[test]
fn load_immediate_then_add_zero_is_identity() {
    // 6xkk followed by 7x00 leaves Vx == kk, for a sample of kk values.
    for &kk in &[0x00u8, 0x01, 0x5A, 0x7F, 0x80, 0xFE, 0xFF] {
        let mut m = machine();
        run_op(&mut m, 0x6200 | kk as u16); // V2 := kk
        run_op(&mut m, 0x7200); // V2 := V2 + 0
        assert_eq!(m.reg(2), kk);
    }
}

#[test]
fn add_immediate_wraps_without_touching_vf() {
    let mut m = machine();
    run_op(&mut m, 0x6FAA); // VF := 0xAA, to see that 7xkk never writes it
    run_op(&mut m, 0x60FE); // V0 := 0xFE
    run_op(&mut m, 0x7003); // V0 := 0xFE + 3 = 0x01 (wrapped)
    assert_eq!(m.reg(0), 0x01);
    assert_eq!(m.reg(0xF), 0xAA);
}

#[test]
fn add_register_sets_carry_on_overflow() {
    let mut m = machine();
    run_op(&mut m, 0x61FF); // V1 := 0xFF
    run_op(&mut m, 0x6201); // V2 := 0x01
    run_op(&mut m, 0x8124); // V1 += V2
    assert_eq!(m.reg(1), 0x00);
    assert_eq!(m.reg(0xF), 1);
}

#[test]
fn add_register_clears_carry_without_overflow() {
    let mut m = machine();
    run_op(&mut m, 0x6101); // V1 := 0x01
    run_op(&mut m, 0x6201); // V2 := 0x01
    run_op(&mut m, 0x8124); // V1 += V2
    assert_eq!(m.reg(1), 0x02);
    assert_eq!(m.reg(0xF), 0);
}

#[test]
fn sub_register_borrows_and_wraps() {
    let mut m = machine();
    run_op(&mut m, 0x6105); // V1 := 0x05
    run_op(&mut m, 0x620A); // V2 := 0x0A
    run_op(&mut m, 0x8125); // V1 -= V2
    assert_eq!(m.reg(0xF), 0); // V1 was not greater than V2
    assert_eq!(m.reg(1), 0xFB); // 5 - 10 wrapped
}

#[test]
fn sub_register_sets_no_borrow_flag() {
    let mut m = machine();
    run_op(&mut m, 0x610A); // V1 := 0x0A
    run_op(&mut m, 0x6205); // V2 := 0x05
    run_op(&mut m, 0x8125); // V1 -= V2
    assert_eq!(m.reg(0xF), 1);
    assert_eq!(m.reg(1), 0x05);
}

#[test]
fn sub_from_reverses_the_operands() {
    let mut m = machine();
    run_op(&mut m, 0x6103); // V1 := 3
    run_op(&mut m, 0x6208); // V2 := 8
    run_op(&mut m, 0x8127); // V1 := V2 - V1
    assert_eq!(m.reg(1), 5);
    assert_eq!(m.reg(0xF), 1); // V2 > V1 held
    run_op(&mut m, 0x6109); // V1 := 9
    run_op(&mut m, 0x8127); // V1 := 8 - 9, wrapped
    assert_eq!(m.reg(1), 0xFF);
    assert_eq!(m.reg(0xF), 0);
}

#[test]
fn move_or_and_xor_write_the_target() {
    let mut m = machine();
    run_op(&mut m, 0x61F0); // V1 := 0xF0
    run_op(&mut m, 0x620F); // V2 := 0x0F
    run_op(&mut m, 0x8320); // V3 := V2
    assert_eq!(m.reg(3), 0x0F);
    run_op(&mut m, 0x8121); // V1 |= V2
    assert_eq!(m.reg(1), 0xFF);
    run_op(&mut m, 0x61CC); // V1 := 0xCC
    run_op(&mut m, 0x62AA); // V2 := 0xAA
    run_op(&mut m, 0x8122); // V1 &= V2
    assert_eq!(m.reg(1), 0x88);
    run_op(&mut m, 0x61CC);
    run_op(&mut m, 0x8123); // V1 ^= V2
    assert_eq!(m.reg(1), 0x66);
}

#[test]
fn shifts_use_vx_without_the_quirk() {
    let mut m = machine();
    run_op(&mut m, 0x610B); // V1 := 0b0000_1011
    run_op(&mut m, 0x6277); // V2 := a decoy the shift must ignore
    run_op(&mut m, 0x8126); // V1 >>= 1
    assert_eq!(m.reg(1), 0x05);
    assert_eq!(m.reg(0xF), 1); // bit shifted out
    run_op(&mut m, 0x6181); // V1 := 0b1000_0001
    run_op(&mut m, 0x812E); // V1 <<= 1
    assert_eq!(m.reg(1), 0x02);
    assert_eq!(m.reg(0xF), 1); // bit 7 shifted out
}

#[test]
fn shifts_read_vy_under_the_quirk() {
    let mut m = machine_with(Quirks {
        shift_uses_vy: true,
        bnnn_uses_vx: false,
        fx55_increases_i: false,
    });
    run_op(&mut m, 0x61FF); // V1, overwritten by the shift result
    run_op(&mut m, 0x6206); // V2 := 0b0000_0110
    run_op(&mut m, 0x8126); // V1 := V2 >> 1
    assert_eq!(m.reg(1), 0x03);
    assert_eq!(m.reg(0xF), 0);
    run_op(&mut m, 0x6240); // V2 := 0b0100_0000
    run_op(&mut m, 0x812E); // V1 := V2 << 1
    assert_eq!(m.reg(1), 0x80);
    assert_eq!(m.reg(0xF), 0);
}

#[test]
fn skip_families_advance_by_four_when_taken() {
    let mut m = machine();
    run_op(&mut m, 0x6307); // V3 := 7
    let pc = m.pc();
    run_op(&mut m, 0x3307); // skip: V3 == 7
    assert_eq!(m.pc(), pc + 4);
    let pc = m.pc();
    run_op(&mut m, 0x3308); // no skip: V3 != 8
    assert_eq!(m.pc(), pc + 2);
    let pc = m.pc();
    run_op(&mut m, 0x4308); // skip: V3 != 8
    assert_eq!(m.pc(), pc + 4);
    run_op(&mut m, 0x6407); // V4 := 7
    let pc = m.pc();
    run_op(&mut m, 0x5340); // skip: V3 == V4
    assert_eq!(m.pc(), pc + 4);
    run_op(&mut m, 0x6409); // V4 := 9
    let pc = m.pc();
    run_op(&mut m, 0x9340); // skip: V3 != V4
    assert_eq!(m.pc(), pc + 4);
}

#[test]
fn jump_sets_the_program_counter() {
    let mut m = machine();
    run_op(&mut m, 0x1abc);
    assert_eq!(m.pc(), 0xabc);
}

#[test]
fn jump_with_offset_uses_v0_by_default() {
    let mut m = machine();
    run_op(&mut m, 0x6004); // V0 := 4
    run_op(&mut m, 0x6208); // V2 := 8, the decoy
    run_op(&mut m, 0xB210);
    assert_eq!(m.pc(), 0x214);
}

#[test]
fn jump_with_offset_uses_vx_under_the_quirk() {
    let mut m = machine_with(Quirks {
        shift_uses_vy: false,
        bnnn_uses_vx: true,
        fx55_increases_i: false,
    });
    run_op(&mut m, 0x6004); // V0 := 4, the decoy
    run_op(&mut m, 0x6208); // V2 := 8
    run_op(&mut m, 0xB210);
    assert_eq!(m.pc(), 0x218);
}

#[test]
fn load_index_register() {
    let mut m = machine();
    run_op(&mut m, 0xA123);
    assert_eq!(m.index_register(), 0x123);
}

#[test]
fn add_to_index_register() {
    let mut m = machine();
    run_op(&mut m, 0xAFFF); // I := 0xFFF
    run_op(&mut m, 0x6002); // V0 := 2
    run_op(&mut m, 0xF01E); // I += V0
    assert_eq!(m.index_register(), 0x1001);
}

#[test]
fn font_index_is_five_times_the_digit() {
    let mut m = machine();
    run_op(&mut m, 0x600A); // V0 := 0xA
    run_op(&mut m, 0xF029);
    assert_eq!(m.index_register(), 50);
}

#[test]
fn bcd_stores_three_decimal_digits() {
    let mut m = machine();
    run_op(&mut m, 0x60EA); // V0 := 234
    run_op(&mut m, 0xA300); // I := 0x300
    run_op(&mut m, 0xF033);
    assert_eq!(m.memory_byte(0x300), 2);
    assert_eq!(m.memory_byte(0x301), 3);
    assert_eq!(m.memory_byte(0x302), 4);
}

#[test]
fn bcd_wraps_addresses_modulo_memory_size() {
    let mut m = machine();
    run_op(&mut m, 0xAFFF); // I := 0xFFF
    run_op(&mut m, 0x6001); // V0 := 1
    run_op(&mut m, 0xF01E); // I := 0x1000
    run_op(&mut m, 0x6907); // V9 := 7
    run_op(&mut m, 0xF933); // digits of 7 at 0x1000 mod 4096 = 0
    assert_eq!(m.memory_byte(0), 0);
    assert_eq!(m.memory_byte(1), 0);
    assert_eq!(m.memory_byte(2), 7);
}

#[test]
fn random_is_masked_by_the_immediate() {
    let mut m = machine();
    run_op(&mut m, 0xC000); // V0 := random & 0x00
    assert_eq!(m.reg(0), 0);
    run_op(&mut m, 0xC10F); // V1 := random & 0x0F
    assert_eq!(m.reg(1) & 0xF0, 0);
}

#[test]
fn store_and_load_registers_round_trip_without_quirk() {
    let mut m = machine();
    run_op(&mut m, 0x6011); // V0 := 0x11
    run_op(&mut m, 0x6122); // V1 := 0x22
    run_op(&mut m, 0x6233); // V2 := 0x33
    run_op(&mut m, 0x6344); // V3 := 0x44
    run_op(&mut m, 0xA300); // I := 0x300
    run_op(&mut m, 0xF355); // store V0..V3
    assert_eq!(m.index_register(), 0x300); // unchanged without the quirk
    assert_eq!(m.memory_byte(0x300), 0x11);
    assert_eq!(m.memory_byte(0x301), 0x22);
    assert_eq!(m.memory_byte(0x302), 0x33);
    assert_eq!(m.memory_byte(0x303), 0x44);
    // Scramble the registers, then load them back.
    run_op(&mut m, 0x60AA);
    run_op(&mut m, 0x61AB);
    run_op(&mut m, 0x62AC);
    run_op(&mut m, 0x63AD);
    run_op(&mut m, 0xF365); // load V0..V3
    assert_eq!(m.index_register(), 0x300);
    assert_eq!(m.reg(0), 0x11);
    assert_eq!(m.reg(1), 0x22);
    assert_eq!(m.reg(2), 0x33);
    assert_eq!(m.reg(3), 0x44);
}

#[test]
fn store_and_load_advance_the_index_under_the_quirk() {
    let mut m = machine_with(Quirks {
        shift_uses_vy: false,
        bnnn_uses_vx: false,
        fx55_increases_i: true,
    });
    run_op(&mut m, 0x6011);
    run_op(&mut m, 0x6122);
    run_op(&mut m, 0x6233);
    run_op(&mut m, 0x6344);
    run_op(&mut m, 0xA300);
    run_op(&mut m, 0xF355); // store V0..V3; I advances by 4
    assert_eq!(m.index_register(), 0x304);
    run_op(&mut m, 0x60AA);
    run_op(&mut m, 0xA300); // reset I for the load
    run_op(&mut m, 0xF365); // load V0..V3; I advances by 4
    assert_eq!(m.index_register(), 0x304);
    assert_eq!(m.reg(0), 0x11);
    assert_eq!(m.reg(1), 0x22);
    assert_eq!(m.reg(2), 0x33);
    assert_eq!(m.reg(3), 0x44);
}

#[test]
fn clear_screen_zeroes_every_pixel_and_sets_the_draw_flag() {
    let mut m = machine();
    // Scatter some pixels first.
    m.memory[0x300] = 0xFF;
    run_op(&mut m, 0xA300);
    run_op(&mut m, 0x6005);
    run_op(&mut m, 0x6103);
    run_op(&mut m, 0xD011);
    assert_eq!(m.pixel(5, 3), 1);
    m.clear_draw_flag();
    run_op(&mut m, 0x00E0);
    assert!(m.draw_flag());
    for y in 0..32 {
        for x in 0..64 {
            assert_eq!(m.pixel(x, y), 0);
        }
    }
}

#[test]
fn drawing_the_same_sprite_twice_collides_and_restores_the_pixel() {
    let mut m = machine();
    m.memory[0x300] = 0x80;
    run_op(&mut m, 0xA300); // I := 0x300
    run_op(&mut m, 0x6005); // V0 := 5
    run_op(&mut m, 0x6107); // V1 := 7
    run_op(&mut m, 0xD011); // first draw
    assert_eq!(m.pixel(5, 7), 1);
    assert_eq!(m.reg(0xF), 0);
    assert!(m.draw_flag());
    run_op(&mut m, 0xD011); // second draw on the same spot
    assert_eq!(m.pixel(5, 7), 0);
    assert_eq!(m.reg(0xF), 1);
}

#[test]
fn sprite_rows_and_columns_wrap_toroidally() {
    let mut m = machine();
    m.memory[0x300] = 0xFF; // one full row of 8 pixels
    m.memory[0x301] = 0xFF;
    run_op(&mut m, 0xA300); // I := 0x300
    run_op(&mut m, 0x603C); // V0 := 60: columns 60..63 then 0..3
    run_op(&mut m, 0x611F); // V1 := 31: rows 31 then 0
    run_op(&mut m, 0xD012); // two rows
    for x in [60usize, 61, 62, 63, 0, 1, 2, 3] {
        assert_eq!(m.pixel(x, 31), 1, "column {x} row 31");
        assert_eq!(m.pixel(x, 0), 1, "column {x} row 0");
    }
    assert_eq!(m.reg(0xF), 0);
}

#[test]
fn skip_if_key_held_and_if_key_released() {
    let mut m = machine();
    run_op(&mut m, 0x6007); // V0 := key 7
    let pc = m.pc();
    run_op(&mut m, 0xE09E); // key 7 is up: no skip
    assert_eq!(m.pc(), pc + 2);
    let pc = m.pc();
    run_op(&mut m, 0xE0A1); // key 7 is up: skip
    assert_eq!(m.pc(), pc + 4);
    m.set_key(7, true);
    let pc = m.pc();
    run_op(&mut m, 0xE09E); // key 7 is down: skip
    assert_eq!(m.pc(), pc + 4);
    let pc = m.pc();
    run_op(&mut m, 0xE0A1); // key 7 is down: no skip
    assert_eq!(m.pc(), pc + 2);
}

#[test]
fn wait_key_rewinds_until_a_key_is_down() {
    let mut m = machine();
    m.memory[0x200] = 0xF5; // F50A: wait for a key into V5
    m.memory[0x201] = 0x0A;
    step(&mut m);
    assert_eq!(m.pc(), 0x200); // rewound: the same opcode re-executes
    step(&mut m);
    assert_eq!(m.pc(), 0x200);
    m.set_key(9, true);
    m.set_key(3, true);
    step(&mut m);
    assert_eq!(m.pc(), 0x202); // proceeded
    assert_eq!(m.reg(5), 3); // the lowest-numbered key wins
}

#[test]
fn wait_key_still_ticks_the_timers() {
    let mut m = machine();
    run_op(&mut m, 0x6005); // V0 := 5
    run_op(&mut m, 0xF015); // delay := 5, ticks to 4
    m.memory[0x204] = 0xF5;
    m.memory[0x205] = 0x0A;
    step(&mut m);
    step(&mut m);
    assert_eq!(m.pc(), 0x204);
    assert_eq!(m.delay_timer(), 2);
}

#[test]
fn set_sound_timer_from_register() {
    let mut m = machine();
    run_op(&mut m, 0x6A03); // VA := 3
    run_op(&mut m, 0xFA18); // sound := 3, ticks to 2
    assert_eq!(m.sound_timer(), 2);
}
