//! The machine's transition semantics as pure functions: what one fetch,
//! one instruction, and one timer tick do to a [`MachineView`].
//!
//! Memory and framebuffer addresses are always reduced modulo the array
//! sizes, so no address arithmetic can leave the arrays; 8-bit and 16-bit
//! register arithmetic wraps where the instruction set calls for it.

use vstd::prelude::*;

use crate::isa::Instruction;
use crate::isa::spec_decode;
use crate::state::MachineView;

verus! {

/// The opcode word fetched at the program counter: the bytes at `pc` and
/// `pc + 1`, combined big-endian, addresses reduced modulo the memory size.
pub open spec fn spec_fetch(m: MachineView) -> u16 {
    ((m.memory[(m.pc % 4096) as int] as int) * 0x100 + (m.memory[(m.pc as int + 1) % 4096] as int)) as u16
}

/// The lowest-numbered keypad key that is held down, scanning from `k`
/// upward; `None` when no key at `k` or above is down.
pub open spec fn spec_first_key(keypad: Seq<bool>, k: int) -> Option<u8>
    decreases 16 - k,
{
    if k < 0 || k >= 16 {
        None
    } else if keypad[k] {
        Some(k as u8)
    } else {
        spec_first_key(keypad, k + 1)
    }
}

/// The place value of sprite column `col`: bit 7 (the most significant bit)
/// is drawn first, at column offset 0.
pub open spec fn spec_col_weight(col: int) -> u8 {
    if col == 0 {
        0x80
    } else if col == 1 {
        0x40
    } else if col == 2 {
        0x20
    } else if col == 3 {
        0x10
    } else if col == 4 {
        0x08
    } else if col == 5 {
        0x04
    } else if col == 6 {
        0x02
    } else {
        0x01
    }
}

/// Whether bit `7 - col` of a sprite row byte is set.
pub open spec fn spec_sprite_bit(byte: u8, col: int) -> bool {
    (byte / spec_col_weight(col)) % 2 == 1
}

/// XOR-draws the bits of one sprite row byte at columns `col..8` into the
/// framebuffer, accumulating the collision flag: a set sprite bit flips the
/// pixel at `((cx + col) mod 64, py)`, and a pixel flipped from set to unset
/// is a collision.
pub open spec fn spec_draw_cols(
    gfx: Seq<u8>,
    byte: u8,
    cx: u8,
    py: int,
    col: int,
    coll: bool,
) -> (Seq<u8>, bool)
    decreases 8 - col,
{
    if col < 0 || col >= 8 {
        (gfx, coll)
    } else {
        let px = (cx + col) % 64;
        let idx = py * 64 + px;
        if spec_sprite_bit(byte, col) {
            let hit = gfx[idx] == 1;
            spec_draw_cols(
                gfx.update(idx, if hit { 0u8 } else { 1u8 }),
                byte,
                cx,
                py,
                col + 1,
                coll || hit,
            )
        } else {
            spec_draw_cols(gfx, byte, cx, py, col + 1, coll)
        }
    }
}

/// XOR-draws sprite rows `row..n` read from memory at `I + row` to screen
/// rows `(cy + row) mod 32`, accumulating the collision flag.
pub open spec fn spec_draw_rows(
    gfx: Seq<u8>,
    memory: Seq<u8>,
    i: u16,
    cx: u8,
    cy: u8,
    row: int,
    n: int,
    coll: bool,
) -> (Seq<u8>, bool)
    decreases n - row,
{
    if row < 0 || row >= n {
        (gfx, coll)
    } else {
        let byte = memory[(i + row) % 4096];
        let py = (cy + row) % 32;
        let step = spec_draw_cols(gfx, byte, cx, py, 0, coll);
        spec_draw_rows(step.0, memory, i, cx, cy, row + 1, n, step.1)
    }
}

/// Memory after `V0..Vx` inclusive are stored at `I`, one register per byte.
pub open spec fn spec_store_regs(memory: Seq<u8>, v: Seq<u8>, i: u16, x: int, off: int) -> Seq<u8>
    decreases x + 1 - off,
{
    if off < 0 || off > x {
        memory
    } else {
        spec_store_regs(memory.update((i + off) % 4096, v[off]), v, i, x, off + 1)
    }
}

/// Registers after `V0..Vx` inclusive are loaded from memory at `I`.
pub open spec fn spec_load_regs(v: Seq<u8>, memory: Seq<u8>, i: u16, x: int, off: int) -> Seq<u8>
    decreases x + 1 - off,
{
    if off < 0 || off > x {
        v
    } else {
        spec_load_regs(v.update(off, memory[(i + off) % 4096]), memory, i, x, off + 1)
    }
}

/// The machine after one decoded instruction executes. The program counter
/// has already been advanced past the instruction, so control-flow
/// instructions overwrite the default advance and skips add to it. `rnd` is
/// the random byte consumed by `Cxkk`; no other instruction reads it.
///
/// A `Return` on an empty stack has no successor state (it is the one fatal
/// condition) and is left as the identity here; the cycle function routes
/// around it via [`spec_underflow`].
pub open spec fn spec_exec(m: MachineView, instr: Instruction, rnd: u8) -> MachineView {
    match instr {
        Instruction::ClearScreen => MachineView {
            gfx: Seq::new(2048, |p: int| 0u8),
            draw_flag: true,
            ..m
        },
        Instruction::Return => {
            if m.stack.len() == 0 {
                m
            } else {
                MachineView { pc: m.stack.last(), stack: m.stack.drop_last(), ..m }
            }
        },
        Instruction::Jump { nnn } => MachineView { pc: nnn, ..m },
        Instruction::Call { nnn } => MachineView { stack: m.stack.push(m.pc), pc: nnn, ..m },
        Instruction::SkipEqImm { x, kk } => {
            if m.v[x as int] == kk {
                MachineView { pc: m.pc.wrapping_add(2), ..m }
            } else {
                m
            }
        },
        Instruction::SkipNeImm { x, kk } => {
            if m.v[x as int] != kk {
                MachineView { pc: m.pc.wrapping_add(2), ..m }
            } else {
                m
            }
        },
        Instruction::SkipEqReg { x, y } => {
            if m.v[x as int] == m.v[y as int] {
                MachineView { pc: m.pc.wrapping_add(2), ..m }
            } else {
                m
            }
        },
        Instruction::LoadImm { x, kk } => MachineView { v: m.v.update(x as int, kk), ..m },
        Instruction::AddImm { x, kk } => MachineView {
            v: m.v.update(x as int, m.v[x as int].wrapping_add(kk)),
            ..m
        },
        Instruction::Move { x, y } => MachineView { v: m.v.update(x as int, m.v[y as int]), ..m },
        Instruction::Or { x, y } => MachineView {
            v: m.v.update(x as int, m.v[x as int] | m.v[y as int]),
            ..m
        },
        Instruction::And { x, y } => MachineView {
            v: m.v.update(x as int, m.v[x as int] & m.v[y as int]),
            ..m
        },
        Instruction::Xor { x, y } => MachineView {
            v: m.v.update(x as int, m.v[x as int] ^ m.v[y as int]),
            ..m
        },
        Instruction::AddReg { x, y } => {
            let sum = m.v[x as int] + m.v[y as int];
            let carry: u8 = if sum > 255 { 1 } else { 0 };
            MachineView { v: m.v.update(x as int, (sum % 256) as u8).update(15, carry), ..m }
        },
        Instruction::SubReg { x, y } => {
            let flag: u8 = if m.v[x as int] > m.v[y as int] { 1 } else { 0 };
            let v1 = m.v.update(15, flag);
            MachineView {
                v: v1.update(x as int, v1[x as int].wrapping_sub(v1[y as int])),
                ..m
            }
        },
        Instruction::ShiftRight { x, y } => {
            let src = if m.quirks.shift_uses_vy { y as int } else { x as int };
            let v1 = m.v.update(15, m.v[src] % 2);
            MachineView { v: v1.update(x as int, v1[src] / 2), ..m }
        },
        Instruction::SubFrom { x, y } => {
            let flag: u8 = if m.v[y as int] > m.v[x as int] { 1 } else { 0 };
            let v1 = m.v.update(15, flag);
            MachineView {
                v: v1.update(x as int, v1[y as int].wrapping_sub(v1[x as int])),
                ..m
            }
        },
        Instruction::ShiftLeft { x, y } => {
            let src = if m.quirks.shift_uses_vy { y as int } else { x as int };
            let v1 = m.v.update(15, m.v[src] / 128);
            MachineView { v: v1.update(x as int, v1[src].wrapping_mul(2)), ..m }
        },
        Instruction::SkipNeReg { x, y } => {
            if m.v[x as int] != m.v[y as int] {
                MachineView { pc: m.pc.wrapping_add(2), ..m }
            } else {
                m
            }
        },
        Instruction::LoadIndex { nnn } => MachineView { i: nnn, ..m },
        Instruction::JumpOffset { x, nnn } => {
            let base = if m.quirks.bnnn_uses_vx { m.v[x as int] } else { m.v[0] };
            MachineView { pc: (nnn + base) as u16, ..m }
        },
        Instruction::Random { x, kk } => MachineView { v: m.v.update(x as int, rnd & kk), ..m },
        Instruction::Draw { x, y, n } => {
            let cx = m.v[x as int];
            let cy = m.v[y as int];
            let step = spec_draw_rows(m.gfx, m.memory, m.i, cx, cy, 0, n as int, false);
            MachineView {
                gfx: step.0,
                v: m.v.update(15, if step.1 { 1u8 } else { 0u8 }),
                draw_flag: true,
                ..m
            }
        },
        Instruction::SkipKeyDown { x } => {
            if m.keypad[m.v[x as int] as int % 16] {
                MachineView { pc: m.pc.wrapping_add(2), ..m }
            } else {
                m
            }
        },
        Instruction::SkipKeyUp { x } => {
            if !m.keypad[m.v[x as int] as int % 16] {
                MachineView { pc: m.pc.wrapping_add(2), ..m }
            } else {
                m
            }
        },
        Instruction::ReadDelay { x } => MachineView { v: m.v.update(x as int, m.delay_timer), ..m },
        Instruction::WaitKey { x } => {
            match spec_first_key(m.keypad, 0) {
                Some(k) => MachineView { v: m.v.update(x as int, k), ..m },
                None => MachineView { pc: m.pc.wrapping_sub(2), ..m },
            }
        },
        Instruction::SetDelay { x } => MachineView { delay_timer: m.v[x as int], ..m },
        Instruction::SetSound { x } => MachineView { sound_timer: m.v[x as int], ..m },
        Instruction::AddIndex { x } => MachineView {
            i: m.i.wrapping_add(m.v[x as int] as u16),
            ..m
        },
        Instruction::FontIndex { x } => MachineView { i: (m.v[x as int] * 5) as u16, ..m },
        Instruction::StoreDigits { x } => {
            let val = m.v[x as int];
            let mem = m.memory.update((m.i % 4096) as int, val / 100).update(
                (m.i as int + 1) % 4096,
                (val % 100) / 10,
            ).update((m.i as int + 2) % 4096, val % 10);
            MachineView { memory: mem, ..m }
        },
        Instruction::StoreRegs { x } => {
            let mem = spec_store_regs(m.memory, m.v, m.i, x as int, 0);
            let i2 = if m.quirks.fx55_increases_i {
                m.i.wrapping_add((x + 1) as u16)
            } else {
                m.i
            };
            MachineView { memory: mem, i: i2, ..m }
        },
        Instruction::LoadRegs { x } => {
            let v2 = spec_load_regs(m.v, m.memory, m.i, x as int, 0);
            let i2 = if m.quirks.fx55_increases_i {
                m.i.wrapping_add((x + 1) as u16)
            } else {
                m.i
            };
            MachineView { v: v2, i: i2, ..m }
        },
        Instruction::Unknown { op } => m,
    }
}

/// One timer tick, run unconditionally at the end of every cycle: each timer
/// decrements while positive.
pub open spec fn spec_tick(m: MachineView) -> MachineView {
    MachineView {
        delay_timer: if m.delay_timer > 0 {
            (m.delay_timer - 1) as u8
        } else {
            m.delay_timer
        },
        sound_timer: if m.sound_timer > 0 {
            (m.sound_timer - 1) as u8
        } else {
            m.sound_timer
        },
        ..m
    }
}

/// The one fatal condition: the instruction at the program counter is a
/// return and the call stack is empty.
pub open spec fn spec_underflow(m: MachineView) -> bool {
    spec_decode(spec_fetch(m)) is Return && m.stack.len() == 0
}

} // verus!
