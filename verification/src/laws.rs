//! Laws of the instruction semantics that relate several instructions or
//! hold of every machine state, stated and proved against the transition
//! functions in [`crate::semantics`].

use vstd::prelude::*;

use crate::isa::Instruction;
use crate::isa::spec_decode;
use crate::semantics::spec_col_weight;
use crate::semantics::spec_draw_cols;
use crate::semantics::spec_draw_rows;
use crate::semantics::spec_exec;
use crate::semantics::spec_load_regs;
use crate::semantics::spec_sprite_bit;
use crate::semantics::spec_store_regs;
use crate::state::MachineView;

verus! {

/// Field extraction from an opcode word assembled out of its nibbles.
proof fn lemma_opcode_fields(h: u16, xx: u16, kkk: u16)
    by (nonlinear_arith)
    requires
        h < 16,
        xx < 16,
        kkk < 256,
    ensures
        (h * 0x1000 + xx * 0x100 + kkk) / 0x1000 == h,
        ((h * 0x1000 + xx * 0x100 + kkk) / 0x100) % 0x10 == xx,
        ((h * 0x1000 + xx * 0x100 + kkk) / 0x10) % 0x10 == kkk / 16,
        (h * 0x1000 + xx * 0x100 + kkk) % 0x10 == kkk % 16,
        (h * 0x1000 + xx * 0x100 + kkk) % 0x100 == kkk,
        (h * 0x1000 + xx * 0x100 + kkk) % 0x1000 == xx * 0x100 + kkk,
{
}

/// Two distinct register offsets land on distinct memory addresses, because
/// the offsets differ by less than the memory size.
proof fn lemma_offset_mod_distinct(base: int, o1: int, o2: int)
    by (nonlinear_arith)
    requires
        0 <= base,
        0 <= o1 < o2,
        o2 - o1 < 4096,
    ensures
        (base + o1) % 4096 != (base + o2) % 4096,
{
}

/// Law: for every register `x`, immediate `kk` and machine state, opcode
/// `6xkk` (load immediate) followed immediately by `7x00` (add zero) leaves
/// `Vx == kk`: loading then adding zero is the identity on the loaded value.
pub proof fn lemma_load_then_add_zero(m: MachineView, x: u8, kk: u8, r1: u8, r2: u8)
    requires
        m.wf(),
        x < 16,
    ensures
        ({
            let op1 = (0x6000 + x * 0x100 + kk) as u16;
            let op2 = (0x7000 + x * 0x100) as u16;
            let m1 = spec_exec(m, spec_decode(op1), r1);
            let m2 = spec_exec(m1, spec_decode(op2), r2);
            m2.v[x as int] == kk
        }),
{
    let op1 = (0x6000 + x * 0x100 + kk) as u16;
    let op2 = (0x7000 + x * 0x100) as u16;
    lemma_opcode_fields(6, x as u16, kk as u16);
    lemma_opcode_fields(7, x as u16, 0);
    assert(spec_decode(op1) == Instruction::LoadImm { x, kk });
    assert(spec_decode(op2) == Instruction::AddImm { x, kk: 0 });
    let m1 = spec_exec(m, spec_decode(op1), r1);
    assert(m1.v[x as int] == kk);
    let m2 = spec_exec(m1, spec_decode(op2), r2);
    assert(m2.v[x as int] == kk.wrapping_add(0));
    assert(kk.wrapping_add(0) == kk);
}

/// Law: `00E0` zeroes every framebuffer entry and sets the draw flag,
/// regardless of the machine's prior contents; nothing else changes.
pub proof fn lemma_clear_screen(m: MachineView, rnd: u8)
    requires
        m.wf(),
    ensures
        spec_exec(m, spec_decode(0x00E0), rnd).draw_flag,
        spec_exec(m, spec_decode(0x00E0), rnd).gfx.len() == 2048,
        forall|p: int|
            0 <= p < 2048 ==> spec_exec(m, spec_decode(0x00E0), rnd).gfx[p] == 0,
        spec_exec(m, spec_decode(0x00E0), rnd) == (MachineView {
            gfx: spec_exec(m, spec_decode(0x00E0), rnd).gfx,
            draw_flag: true,
            ..m
        }),
{
    assert(spec_decode(0x00E0) == Instruction::ClearScreen);
}

/// One draw of the single-pixel sprite row `0x80`: the fold over the sprite
/// flips exactly the pixel at `(cx mod 64, cy mod 32)` and reports whether
/// that pixel was set.
proof fn lemma_draw_single_bit(gfx: Seq<u8>, memory: Seq<u8>, i: u16, cx: u8, cy: u8)
    requires
        gfx.len() == 2048,
        memory.len() == 4096,
        memory[(i as int) % 4096] == 0x80,
    ensures
        ({
            let idx = ((cy as int) % 32) * 64 + (cx as int) % 64;
            let hit = gfx[idx] == 1;
            spec_draw_rows(gfx, memory, i, cx, cy, 0, 1, false) == (
                gfx.update(idx, if hit { 0u8 } else { 1u8 }),
                hit,
            )
        }),
{
    let py = (cy as int) % 32;
    let px = (cx as int) % 64;
    let idx = py * 64 + px;
    let hit = gfx[idx] == 1;
    let g1 = gfx.update(idx, if hit { 0u8 } else { 1u8 });
    assert(spec_draw_cols(g1, 0x80, cx, py, 8, hit) == (g1, hit));
    assert(spec_draw_cols(g1, 0x80, cx, py, 7, hit) == spec_draw_cols(g1, 0x80, cx, py, 8, hit));
    assert(spec_draw_cols(g1, 0x80, cx, py, 6, hit) == spec_draw_cols(g1, 0x80, cx, py, 7, hit));
    assert(spec_draw_cols(g1, 0x80, cx, py, 5, hit) == spec_draw_cols(g1, 0x80, cx, py, 6, hit));
    assert(spec_draw_cols(g1, 0x80, cx, py, 4, hit) == spec_draw_cols(g1, 0x80, cx, py, 5, hit));
    assert(spec_draw_cols(g1, 0x80, cx, py, 3, hit) == spec_draw_cols(g1, 0x80, cx, py, 4, hit));
    assert(spec_draw_cols(g1, 0x80, cx, py, 2, hit) == spec_draw_cols(g1, 0x80, cx, py, 3, hit));
    assert(spec_col_weight(1) == 0x40);
    assert(!spec_sprite_bit(0x80, 1));
    assert(spec_draw_cols(g1, 0x80, cx, py, 1, hit) == spec_draw_cols(g1, 0x80, cx, py, 2, hit));
    assert(spec_sprite_bit(0x80, 0));
    assert(spec_draw_cols(gfx, 0x80, cx, py, 0, false) == spec_draw_cols(
        g1,
        0x80,
        cx,
        py,
        1,
        false || hit,
    ));
    assert(spec_draw_cols(gfx, 0x80, cx, py, 0, false) == (g1, hit));
    assert(spec_draw_rows(g1, memory, i, cx, cy, 1, 1, hit) == (g1, hit));
    assert(spec_draw_rows(gfx, memory, i, cx, cy, 0, 1, false) == (g1, hit));
}

/// Law: drawing the 1-row, 1-byte sprite `0x80` twice in a row at the same
/// coordinates and the same `I` restores the framebuffer (XOR twice is the
/// identity) and reports no collision on the first draw but a collision on
/// the second — provided the target pixel starts clear (else the first draw
/// already collides) and neither coordinate register is `VF` (which the draw
/// itself overwrites with the collision flag).
pub proof fn lemma_double_draw(m: MachineView, x: u8, y: u8, r1: u8, r2: u8)
    requires
        m.wf(),
        x < 15,
        y < 15,
        m.memory[(m.i as int) % 4096] == 0x80,
        m.gfx[((m.v[y as int] as int) % 32) * 64 + (m.v[x as int] as int) % 64] == 0,
    ensures
        ({
            let instr = spec_decode((0xD001 + x * 0x100 + y * 0x10) as u16);
            let m1 = spec_exec(m, instr, r1);
            let m2 = spec_exec(m1, instr, r2);
            let idx = ((m.v[y as int] as int) % 32) * 64 + (m.v[x as int] as int) % 64;
            &&& instr == Instruction::Draw { x, y, n: 1 }
            &&& m1.v[15] == 0
            &&& m1.gfx[idx] == 1
            &&& m2.v[15] == 1
            &&& m2.gfx == m.gfx
        }),
{
    lemma_opcode_fields(0xD, x as u16, (y * 0x10 + 1) as u16);
    let op = (0xD001 + x * 0x100 + y * 0x10) as u16;
    assert((y * 0x10 + 1) / 16 == y as int) by (nonlinear_arith)
        requires y < 15;
    assert((y * 0x10 + 1) % 16 == 1) by (nonlinear_arith)
        requires y < 15;
    let instr = spec_decode(op);
    assert(instr == Instruction::Draw { x, y, n: 1 });
    let cx = m.v[x as int];
    let cy = m.v[y as int];
    let idx = ((cy as int) % 32) * 64 + (cx as int) % 64;
    lemma_draw_single_bit(m.gfx, m.memory, m.i, cx, cy);
    let m1 = spec_exec(m, instr, r1);
    assert(m1.gfx == m.gfx.update(idx, 1u8));
    assert(m1.v[15] == 0);
    assert(m1.v[x as int] == cx && m1.v[y as int] == cy);
    assert(m1.memory == m.memory && m1.i == m.i);
    lemma_draw_single_bit(m1.gfx, m1.memory, m1.i, cx, cy);
    let m2 = spec_exec(m1, instr, r2);
    assert(m2.v[15] == 1);
    assert(m2.gfx == m1.gfx.update(idx, 0u8));
    assert(m2.gfx =~= m.gfx);
}

/// Law: `Fx55` then `Fx65` round-trip. Storing `V0..V3` to memory and then
/// loading `V0..V3` back on any machine that holds that memory and the same
/// `I` reproduces the original register values exactly; `I` advances by
/// `x + 1` after either operation exactly when the index-advance quirk is
/// enabled, and is unchanged otherwise.
pub proof fn lemma_store_load_roundtrip(m: MachineView, m_load: MachineView, r1: u8, r2: u8)
    requires
        m.wf(),
        m_load.wf(),
        m_load.memory == spec_exec(m, spec_decode(0xF355), r1).memory,
        m_load.i == m.i,
    ensures
        spec_decode(0xF355) == (Instruction::StoreRegs { x: 3 }),
        spec_decode(0xF365) == (Instruction::LoadRegs { x: 3 }),
        spec_exec(m, spec_decode(0xF355), r1).i == (if m.quirks.fx55_increases_i {
            m.i.wrapping_add(4)
        } else {
            m.i
        }),
        spec_exec(m_load, spec_decode(0xF365), r2).i == (if m_load.quirks.fx55_increases_i {
            m_load.i.wrapping_add(4)
        } else {
            m_load.i
        }),
        (forall|o: int|
            0 <= o <= 3 ==> spec_exec(m_load, spec_decode(0xF365), r2).v[o] == m.v[o]),
{
    reveal_with_fuel(spec_store_regs, 6);
    reveal_with_fuel(spec_load_regs, 6);
    assert(spec_decode(0xF355) == Instruction::StoreRegs { x: 3 });
    assert(spec_decode(0xF365) == Instruction::LoadRegs { x: 3 });
    let i = m.i as int;
    let a0 = (i + 0) % 4096;
    let a1 = (i + 1) % 4096;
    let a2 = (i + 2) % 4096;
    let a3 = (i + 3) % 4096;
    lemma_offset_mod_distinct(i, 0, 1);
    lemma_offset_mod_distinct(i, 0, 2);
    lemma_offset_mod_distinct(i, 0, 3);
    lemma_offset_mod_distinct(i, 1, 2);
    lemma_offset_mod_distinct(i, 1, 3);
    lemma_offset_mod_distinct(i, 2, 3);
    let mem2 = spec_store_regs(m.memory, m.v, m.i, 3, 0);
    assert(mem2 == m.memory.update(a0, m.v[0]).update(a1, m.v[1]).update(a2, m.v[2]).update(
        a3,
        m.v[3],
    ));
    assert(mem2[a0] == m.v[0]);
    assert(mem2[a1] == m.v[1]);
    assert(mem2[a2] == m.v[2]);
    assert(mem2[a3] == m.v[3]);
    let loaded = spec_load_regs(m_load.v, m_load.memory, m_load.i, 3, 0);
    assert(loaded == m_load.v.update(0, mem2[a0]).update(1, mem2[a1]).update(2, mem2[a2]).update(
        3,
        mem2[a3],
    ));
    assert forall|o: int| 0 <= o <= 3 implies spec_exec(
        m_load,
        spec_decode(0xF365),
        r2,
    ).v[o] == m.v[o] by {
        assert(loaded[0] == m.v[0]);
        assert(loaded[1] == m.v[1]);
        assert(loaded[2] == m.v[2]);
        assert(loaded[3] == m.v[3]);
    }
}

} // verus!
