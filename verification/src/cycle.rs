//! The interpreter engine: fetch, execute, timer tick, and the one-cycle
//! step the driver calls.

use vstd::prelude::*;

use crate::isa::Instruction;
use crate::isa::decode;
use crate::isa::spec_decode;
use crate::rng::random_byte;
use crate::semantics::spec_draw_cols;
use crate::semantics::spec_draw_rows;
use crate::semantics::spec_exec;
use crate::semantics::spec_fetch;
use crate::semantics::spec_first_key;
use crate::semantics::spec_load_regs;
use crate::semantics::spec_sprite_bit;
use crate::semantics::spec_store_regs;
use crate::semantics::spec_col_weight;
use crate::semantics::spec_tick;
use crate::semantics::spec_underflow;
use crate::state::Chip8;
use crate::state::Fatal;
use crate::state::MachineView;

verus! {

/// What one cycle reports to the embedding application: whether the sound
/// timer reached its final tick (the "beep" edge), and the opcode word when
/// the instruction was unrecognized.
#[derive(Clone, Copy, Debug, PartialEq, Eq)]
pub struct CycleEvents {
    /// The sound timer stood at exactly 1 when this cycle's tick ran.
    pub beep: bool,
    /// The fetched word, when it decodes to no recognized instruction.
    pub unknown_opcode: Option<u16>,
}

/// One whole cycle on a machine that is not in the fatal underflow
/// condition: fetch the opcode at `pc`, advance `pc` by 2, execute the
/// decoded instruction with random byte `rnd`, then tick both timers.
/// Returns the successor state and the cycle's reported events.
pub open spec fn spec_cycle(m: MachineView, rnd: u8) -> (MachineView, CycleEvents) {
    let op = spec_fetch(m);
    let instr = spec_decode(op);
    let advanced = MachineView { pc: m.pc.wrapping_add(2), ..m };
    let executed = spec_exec(advanced, instr, rnd);
    (
        spec_tick(executed),
        CycleEvents {
            beep: executed.sound_timer == 1,
            unknown_opcode: if instr is Unknown {
                Some(op)
            } else {
                None
            },
        },
    )
}

impl Chip8 {
    /// Reads the two instruction bytes at the program counter.
    fn fetch(&self) -> (op: u16)
        requires
            self.wf(),
        ensures
            op == spec_fetch(self@),
    {
        let hi = self.memory[(self.pc % 4096) as usize];
        let lo = self.memory[(((self.pc as u32) + 1) % 4096) as usize];
        (hi as u16) * 0x100 + (lo as u16)
    }

    /// Scans the keypad from key 0 upward for the first held-down key.
    fn first_key_down(&self) -> (found: Option<u8>)
        requires
            self.wf(),
        ensures
            found == spec_first_key(self@.keypad, 0),
    {
        let mut k: usize = 0;
        while k < 16
            invariant
                self.wf(),
                k <= 16,
                spec_first_key(self@.keypad, 0) == spec_first_key(self@.keypad, k as int),
            decreases 16 - k,
        {
            if self.keypad[k] {
                return Some(k as u8);
            }
            k += 1;
        }
        None
    }

    /// Decrements each timer while positive; reports whether the sound timer
    /// stood at exactly 1, the "beep" edge the driver turns into sound.
    fn tick_timers(&mut self) -> (beep: bool)
        requires
            old(self).wf(),
        ensures
            final(self).wf(),
            final(self)@ == spec_tick(old(self)@),
            beep == (old(self)@.sound_timer == 1),
    {
        if self.delay_timer > 0 {
            self.delay_timer = self.delay_timer - 1;
        }
        let beep = self.sound_timer == 1;
        if self.sound_timer > 0 {
            self.sound_timer = self.sound_timer - 1;
        }
        proof {
            assert(self@ =~= spec_tick(old(self)@));
        }
        beep
    }

    /// XOR-draws the `n`-row sprite at memory address `I` to the coordinates
    /// in `Vx` and `Vy`, wrapping toroidally; `VF` reports a collision and
    /// the draw flag is set.
    fn op_draw(&mut self, x: u8, y: u8, n: u8)
        requires
            old(self).wf(),
            x < 16,
            y < 16,
            n < 16,
        ensures
            final(self).wf(),
            final(self)@ == ({
                let m = old(self)@;
                let step = spec_draw_rows(
                    m.gfx,
                    m.memory,
                    m.i,
                    m.v[x as int],
                    m.v[y as int],
                    0,
                    n as int,
                    false,
                );
                MachineView {
                    gfx: step.0,
                    v: m.v.update(15, if step.1 { 1u8 } else { 0u8 }),
                    draw_flag: true,
                    ..m
                }
            }),
    {
        let cx = self.v[x as usize];
        let cy = self.v[y as usize];
        let mut collided = false;
        let mut row: usize = 0;
        while row < n as usize
            invariant
                old(self).wf(),
                self.wf(),
                n < 16,
                row <= n as usize,
                cx == old(self)@.v[x as int],
                cy == old(self)@.v[y as int],
                self@ == (MachineView { gfx: self@.gfx, ..old(self)@ }),
                spec_draw_rows(
                    old(self)@.gfx,
                    old(self)@.memory,
                    old(self)@.i,
                    cx,
                    cy,
                    0,
                    n as int,
                    false,
                ) == spec_draw_rows(
                    self@.gfx,
                    old(self)@.memory,
                    old(self)@.i,
                    cx,
                    cy,
                    row as int,
                    n as int,
                    collided,
                ),
            decreases n as int - row,
        {
            let byte = self.memory[((self.i as u32 + row as u32) % 4096) as usize];
            let py: usize = (cy as usize + row) % 32;
            proof {
                assert(byte == old(self)@.memory[(old(self)@.i + row as int) % 4096]);
                assert(py as int == (cy + row as int) % 32);
            }
            let ghost gfx_row = self@.gfx;
            let ghost coll_row = collided;
            let mut col: usize = 0;
            while col < 8
                invariant
                    old(self).wf(),
                    self.wf(),
                    n < 16,
                    row < n as usize,
                    col <= 8,
                    py < 32,
                    cx == old(self)@.v[x as int],
                    cy == old(self)@.v[y as int],
                    byte == old(self)@.memory[(old(self)@.i + row as int) % 4096],
                    py as int == (cy + row as int) % 32,
                    self@ == (MachineView { gfx: self@.gfx, ..old(self)@ }),
                    spec_draw_rows(
                        old(self)@.gfx,
                        old(self)@.memory,
                        old(self)@.i,
                        cx,
                        cy,
                        0,
                        n as int,
                        false,
                    ) == spec_draw_rows(
                        gfx_row,
                        old(self)@.memory,
                        old(self)@.i,
                        cx,
                        cy,
                        row as int,
                        n as int,
                        coll_row,
                    ),
                    spec_draw_cols(gfx_row, byte, cx, py as int, 0, coll_row) == spec_draw_cols(
                        self@.gfx,
                        byte,
                        cx,
                        py as int,
                        col as int,
                        collided,
                    ),
                decreases 8 - col,
            {
                let ghost gfx_before = self@.gfx;
                let ghost coll_before = collided;
                let weight: u8 = match col {
                    0 => 0x80,
                    1 => 0x40,
                    2 => 0x20,
                    3 => 0x10,
                    4 => 0x08,
                    5 => 0x04,
                    6 => 0x02,
                    _ => 0x01,
                };
                proof {
                    assert(weight == spec_col_weight(col as int));
                }
                let bit = (byte / weight) % 2 == 1;
                proof {
                    assert(bit == spec_sprite_bit(byte, col as int));
                }
                if bit {
                    let px: usize = (cx as usize + col) % 64;
                    let idx: usize = py * 64 + px;
                    proof {
                        assert(px as int == (cx + col as int) % 64);
                        assert(idx < 2048);
                    }
                    if self.gfx[idx] == 1 {
                        self.gfx[idx] = 0;
                        collided = true;
                    } else {
                        self.gfx[idx] = 1;
                    }
                }
                proof {
                    assert(spec_draw_cols(gfx_before, byte, cx, py as int, col as int, coll_before)
                        == spec_draw_cols(
                        self@.gfx,
                        byte,
                        cx,
                        py as int,
                        col as int + 1,
                        collided,
                    ));
                }
                col += 1;
            }
            proof {
                assert(spec_draw_cols(gfx_row, byte, cx, py as int, 0, coll_row) == (
                    self@.gfx,
                    collided,
                ));
                assert(spec_draw_rows(
                    gfx_row,
                    old(self)@.memory,
                    old(self)@.i,
                    cx,
                    cy,
                    row as int,
                    n as int,
                    coll_row,
                ) == spec_draw_rows(
                    self@.gfx,
                    old(self)@.memory,
                    old(self)@.i,
                    cx,
                    cy,
                    row as int + 1,
                    n as int,
                    collided,
                ));
            }
            row += 1;
        }
        self.v[15] = if collided {
            1
        } else {
            0
        };
        self.draw_flag = true;
        proof {
            let m = old(self)@;
            let step = spec_draw_rows(
                m.gfx,
                m.memory,
                m.i,
                m.v[x as int],
                m.v[y as int],
                0,
                n as int,
                false,
            );
            assert(self@ =~= (MachineView {
                gfx: step.0,
                v: m.v.update(15, if step.1 { 1u8 } else { 0u8 }),
                draw_flag: true,
                ..m
            }));
        }
    }

    /// Stores `V0..Vx` inclusive to memory at `I`; under the quirk, advances
    /// `I` by `x + 1` afterwards.
    fn op_store_regs(&mut self, x: u8)
        requires
            old(self).wf(),
            x < 16,
        ensures
            final(self).wf(),
            final(self)@ == ({
                let m = old(self)@;
                let i2 = if m.quirks.fx55_increases_i {
                    m.i.wrapping_add((x + 1) as u16)
                } else {
                    m.i
                };
                MachineView {
                    memory: spec_store_regs(m.memory, m.v, m.i, x as int, 0),
                    i: i2,
                    ..m
                }
            }),
    {
        let mut off: usize = 0;
        while off <= x as usize
            invariant
                old(self).wf(),
                self.wf(),
                x < 16,
                off <= x as usize + 1,
                self@ == (MachineView { memory: self@.memory, ..old(self)@ }),
                spec_store_regs(old(self)@.memory, old(self)@.v, old(self)@.i, x as int, 0)
                    == spec_store_regs(
                    self@.memory,
                    old(self)@.v,
                    old(self)@.i,
                    x as int,
                    off as int,
                ),
            decreases x as int + 1 - off,
        {
            let addr = ((self.i as u32 + off as u32) % 4096) as usize;
            let ghost mem_before = self@.memory;
            self.memory[addr] = self.v[off];
            proof {
                assert(addr as int == (old(self)@.i + off as int) % 4096);
                assert(spec_store_regs(
                    mem_before,
                    old(self)@.v,
                    old(self)@.i,
                    x as int,
                    off as int,
                ) == spec_store_regs(
                    self@.memory,
                    old(self)@.v,
                    old(self)@.i,
                    x as int,
                    off as int + 1,
                ));
            }
            off += 1;
        }
        if self.quirks.fx55_increases_i {
            self.i = self.i.wrapping_add(x as u16 + 1);
        }
        proof {
            let m = old(self)@;
            let i2 = if m.quirks.fx55_increases_i {
                m.i.wrapping_add((x + 1) as u16)
            } else {
                m.i
            };
            assert(self@ =~= (MachineView {
                memory: spec_store_regs(m.memory, m.v, m.i, x as int, 0),
                i: i2,
                ..m
            }));
        }
    }

    /// Loads `V0..Vx` inclusive from memory at `I`; under the quirk, advances
    /// `I` by `x + 1` afterwards.
    fn op_load_regs(&mut self, x: u8)
        requires
            old(self).wf(),
            x < 16,
        ensures
            final(self).wf(),
            final(self)@ == ({
                let m = old(self)@;
                let i2 = if m.quirks.fx55_increases_i {
                    m.i.wrapping_add((x + 1) as u16)
                } else {
                    m.i
                };
                MachineView { v: spec_load_regs(m.v, m.memory, m.i, x as int, 0), i: i2, ..m }
            }),
    {
        let mut off: usize = 0;
        while off <= x as usize
            invariant
                old(self).wf(),
                self.wf(),
                x < 16,
                off <= x as usize + 1,
                self@ == (MachineView { v: self@.v, ..old(self)@ }),
                spec_load_regs(old(self)@.v, old(self)@.memory, old(self)@.i, x as int, 0)
                    == spec_load_regs(
                    self@.v,
                    old(self)@.memory,
                    old(self)@.i,
                    x as int,
                    off as int,
                ),
            decreases x as int + 1 - off,
        {
            let addr = ((self.i as u32 + off as u32) % 4096) as usize;
            let ghost v_before = self@.v;
            self.v[off] = self.memory[addr];
            proof {
                assert(addr as int == (old(self)@.i + off as int) % 4096);
                assert(spec_load_regs(
                    v_before,
                    old(self)@.memory,
                    old(self)@.i,
                    x as int,
                    off as int,
                ) == spec_load_regs(
                    self@.v,
                    old(self)@.memory,
                    old(self)@.i,
                    x as int,
                    off as int + 1,
                ));
            }
            off += 1;
        }
        if self.quirks.fx55_increases_i {
            self.i = self.i.wrapping_add(x as u16 + 1);
        }
        proof {
            let m = old(self)@;
            let i2 = if m.quirks.fx55_increases_i {
                m.i.wrapping_add((x + 1) as u16)
            } else {
                m.i
            };
            assert(self@ =~= (MachineView {
                v: spec_load_regs(m.v, m.memory, m.i, x as int, 0),
                i: i2,
                ..m
            }));
        }
    }

    /// Executes one decoded instruction against the machine state. The
    /// program counter must already stand past the instruction; `rnd` is the
    /// random byte `Cxkk` consumes. The one input this cannot take is a
    /// return on an empty stack, the fatal condition the cycle rejects first.
    pub fn execute(&mut self, instr: Instruction, rnd: u8)
        requires
            old(self).wf(),
            instr.wf(),
            !(instr is Return && old(self)@.stack.len() == 0),
        ensures
            final(self).wf(),
            final(self)@ == spec_exec(old(self)@, instr, rnd),
    {
        match instr {
            Instruction::ClearScreen => {
                self.gfx = [0u8; 2048];
                self.draw_flag = true;
                proof {
                    assert(self@.gfx =~= Seq::new(2048, |p: int| 0u8));
                }
            },
            Instruction::Return => {
                if let Some(addr) = self.stack.pop() {
                    self.pc = addr;
                }
            },
            Instruction::Jump { nnn } => {
                self.pc = nnn;
            },
            Instruction::Call { nnn } => {
                self.stack.push(self.pc);
                self.pc = nnn;
            },
            Instruction::SkipEqImm { x, kk } => {
                if self.v[x as usize] == kk {
                    self.pc = self.pc.wrapping_add(2);
                }
            },
            Instruction::SkipNeImm { x, kk } => {
                if self.v[x as usize] != kk {
                    self.pc = self.pc.wrapping_add(2);
                }
            },
            Instruction::SkipEqReg { x, y } => {
                if self.v[x as usize] == self.v[y as usize] {
                    self.pc = self.pc.wrapping_add(2);
                }
            },
            Instruction::LoadImm { x, kk } => {
                self.v[x as usize] = kk;
            },
            Instruction::AddImm { x, kk } => {
                self.v[x as usize] = self.v[x as usize].wrapping_add(kk);
            },
            Instruction::Move { x, y } => {
                self.v[x as usize] = self.v[y as usize];
            },
            Instruction::Or { x, y } => {
                self.v[x as usize] = self.v[x as usize] | self.v[y as usize];
            },
            Instruction::And { x, y } => {
                self.v[x as usize] = self.v[x as usize] & self.v[y as usize];
            },
            Instruction::Xor { x, y } => {
                self.v[x as usize] = self.v[x as usize] ^ self.v[y as usize];
            },
            Instruction::AddReg { x, y } => {
                let sum: u16 = self.v[x as usize] as u16 + self.v[y as usize] as u16;
                self.v[x as usize] = (sum % 256) as u8;
                self.v[15] = if sum > 255 {
                    1
                } else {
                    0
                };
            },
            Instruction::SubReg { x, y } => {
                self.v[15] = if self.v[x as usize] > self.v[y as usize] {
                    1
                } else {
                    0
                };
                self.v[x as usize] = self.v[x as usize].wrapping_sub(self.v[y as usize]);
            },
            Instruction::ShiftRight { x, y } => {
                let src: usize = if self.quirks.shift_uses_vy {
                    y as usize
                } else {
                    x as usize
                };
                self.v[15] = self.v[src] % 2;
                self.v[x as usize] = self.v[src] / 2;
            },
            Instruction::SubFrom { x, y } => {
                self.v[15] = if self.v[y as usize] > self.v[x as usize] {
                    1
                } else {
                    0
                };
                self.v[x as usize] = self.v[y as usize].wrapping_sub(self.v[x as usize]);
            },
            Instruction::ShiftLeft { x, y } => {
                let src: usize = if self.quirks.shift_uses_vy {
                    y as usize
                } else {
                    x as usize
                };
                self.v[15] = self.v[src] / 128;
                self.v[x as usize] = self.v[src].wrapping_mul(2);
            },
            Instruction::SkipNeReg { x, y } => {
                if self.v[x as usize] != self.v[y as usize] {
                    self.pc = self.pc.wrapping_add(2);
                }
            },
            Instruction::LoadIndex { nnn } => {
                self.i = nnn;
            },
            Instruction::JumpOffset { x, nnn } => {
                let base = if self.quirks.bnnn_uses_vx {
                    self.v[x as usize]
                } else {
                    self.v[0]
                };
                self.pc = nnn + base as u16;
            },
            Instruction::Random { x, kk } => {
                self.v[x as usize] = rnd & kk;
            },
            Instruction::Draw { x, y, n } => {
                self.op_draw(x, y, n);
            },
            Instruction::SkipKeyDown { x } => {
                let key = (self.v[x as usize] % 16) as usize;
                if self.keypad[key] {
                    self.pc = self.pc.wrapping_add(2);
                }
            },
            Instruction::SkipKeyUp { x } => {
                let key = (self.v[x as usize] % 16) as usize;
                if !self.keypad[key] {
                    self.pc = self.pc.wrapping_add(2);
                }
            },
            Instruction::ReadDelay { x } => {
                self.v[x as usize] = self.delay_timer;
            },
            Instruction::WaitKey { x } => {
                match self.first_key_down() {
                    Some(key) => {
                        self.v[x as usize] = key;
                    },
                    None => {
                        self.pc = self.pc.wrapping_sub(2);
                    },
                }
            },
            Instruction::SetDelay { x } => {
                self.delay_timer = self.v[x as usize];
            },
            Instruction::SetSound { x } => {
                self.sound_timer = self.v[x as usize];
            },
            Instruction::AddIndex { x } => {
                self.i = self.i.wrapping_add(self.v[x as usize] as u16);
            },
            Instruction::FontIndex { x } => {
                self.i = self.v[x as usize] as u16 * 5;
            },
            Instruction::StoreDigits { x } => {
                let val = self.v[x as usize];
                let a0 = (self.i % 4096) as usize;
                let a1 = ((self.i as u32 + 1) % 4096) as usize;
                let a2 = ((self.i as u32 + 2) % 4096) as usize;
                self.memory[a0] = val / 100;
                self.memory[a1] = (val % 100) / 10;
                self.memory[a2] = val % 10;
            },
            Instruction::StoreRegs { x } => {
                self.op_store_regs(x);
            },
            Instruction::LoadRegs { x } => {
                self.op_load_regs(x);
            },
            Instruction::Unknown { op } => {},
        }
        proof {
            assert(self@ =~= spec_exec(old(self)@, instr, rnd));
        }
    }

    /// Performs exactly one instruction cycle and then ticks both timers:
    /// fetch the word at `pc`, advance `pc` by 2, execute, tick.
    ///
    /// A return on an empty stack is the one unrecoverable fault: the cycle
    /// returns `Fatal::StackUnderflow` and leaves the machine untouched.
    /// Otherwise the cycle reports the beep edge and, for an unrecognized
    /// opcode, the offending word; an unrecognized opcode is otherwise a
    /// no-op and the timers still tick.
    pub fn emulate_cycle(&mut self) -> (result: Result<CycleEvents, Fatal>)
        requires
            old(self).wf(),
        ensures
            final(self).wf(),
            spec_underflow(old(self)@) ==> result == Err::<CycleEvents, Fatal>(
                Fatal::StackUnderflow,
            ) && final(self)@ == old(self)@,
            !spec_underflow(old(self)@) ==> result is Ok && exists|b: u8|
                (final(self)@, result->Ok_0) == spec_cycle(old(self)@, b),
            !spec_underflow(old(self)@) && !(spec_decode(spec_fetch(old(self)@)) is Random) ==> (
            final(self)@,
            result->Ok_0,
            ) == spec_cycle(old(self)@, 0),
    {
        let op = self.fetch();
        let instr = decode(op);
        if matches!(instr, Instruction::Return) && self.stack.len() == 0 {
            return Err(Fatal::StackUnderflow);
        }
        self.pc = self.pc.wrapping_add(2);
        proof {
            assert(self@ =~= (MachineView {
                pc: old(self)@.pc.wrapping_add(2),
                ..old(self)@
            }));
        }
        let rnd = if matches!(instr, Instruction::Random { .. }) {
            random_byte()
        } else {
            0
        };
        self.execute(instr, rnd);
        let beep = self.tick_timers();
        let unknown_opcode = if matches!(instr, Instruction::Unknown { .. }) {
            Some(op)
        } else {
            None
        };
        let events = CycleEvents { beep, unknown_opcode };
        proof {
            assert((self@, events) == spec_cycle(old(self)@, rnd));
        }
        Ok(events)
    }
}

} // verus!
