//! Machine state: memory, registers, timers, call stack, keypad image,
//! framebuffer, and the program loader.

use vstd::prelude::*;

verus! {

/// Compatibility toggles reproducing divergent historical interpreters.
/// Fixed at construction time and immutable for the machine's lifetime.
#[derive(Clone, Copy, Debug, PartialEq, Eq, Structural)]
pub struct Quirks {
    /// `8xy6`/`8xyE` read the shifted source from `Vy` instead of `Vx`.
    pub shift_uses_vy: bool,
    /// `Bnnn` adds the register picked by the opcode's `x` field instead of `V0`.
    pub bnnn_uses_vx: bool,
    /// `Fx55`/`Fx65` advance the index register by `x + 1` afterwards.
    pub fx55_increases_i: bool,
}

/// A program image that cannot be staged into memory.
#[derive(Clone, Copy, Debug, PartialEq, Eq, Structural)]
pub enum LoadError {
    /// The image does not fit between the load offset and the end of memory.
    ProgramTooLarge,
}

/// Unrecoverable interpreter faults.
#[derive(Clone, Copy, Debug, PartialEq, Eq, Structural)]
pub enum Fatal {
    /// A return instruction found the call stack empty.
    StackUnderflow,
}

/// Mathematical model of the machine state; the view of [`Chip8`].
#[verifier::ext_equal]
pub ghost struct MachineView {
    pub memory: Seq<u8>,
    pub v: Seq<u8>,
    pub i: u16,
    pub pc: u16,
    pub gfx: Seq<u8>,
    pub delay_timer: u8,
    pub sound_timer: u8,
    pub stack: Seq<u16>,
    pub keypad: Seq<bool>,
    pub draw_flag: bool,
    pub quirks: Quirks,
}

impl MachineView {
    /// Well-formedness: the fixed sizes of the machine's arrays, and the
    /// framebuffer holding only the pixel values 0 and 1.
    pub open spec fn wf(self) -> bool {
        &&& self.memory.len() == 4096
        &&& self.v.len() == 16
        &&& self.gfx.len() == 2048
        &&& self.keypad.len() == 16
        &&& forall|p: int| 0 <= p < 2048 ==> (#[trigger] self.gfx[p]) == 0 || self.gfx[p] == 1
    }
}

/// The font sprite table: 16 glyphs (hexadecimal digits 0 to F) of 5 bytes
/// each, copied to memory offset 0x50 at construction.
pub open spec fn spec_font() -> Seq<u8> {
    seq![
        0xF0u8, 0x90, 0x90, 0x90, 0xF0,
        0x20, 0x60, 0x20, 0x20, 0x70,
        0xF0, 0x10, 0xF0, 0x80, 0xF0,
        0xF0, 0x10, 0xF0, 0x10, 0xF0,
        0x90, 0x90, 0xF0, 0x10, 0x10,
        0xF0, 0x80, 0xF0, 0x10, 0xF0,
        0xF0, 0x80, 0xF0, 0x90, 0xF0,
        0xF0, 0x10, 0x20, 0x40, 0x40,
        0xF0, 0x90, 0xF0, 0x90, 0xF0,
        0xF0, 0x90, 0xF0, 0x10, 0xF0,
        0xF0, 0x90, 0xF0, 0x90, 0x90,
        0xE0, 0x90, 0xE0, 0x90, 0xE0,
        0xF0, 0x80, 0x80, 0x80, 0xF0,
        0xE0, 0x90, 0x90, 0x90, 0xE0,
        0xF0, 0x80, 0xF0, 0x80, 0xF0,
        0xF0, 0x80, 0xF0, 0x80, 0x80,
    ]
}

/// The state of a freshly constructed machine: everything zeroed, the program
/// counter at the load offset 0x200, and the font table at offset 0x50.
pub open spec fn spec_new(quirks: Quirks) -> MachineView {
    MachineView {
        memory: Seq::new(4096, |a: int| if 0x50 <= a < 0xA0 { spec_font()[a - 0x50] } else { 0u8 }),
        v: Seq::new(16, |j: int| 0u8),
        i: 0,
        pc: 0x200,
        gfx: Seq::new(2048, |p: int| 0u8),
        delay_timer: 0,
        sound_timer: 0,
        stack: Seq::empty(),
        keypad: Seq::new(16, |k: int| false),
        draw_flag: false,
        quirks,
    }
}

/// Memory after a program image is staged at the load offset 0x200.
pub open spec fn spec_load(memory: Seq<u8>, program: Seq<u8>) -> Seq<u8> {
    Seq::new(4096, |a: int|
        if 0x200 <= a < 0x200 + program.len() { program[a - 0x200] } else { memory[a] })
}

/// The CHIP-8 machine: 4096 bytes of memory, sixteen 8-bit registers, the
/// 16-bit index register and program counter, a 64x32 one-byte-per-pixel
/// framebuffer, two 8-bit countdown timers, a call stack of return addresses,
/// and the 16-key keypad image maintained by the driver.
pub struct Chip8 {
    pub memory: [u8; 4096],
    pub v: [u8; 16],
    pub i: u16,
    pub pc: u16,
    pub gfx: [u8; 2048],
    pub delay_timer: u8,
    pub sound_timer: u8,
    pub stack: Vec<u16>,
    pub keypad: [bool; 16],
    pub draw_flag: bool,
    pub quirks: Quirks,
}

impl View for Chip8 {
    type V = MachineView;

    open spec fn view(&self) -> MachineView {
        MachineView {
            memory: self.memory@,
            v: self.v@,
            i: self.i,
            pc: self.pc,
            gfx: self.gfx@,
            delay_timer: self.delay_timer,
            sound_timer: self.sound_timer,
            stack: self.stack@,
            keypad: self.keypad@,
            draw_flag: self.draw_flag,
            quirks: self.quirks,
        }
    }
}

impl Chip8 {
    /// Well-formedness of the executable machine, stated over its view.
    pub open spec fn wf(&self) -> bool {
        self@.wf()
    }

    /// Builds a machine with zeroed state, the program counter at 0x200, and
    /// the font table copied to offset 0x50.
    pub fn new(quirks: Quirks) -> (machine: Chip8)
        ensures
            machine.wf(),
            machine@ == spec_new(quirks),
    {
        let font: [u8; 80] = [
            0xF0, 0x90, 0x90, 0x90, 0xF0,
            0x20, 0x60, 0x20, 0x20, 0x70,
            0xF0, 0x10, 0xF0, 0x80, 0xF0,
            0xF0, 0x10, 0xF0, 0x10, 0xF0,
            0x90, 0x90, 0xF0, 0x10, 0x10,
            0xF0, 0x80, 0xF0, 0x10, 0xF0,
            0xF0, 0x80, 0xF0, 0x90, 0xF0,
            0xF0, 0x10, 0x20, 0x40, 0x40,
            0xF0, 0x90, 0xF0, 0x90, 0xF0,
            0xF0, 0x90, 0xF0, 0x10, 0xF0,
            0xF0, 0x90, 0xF0, 0x90, 0x90,
            0xE0, 0x90, 0xE0, 0x90, 0xE0,
            0xF0, 0x80, 0x80, 0x80, 0xF0,
            0xE0, 0x90, 0x90, 0x90, 0xE0,
            0xF0, 0x80, 0xF0, 0x80, 0xF0,
            0xF0, 0x80, 0xF0, 0x80, 0x80,
        ];
        proof {
            assert(font@ =~= spec_font());
        }
        let mut memory: [u8; 4096] = [0u8; 4096];
        let mut idx: usize = 0;
        while idx < 80
            invariant
                idx <= 80,
                font@ == spec_font(),
                forall|a: int| #![trigger memory@[a]]
                    0 <= a < 4096 && !(0x50 <= a < 0x50 + idx) ==> memory@[a] == 0u8,
                forall|a: int| #![trigger memory@[a]]
                    0x50 <= a < 0x50 + idx ==> memory@[a] == spec_font()[a - 0x50],
            decreases 80 - idx,
        {
            memory[0x50 + idx] = font[idx];
            idx += 1;
        }
        proof {
            assert forall|a: int| 0 <= a < 4096 implies memory@[a] == spec_new(
                quirks,
            ).memory[a] by {
                if 0x50 <= a < 0xA0 {
                    assert(memory@[a] == spec_font()[a - 0x50]);
                } else {
                    assert(memory@[a] == 0u8);
                }
            }
            assert(memory@ =~= spec_new(quirks).memory);
        }
        let machine = Chip8 {
            memory,
            v: [0u8; 16],
            i: 0,
            pc: 0x200,
            gfx: [0u8; 2048],
            delay_timer: 0,
            sound_timer: 0,
            stack: Vec::new(),
            keypad: [false; 16],
            draw_flag: false,
            quirks,
        };
        proof {
            assert(machine@.v =~= spec_new(quirks).v);
            assert(machine@.gfx =~= spec_new(quirks).gfx);
            assert(machine@.keypad =~= spec_new(quirks).keypad);
            assert(machine@.stack =~= spec_new(quirks).stack);
            assert(machine@ =~= spec_new(quirks));
        }
        machine
    }

    /// Stages a program image into memory at offset 0x200. Fails with
    /// [`LoadError::ProgramTooLarge`] when the image does not fit, leaving the
    /// machine untouched; on success the whole image is copied at once.
    pub fn load_program(&mut self, program: &Vec<u8>) -> (result: Result<(), LoadError>)
        requires
            old(self).wf(),
        ensures
            final(self).wf(),
            program@.len() > 3584 ==> result == Err::<(), LoadError>(LoadError::ProgramTooLarge)
                && final(self)@ == old(self)@,
            program@.len() <= 3584 ==> result == Ok::<(), LoadError>(())
                && final(self)@ == (MachineView {
                    memory: spec_load(old(self)@.memory, program@),
                    ..old(self)@
                }),
    {
        if program.len() > 4096 - 0x200 {
            return Err(LoadError::ProgramTooLarge);
        }
        let mut idx: usize = 0;
        while idx < program.len()
            invariant
                old(self).wf(),
                idx <= program@.len(),
                program@.len() <= 3584,
                self@ == (MachineView { memory: self@.memory, ..old(self)@ }),
                forall|a: int| 0x200 <= a < 0x200 + idx ==> self@.memory[a] == program@[a - 0x200],
                forall|a: int|
                    (0 <= a < 0x200 || 0x200 + idx <= a < 4096) ==> self@.memory[a]
                        == old(self)@.memory[a],
            decreases program@.len() - idx,
        {
            self.memory[0x200 + idx] = program[idx];
            idx += 1;
        }
        proof {
            assert(self@.memory =~= spec_load(old(self)@.memory, program@));
            assert(self@ =~= (MachineView {
                memory: spec_load(old(self)@.memory, program@),
                ..old(self)@
            }));
        }
        Ok(())
    }

    /// Records a key-down or key-up event from the driver for logical key
    /// `key`; the engine itself never changes the keypad image.
    pub fn set_key(&mut self, key: usize, pressed: bool)
        requires
            old(self).wf(),
            key < 16,
        ensures
            final(self).wf(),
            final(self)@ == (MachineView {
                keypad: old(self)@.keypad.update(key as int, pressed),
                ..old(self)@
            }),
    {
        self.keypad[key] = pressed;
        proof {
            assert(final(self)@ =~= (MachineView {
                keypad: old(self)@.keypad.update(key as int, pressed),
                ..old(self)@
            }));
        }
    }

    /// True when the framebuffer changed since the driver last cleared the flag.
    pub fn draw_flag(&self) -> (flag: bool)
        ensures
            flag == self@.draw_flag,
    {
        self.draw_flag
    }

    /// Clears the redraw flag after the driver has consumed a frame; the
    /// engine only ever sets it.
    pub fn clear_draw_flag(&mut self)
        requires
            old(self).wf(),
        ensures
            final(self).wf(),
            final(self)@ == (MachineView { draw_flag: false, ..old(self)@ }),
    {
        self.draw_flag = false;
        proof {
            assert(final(self)@ =~= (MachineView { draw_flag: false, ..old(self)@ }));
        }
    }

    /// The framebuffer, row-major, one byte per pixel, values 0 or 1.
    pub fn framebuffer(&self) -> (fb: &[u8])
        ensures
            fb@ == self@.gfx,
    {
        self.gfx.as_slice()
    }

    /// The pixel at column `x`, row `y`.
    pub fn pixel(&self, x: usize, y: usize) -> (p: u8)
        requires
            self.wf(),
            x < 64,
            y < 32,
        ensures
            p == self@.gfx[y * 64 + x],
    {
        self.gfx[y * 64 + x]
    }

    /// The value of general-purpose register `Vx`.
    pub fn reg(&self, x: usize) -> (value: u8)
        requires
            self.wf(),
            x < 16,
        ensures
            value == self@.v[x as int],
    {
        self.v[x]
    }

    /// The index register `I`.
    pub fn index_register(&self) -> (value: u16)
        ensures
            value == self@.i,
    {
        self.i
    }

    /// The program counter.
    pub fn pc(&self) -> (value: u16)
        ensures
            value == self@.pc,
    {
        self.pc
    }

    /// The delay timer's current value.
    pub fn delay_timer(&self) -> (value: u8)
        ensures
            value == self@.delay_timer,
    {
        self.delay_timer
    }

    /// The sound timer's current value.
    pub fn sound_timer(&self) -> (value: u8)
        ensures
            value == self@.sound_timer,
    {
        self.sound_timer
    }

    /// The byte at memory address `addr`.
    pub fn memory_byte(&self, addr: usize) -> (byte: u8)
        requires
            self.wf(),
            addr < 4096,
        ensures
            byte == self@.memory[addr as int],
    {
        self.memory[addr]
    }

    /// How many return addresses the call stack holds.
    pub fn stack_depth(&self) -> (depth: usize)
        ensures
            depth == self@.stack.len(),
    {
        self.stack.len()
    }

    /// The quirk configuration the machine was built with.
    pub fn quirks(&self) -> (quirks: Quirks)
        ensures
            quirks == self@.quirks,
    {
        self.quirks
    }
}

} // verus!
