//! The instruction set: a closed set of decoded instruction values and the
//! pure decode step mapping a 16-bit opcode word onto it.
//!
//! Standard field extraction from the opcode word: `x` is bits 11..8, `y` is
//! bits 7..4, `n` is bits 3..0, `kk` is bits 7..0 and `nnn` is bits 11..0.

use vstd::prelude::*;

verus! {

/// A decoded instruction. Every 16-bit word decodes to exactly one variant;
/// words outside the recognized set decode to [`Instruction::Unknown`], which
/// executes as a no-op but is reported to the embedding application.
#[derive(Clone, Copy, Debug, PartialEq, Eq, Structural)]
pub enum Instruction {
    /// `00E0`: clear the framebuffer; set the draw flag.
    ClearScreen,
    /// `00EE`: pop the return address into `pc`; underflow is fatal.
    Return,
    /// `1nnn`: `pc := nnn`.
    Jump { nnn: u16 },
    /// `2nnn`: push `pc`; `pc := nnn`.
    Call { nnn: u16 },
    /// `3xkk`: skip the next instruction if `Vx == kk`.
    SkipEqImm { x: u8, kk: u8 },
    /// `4xkk`: skip the next instruction if `Vx != kk`.
    SkipNeImm { x: u8, kk: u8 },
    /// `5xy0`: skip the next instruction if `Vx == Vy`.
    SkipEqReg { x: u8, y: u8 },
    /// `6xkk`: `Vx := kk`.
    LoadImm { x: u8, kk: u8 },
    /// `7xkk`: `Vx := Vx + kk`, 8-bit wraparound, no flag.
    AddImm { x: u8, kk: u8 },
    /// `8xy0`: `Vx := Vy`.
    Move { x: u8, y: u8 },
    /// `8xy1`: `Vx := Vx | Vy`.
    Or { x: u8, y: u8 },
    /// `8xy2`: `Vx := Vx & Vy`.
    And { x: u8, y: u8 },
    /// `8xy3`: `Vx := Vx ^ Vy`.
    Xor { x: u8, y: u8 },
    /// `8xy4`: `Vx := Vx + Vy` with wraparound; `VF` is the carry.
    AddReg { x: u8, y: u8 },
    /// `8xy5`: `VF := Vx > Vy`; `Vx := Vx - Vy` with wraparound.
    SubReg { x: u8, y: u8 },
    /// `8xy6`: shift right by one; the source is `Vy` under the shift quirk,
    /// `Vx` otherwise; `VF` gets the bit shifted out.
    ShiftRight { x: u8, y: u8 },
    /// `8xy7`: `VF := Vy > Vx`; `Vx := Vy - Vx` with wraparound.
    SubFrom { x: u8, y: u8 },
    /// `8xyE`: shift left by one; source as in `8xy6`; `VF` gets bit 7.
    ShiftLeft { x: u8, y: u8 },
    /// `9xy0`: skip the next instruction if `Vx != Vy`.
    SkipNeReg { x: u8, y: u8 },
    /// `Annn`: `I := nnn`.
    LoadIndex { nnn: u16 },
    /// `Bnnn`: `pc := nnn + Vx` under the jump quirk, `nnn + V0` otherwise.
    JumpOffset { x: u8, nnn: u16 },
    /// `Cxkk`: `Vx := (uniform random byte) & kk`.
    Random { x: u8, kk: u8 },
    /// `Dxyn`: XOR-draw the `n`-row sprite at address `I` to `(Vx, Vy)`,
    /// wrapping toroidally; `VF` reports a collision; set the draw flag.
    Draw { x: u8, y: u8, n: u8 },
    /// `Ex9E`: skip the next instruction if key `Vx` is held down.
    SkipKeyDown { x: u8 },
    /// `ExA1`: skip the next instruction if key `Vx` is released.
    SkipKeyUp { x: u8 },
    /// `Fx07`: `Vx := delay timer`.
    ReadDelay { x: u8 },
    /// `Fx0A`: wait for a key press by re-executing until one is down.
    WaitKey { x: u8 },
    /// `Fx15`: `delay timer := Vx`.
    SetDelay { x: u8 },
    /// `Fx18`: `sound timer := Vx`.
    SetSound { x: u8 },
    /// `Fx1E`: `I := I + Vx`, 16-bit wraparound.
    AddIndex { x: u8 },
    /// `Fx29`: `I := Vx * 5`, the font glyph address for digit `Vx`.
    FontIndex { x: u8 },
    /// `Fx33`: store the decimal digits of `Vx` at `I`, `I+1`, `I+2`.
    StoreDigits { x: u8 },
    /// `Fx55`: store `V0..Vx` inclusive at `I`; the quirk advances `I`.
    StoreRegs { x: u8 },
    /// `Fx65`: load `V0..Vx` inclusive from `I`; the quirk advances `I`.
    LoadRegs { x: u8 },
    /// Any other word: reported, then executed as a no-op.
    Unknown { op: u16 },
}

impl Instruction {
    /// Field ranges every decoded instruction satisfies: register indices are
    /// 4-bit, row counts are 4-bit, addresses are 12-bit.
    pub open spec fn wf(self) -> bool {
        match self {
            Instruction::ClearScreen => true,
            Instruction::Return => true,
            Instruction::Jump { nnn } => nnn < 0x1000,
            Instruction::Call { nnn } => nnn < 0x1000,
            Instruction::SkipEqImm { x, kk } => x < 16,
            Instruction::SkipNeImm { x, kk } => x < 16,
            Instruction::SkipEqReg { x, y } => x < 16 && y < 16,
            Instruction::LoadImm { x, kk } => x < 16,
            Instruction::AddImm { x, kk } => x < 16,
            Instruction::Move { x, y } => x < 16 && y < 16,
            Instruction::Or { x, y } => x < 16 && y < 16,
            Instruction::And { x, y } => x < 16 && y < 16,
            Instruction::Xor { x, y } => x < 16 && y < 16,
            Instruction::AddReg { x, y } => x < 16 && y < 16,
            Instruction::SubReg { x, y } => x < 16 && y < 16,
            Instruction::ShiftRight { x, y } => x < 16 && y < 16,
            Instruction::SubFrom { x, y } => x < 16 && y < 16,
            Instruction::ShiftLeft { x, y } => x < 16 && y < 16,
            Instruction::SkipNeReg { x, y } => x < 16 && y < 16,
            Instruction::LoadIndex { nnn } => nnn < 0x1000,
            Instruction::JumpOffset { x, nnn } => x < 16 && nnn < 0x1000,
            Instruction::Random { x, kk } => x < 16,
            Instruction::Draw { x, y, n } => x < 16 && y < 16 && n < 16,
            Instruction::SkipKeyDown { x } => x < 16,
            Instruction::SkipKeyUp { x } => x < 16,
            Instruction::ReadDelay { x } => x < 16,
            Instruction::WaitKey { x } => x < 16,
            Instruction::SetDelay { x } => x < 16,
            Instruction::SetSound { x } => x < 16,
            Instruction::AddIndex { x } => x < 16,
            Instruction::FontIndex { x } => x < 16,
            Instruction::StoreDigits { x } => x < 16,
            Instruction::StoreRegs { x } => x < 16,
            Instruction::LoadRegs { x } => x < 16,
            Instruction::Unknown { op } => true,
        }
    }
}

/// What a 16-bit opcode word decodes to. Dispatch is on the highest nibble,
/// with the `0`, `5`, `8`, `9`, `E` and `F` families further dispatching on
/// the lowest nibble or the lowest byte.
pub open spec fn spec_decode(op: u16) -> Instruction {
    let hi = op / 0x1000;
    let x = ((op / 0x100) % 0x10) as u8;
    let y = ((op / 0x10) % 0x10) as u8;
    let n = (op % 0x10) as u8;
    let kk = (op % 0x100) as u8;
    let nnn = op % 0x1000;
    if op == 0x00E0 {
        Instruction::ClearScreen
    } else if op == 0x00EE {
        Instruction::Return
    } else if hi == 0x1 {
        Instruction::Jump { nnn }
    } else if hi == 0x2 {
        Instruction::Call { nnn }
    } else if hi == 0x3 {
        Instruction::SkipEqImm { x, kk }
    } else if hi == 0x4 {
        Instruction::SkipNeImm { x, kk }
    } else if hi == 0x5 && n == 0x0 {
        Instruction::SkipEqReg { x, y }
    } else if hi == 0x6 {
        Instruction::LoadImm { x, kk }
    } else if hi == 0x7 {
        Instruction::AddImm { x, kk }
    } else if hi == 0x8 && n == 0x0 {
        Instruction::Move { x, y }
    } else if hi == 0x8 && n == 0x1 {
        Instruction::Or { x, y }
    } else if hi == 0x8 && n == 0x2 {
        Instruction::And { x, y }
    } else if hi == 0x8 && n == 0x3 {
        Instruction::Xor { x, y }
    } else if hi == 0x8 && n == 0x4 {
        Instruction::AddReg { x, y }
    } else if hi == 0x8 && n == 0x5 {
        Instruction::SubReg { x, y }
    } else if hi == 0x8 && n == 0x6 {
        Instruction::ShiftRight { x, y }
    } else if hi == 0x8 && n == 0x7 {
        Instruction::SubFrom { x, y }
    } else if hi == 0x8 && n == 0xE {
        Instruction::ShiftLeft { x, y }
    } else if hi == 0x9 && n == 0x0 {
        Instruction::SkipNeReg { x, y }
    } else if hi == 0xA {
        Instruction::LoadIndex { nnn }
    } else if hi == 0xB {
        Instruction::JumpOffset { x, nnn }
    } else if hi == 0xC {
        Instruction::Random { x, kk }
    } else if hi == 0xD {
        Instruction::Draw { x, y, n }
    } else if hi == 0xE && kk == 0x9E {
        Instruction::SkipKeyDown { x }
    } else if hi == 0xE && kk == 0xA1 {
        Instruction::SkipKeyUp { x }
    } else if hi == 0xF && kk == 0x07 {
        Instruction::ReadDelay { x }
    } else if hi == 0xF && kk == 0x0A {
        Instruction::WaitKey { x }
    } else if hi == 0xF && kk == 0x15 {
        Instruction::SetDelay { x }
    } else if hi == 0xF && kk == 0x18 {
        Instruction::SetSound { x }
    } else if hi == 0xF && kk == 0x1E {
        Instruction::AddIndex { x }
    } else if hi == 0xF && kk == 0x29 {
        Instruction::FontIndex { x }
    } else if hi == 0xF && kk == 0x33 {
        Instruction::StoreDigits { x }
    } else if hi == 0xF && kk == 0x55 {
        Instruction::StoreRegs { x }
    } else if hi == 0xF && kk == 0x65 {
        Instruction::LoadRegs { x }
    } else {
        Instruction::Unknown { op }
    }
}

/// Decodes one opcode word; a pure function of the word alone.
pub fn decode(op: u16) -> (instr: Instruction)
    ensures
        instr == spec_decode(op),
        instr.wf(),
{
    let hi = op / 0x1000;
    let x = ((op / 0x100) % 0x10) as u8;
    let y = ((op / 0x10) % 0x10) as u8;
    let n = (op % 0x10) as u8;
    let kk = (op % 0x100) as u8;
    let nnn = op % 0x1000;
    if op == 0x00E0 {
        Instruction::ClearScreen
    } else if op == 0x00EE {
        Instruction::Return
    } else if hi == 0x1 {
        Instruction::Jump { nnn }
    } else if hi == 0x2 {
        Instruction::Call { nnn }
    } else if hi == 0x3 {
        Instruction::SkipEqImm { x, kk }
    } else if hi == 0x4 {
        Instruction::SkipNeImm { x, kk }
    } else if hi == 0x5 && n == 0x0 {
        Instruction::SkipEqReg { x, y }
    } else if hi == 0x6 {
        Instruction::LoadImm { x, kk }
    } else if hi == 0x7 {
        Instruction::AddImm { x, kk }
    } else if hi == 0x8 && n == 0x0 {
        Instruction::Move { x, y }
    } else if hi == 0x8 && n == 0x1 {
        Instruction::Or { x, y }
    } else if hi == 0x8 && n == 0x2 {
        Instruction::And { x, y }
    } else if hi == 0x8 && n == 0x3 {
        Instruction::Xor { x, y }
    } else if hi == 0x8 && n == 0x4 {
        Instruction::AddReg { x, y }
    } else if hi == 0x8 && n == 0x5 {
        Instruction::SubReg { x, y }
    } else if hi == 0x8 && n == 0x6 {
        Instruction::ShiftRight { x, y }
    } else if hi == 0x8 && n == 0x7 {
        Instruction::SubFrom { x, y }
    } else if hi == 0x8 && n == 0xE {
        Instruction::ShiftLeft { x, y }
    } else if hi == 0x9 && n == 0x0 {
        Instruction::SkipNeReg { x, y }
    } else if hi == 0xA {
        Instruction::LoadIndex { nnn }
    } else if hi == 0xB {
        Instruction::JumpOffset { x, nnn }
    } else if hi == 0xC {
        Instruction::Random { x, kk }
    } else if hi == 0xD {
        Instruction::Draw { x, y, n }
    } else if hi == 0xE && kk == 0x9E {
        Instruction::SkipKeyDown { x }
    } else if hi == 0xE && kk == 0xA1 {
        Instruction::SkipKeyUp { x }
    } else if hi == 0xF && kk == 0x07 {
        Instruction::ReadDelay { x }
    } else if hi == 0xF && kk == 0x0A {
        Instruction::WaitKey { x }
    } else if hi == 0xF && kk == 0x15 {
        Instruction::SetDelay { x }
    } else if hi == 0xF && kk == 0x18 {
        Instruction::SetSound { x }
    } else if hi == 0xF && kk == 0x1E {
        Instruction::AddIndex { x }
    } else if hi == 0xF && kk == 0x29 {
        Instruction::FontIndex { x }
    } else if hi == 0xF && kk == 0x33 {
        Instruction::StoreDigits { x }
    } else if hi == 0xF && kk == 0x55 {
        Instruction::StoreRegs { x }
    } else if hi == 0xF && kk == 0x65 {
        Instruction::LoadRegs { x }
    } else {
        Instruction::Unknown { op }
    }
}

} // verus!
