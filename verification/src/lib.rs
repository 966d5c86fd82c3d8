//! A CHIP-8 virtual machine interpreter.
//!
//! The machine owns a 4096-byte memory, sixteen 8-bit registers, an index
//! register, a program counter, a call stack, two countdown timers, a 16-key
//! keypad image and a 64x32 monochrome framebuffer. A driver loads a program
//! image, injects key events, and advances the machine one instruction per
//! call; every instruction's effect on the state is specified and verified.

pub mod cycle;
pub mod isa;
pub mod laws;
mod rng;
pub mod semantics;
pub mod state;

pub use cycle::CycleEvents;
pub use isa::Instruction;
pub use state::Chip8;
pub use state::Fatal;
pub use state::LoadError;
pub use state::MachineView;
pub use state::Quirks;
