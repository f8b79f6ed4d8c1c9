//! A CHIP-8 virtual machine: frame buffer, key pad and the instruction engine,
//! each operation specified against a mathematical model of the machine
//! (`machine::MachineState`, with `machine::step_spec` for one cycle).
//!
//! Choices where the instruction set leaves room:
//! - Sprites: the origin `(V[x], V[y])` wraps around the 64x32 frame; the
//!   sprite itself is clipped at the right and bottom edges.
//! - Timers count down once per executed cycle; pacing cycles against wall
//!   time is left to whoever drives the machine.
//! - Faults stop the machine and leave it unchanged: a fetch beyond memory, a
//!   call on a full stack, a return on an empty one, memory reached from the
//!   address register beyond its end, and a key instruction whose register
//!   holds no key code. An unknown word is skipped.
//! - Flag-writing arithmetic writes the flag first and the result last, so
//!   with `x = F` the result is what stays.

pub mod cpu;
pub mod instruction;
pub mod keys;
pub mod laws;
pub mod machine;
pub mod screen;

pub use cpu::{Cpu, Executed};
pub use instruction::Instruction;
pub use keys::Keys;
pub use machine::Fault;
pub use screen::Screen;
