//! A verified CHIP-8 virtual CPU.
//!
//! The library holds the machine state (memory, registers, call stack,
//! timers, keypad and framebuffer), the fetch-decode-execute cycle with the
//! full opcode table, the timer driver, the loader, and a fixed-timestep
//! accumulator. Rendering, audio and input polling are left to the host.

pub mod draw;
pub mod exec;
pub mod font;
pub mod isa;
pub mod laws;
pub mod machine;
pub mod semantics;
pub mod timestep;

pub use isa::Chip8Error;
pub use isa::Instr;
pub use machine::Chip8;
pub use timestep::FixedTimestep;
