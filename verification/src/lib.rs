//! An instruction-level emulator core for a 64-bit register machine with
//! fixed-width, RISC-V-style 32-bit instruction words.
//!
//! The crate holds the machine state, the fetch stage, the field decoder and
//! the execute stage, each with a contract over a mathematical model of the
//! machine, together with the textual rendering of the register file.

pub mod cpu;
pub mod decode;
pub mod dump;
pub mod error;
pub mod model;
pub mod text;
pub mod theory;
