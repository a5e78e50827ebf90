//! A word-addressed virtual machine: a codec from little-endian bytes to 16-bit
//! words, a step function over memory, registers and stack, and a disassembler.
pub mod codec;
pub mod disasm;
pub mod engine;
pub mod laws;
pub mod machine;
pub mod semantics;

pub use engine::{Interrupt, VmError};
pub use machine::VM;
