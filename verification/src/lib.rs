//! Instruction-level emulator and disassembler for the Intel 8080.
//!
//! The crate models the processor state (registers, flags, stack pointer,
//! program counter and a flat 64 KiB memory), decodes each opcode through a
//! shared decode table, executes its documented effect, and can render the
//! instruction stream as text instead of executing it.

pub mod decode;
pub mod disassembler;
pub mod emulator;
pub mod model;
pub mod props;

use vstd::prelude::*;

verus! {

/// Width of the 8080 address space: every address is a `u16`, so memory
/// holds exactly this many bytes.
pub const MEMORY_SIZE: usize = 65536;

} // verus!
