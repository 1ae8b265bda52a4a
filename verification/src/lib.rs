//! An instruction-set simulator and two-pass assembler for the RCA 1802
//! (COSMAC) 8-bit microprocessor.
//!
//! The crate models the full register file (sixteen 16-bit registers, any of
//! which may serve as program counter or index register), the 8-bit
//! accumulator `D`, the one-bit flag `DF`, the `P` and `X` selectors, a
//! 64 KiB byte-addressable memory, and a halt latch.  Instructions are
//! decoded from raw bytes, executed with byte-exact carry/borrow semantics,
//! and assembled from line-oriented source text with label resolution.

pub mod asmtext;
pub mod assembler;
pub mod executor;
pub mod instruction;
pub mod laws;
pub mod opcode;
pub mod state;

pub use assembler::{AssemblyError, AssemblyOutput, assemble};
pub use executor::execute_instruction;
pub use instruction::Instruction;
pub use opcode::Opcode;
pub use state::{Cpu, CpuError};
