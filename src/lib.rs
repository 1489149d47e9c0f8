//! A minimal native code generator: an in-memory program of register loads
//! and system calls is encoded into x86-64 machine code, laid out into two
//! fixed segments, and described by ELF64 file and program headers.

pub mod bytes;
pub mod wrap;
pub mod instruction;
pub mod encoding;
pub mod assembly;
pub mod builder;
pub mod elf;
pub mod emit;

pub use assembly::{Assembly, SegmentInfo};
pub use builder::{BuildError, Builder};
pub use instruction::{EncodeError, Instruction};
pub use wrap::{
    Inst, LoadImmInst, LoadSymbolPtrInst, Program, Register, RegisterType, StringSymbol, Symbol,
    SymbolRef, SyscallInst, SyscallName,
};
