//! The intermediate representation: data constants and the instructions
//! that use them, built by callers as plain values.

use vstd::prelude::*;

verus! {

/// A program: the constants of its data segment and the instructions of its
/// code, each in the order in which they are laid out.
pub struct Program {
    pub symbols: Vec<Symbol>,
    pub insts: Vec<Inst>,
}

/// The sixteen general-purpose registers, in encoding order.
#[derive(Clone, Copy, PartialEq, Eq, Structural)]
pub enum Register {
    Ax,
    Cx,
    Dx,
    Bx,
    Sp,
    Bp,
    Si,
    Di,
    R8,
    R9,
    R10,
    R11,
    R12,
    R13,
    R14,
    R15,
}

/// The operand width of a register access.
#[derive(Clone, Copy, PartialEq, Eq, Structural)]
pub enum RegisterType {
    Byte,
    Word,
    DoubleWord,
    QuadWord,
}

/// Moves an immediate value into a register, at the given width.
pub struct LoadImmInst {
    pub register: Register,
    pub register_type: RegisterType,
    pub imm: u64,
}

/// Moves the address of a declared symbol into a register, as a 64-bit value.
pub struct LoadSymbolPtrInst {
    pub register: Register,
    pub symbol_ref: SymbolRef,
}

/// The system calls that a program can make.
#[derive(Clone, Copy, PartialEq, Eq, Structural)]
pub enum SyscallName {
    Write,
    Exit,
}

/// Invokes a system call; its arguments are whatever the argument registers hold.
pub struct SyscallInst {
    pub name: SyscallName,
}

pub enum Inst {
    LoadImm(LoadImmInst),
    LoadSymbol(LoadSymbolPtrInst),
    Syscall(SyscallInst),
}

/// The position of a symbol in the program's declaration order.
pub struct SymbolRef(pub usize);

/// A byte string stored verbatim in the data segment.
pub struct StringSymbol(pub Box<[u8]>);

pub enum Symbol {
    String(StringSymbol),
}

impl Register {
    /// The register's number in the encoding, from 0 to 15.
    pub open spec fn ordinal(self) -> nat {
        match self {
            Register::Ax => 0,
            Register::Cx => 1,
            Register::Dx => 2,
            Register::Bx => 3,
            Register::Sp => 4,
            Register::Bp => 5,
            Register::Si => 6,
            Register::Di => 7,
            Register::R8 => 8,
            Register::R9 => 9,
            Register::R10 => 10,
            Register::R11 => 11,
            Register::R12 => 12,
            Register::R13 => 13,
            Register::R14 => 14,
            Register::R15 => 15,
        }
    }

    /// The register's number in the encoding, from 0 to 15.
    pub fn number(self) -> (r: u8)
        ensures
            r as nat == self.ordinal(),
            r < 16,
    {
        match self {
            Register::Ax => 0,
            Register::Cx => 1,
            Register::Dx => 2,
            Register::Bx => 3,
            Register::Sp => 4,
            Register::Bp => 5,
            Register::Si => 6,
            Register::Di => 7,
            Register::R8 => 8,
            Register::R9 => 9,
            Register::R10 => 10,
            Register::R11 => 11,
            Register::R12 => 12,
            Register::R13 => 13,
            Register::R14 => 14,
            Register::R15 => 15,
        }
    }

    /// Whether the register is one of the upper eight, which the encoding
    /// reaches only through the extension prefix.
    pub fn requires_extension(self) -> (r: bool)
        ensures
            r == (self.ordinal() >= 8),
    {
        self.number() >= 8
    }

    /// The low three bits of the register's number, as they stand in an
    /// opcode or a ModRM byte.
    pub fn id8(self) -> (r: u8)
        ensures
            r as nat == self.ordinal() % 8,
            r < 8,
    {
        self.number() % 8
    }
}

impl RegisterType {
    /// The number of bytes that an operand of this width occupies.
    pub open spec fn size(self) -> nat {
        match self {
            RegisterType::Byte => 1,
            RegisterType::Word => 2,
            RegisterType::DoubleWord => 4,
            RegisterType::QuadWord => 8,
        }
    }

    /// The number of bytes that an operand of this width occupies.
    pub fn byte_size(self) -> (r: usize)
        ensures
            r as nat == self.size(),
    {
        match self {
            RegisterType::Byte => 1,
            RegisterType::Word => 2,
            RegisterType::DoubleWord => 4,
            RegisterType::QuadWord => 8,
        }
    }
}

impl SyscallName {
    /// The kernel's number for this call on x86-64 Linux.
    pub open spec fn spec_number(self) -> u64 {
        match self {
            SyscallName::Write => 0x01,
            SyscallName::Exit => 0x3c,
        }
    }

    /// The kernel's number for this call on x86-64 Linux.
    pub fn number(self) -> (r: u64)
        ensures
            r == self.spec_number(),
    {
        match self {
            SyscallName::Write => 0x01,
            SyscallName::Exit => 0x3c,
        }
    }
}

impl Symbol {
    /// The bytes that the symbol stores in the data segment.
    pub open spec fn bytes(&self) -> Seq<u8> {
        match self {
            Symbol::String(StringSymbol(s)) => s@,
        }
    }
}

} // verus!
