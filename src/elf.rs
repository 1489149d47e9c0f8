//! The ELF64 file format: the file header, program and section headers,
//! and the byte layout in which the headers are written.

use vstd::prelude::*;

use crate::bytes::{le_bytes, push_le};

verus! {

/// A segment that may be executed.
pub const PROGRAM_EXECUTE: u32 = 0x1;
/// A segment that may be written.
pub const PROGRAM_WRITE: u32 = 0x2;
/// A segment that may be read.
pub const PROGRAM_READ: u32 = 0x4;

/// The permission bits of a program header.
#[derive(Clone, Copy, PartialEq, Eq, Structural)]
pub struct ProgramFlags {
    pub bits: u32,
}

impl ProgramFlags {
    /// The flags of both.
    pub fn union(self, other: ProgramFlags) -> (r: ProgramFlags)
        ensures
            r.bits == self.bits | other.bits,
    {
        ProgramFlags { bits: self.bits | other.bits }
    }

    /// Whether every flag of `other` is set here.
    pub fn contains(self, other: ProgramFlags) -> (r: bool)
        ensures
            r == (self.bits & other.bits == other.bits),
    {
        self.bits & other.bits == other.bits
    }
}

pub const SECTION_WRITE: u64 = 0x1;
pub const SECTION_ALLOC: u64 = 0x2;
pub const SECTION_EXECUTE: u64 = 0x4;
pub const SECTION_MERGE: u64 = 0x10;
pub const SECTION_STRINGS: u64 = 0x20;
pub const SECTION_INFO_LINK: u64 = 0x40;
pub const SECTION_LINK_ORDER: u64 = 0x80;
pub const SECTION_OS_NONCONFORMING: u64 = 0x100;
pub const SECTION_GROUP: u64 = 0x200;
pub const SECTION_TLS: u64 = 0x400;
pub const SECTION_MASK_OS: u64 = 0x0FF00000;
pub const SECTION_MASK_PROC: u64 = 0xF0000000;
pub const SECTION_ORDERED: u64 = 0x4000000;
pub const SECTION_EXCLUDE: u64 = 0x8000000;

/// The attribute bits of a section header.
#[derive(Clone, Copy, PartialEq, Eq, Structural)]
pub struct SectionFlags {
    pub bits: u64,
}

/// The file's class: 32-bit or 64-bit.
#[derive(Clone, Copy, PartialEq, Eq, Structural)]
pub enum BitLen {
    X32,
    X64,
}

impl BitLen {
    /// The field's value in the file.
    pub open spec fn spec_value(self) -> u8 {
        match self {
            BitLen::X32 => 1,
            BitLen::X64 => 2,
        }
    }

    /// The field's value in the file.
    pub fn value(self) -> (r: u8)
        ensures
            r == self.spec_value(),
    {
        match self {
            BitLen::X32 => 1,
            BitLen::X64 => 2,
        }
    }
}

/// The byte order of the file's numeric fields.
#[derive(Clone, Copy, PartialEq, Eq, Structural)]
pub enum Endian {
    Little,
    Big,
}

impl Endian {
    /// The field's value in the file.
    pub open spec fn spec_value(self) -> u8 {
        match self {
            Endian::Little => 1,
            Endian::Big => 2,
        }
    }

    /// The field's value in the file.
    pub fn value(self) -> (r: u8)
        ensures
            r == self.spec_value(),
    {
        match self {
            Endian::Little => 1,
            Endian::Big => 2,
        }
    }
}

/// The operating system ABI that the file targets.
#[derive(Clone, Copy, PartialEq, Eq, Structural)]
pub enum ABI {
    SystemV,
    HpUx,
    NetBsd,
    Linux,
    GnuHurd,
    Solaris,
    Aix,
    Irix,
    FreeBsd,
    Tru64,
    NovellModesto,
    OpenBsd,
    OpenVms,
    NonStopKernel,
    Aros,
    FenixOs,
    CloudABI,
    StratusTechnologiesOpenVos,
}

impl ABI {
    /// The field's value in the file.
    pub open spec fn spec_value(self) -> u8 {
        match self {
            ABI::SystemV => 0x00,
            ABI::HpUx => 0x01,
            ABI::NetBsd => 0x02,
            ABI::Linux => 0x03,
            ABI::GnuHurd => 0x04,
            ABI::Solaris => 0x06,
            ABI::Aix => 0x07,
            ABI::Irix => 0x08,
            ABI::FreeBsd => 0x09,
            ABI::Tru64 => 0x0A,
            ABI::NovellModesto => 0x0B,
            ABI::OpenBsd => 0x0C,
            ABI::OpenVms => 0x0D,
            ABI::NonStopKernel => 0x0E,
            ABI::Aros => 0x0F,
            ABI::FenixOs => 0x10,
            ABI::CloudABI => 0x11,
            ABI::StratusTechnologiesOpenVos => 0x12,
        }
    }

    /// The field's value in the file.
    pub fn value(self) -> (r: u8)
        ensures
            r == self.spec_value(),
    {
        match self {
            ABI::SystemV => 0x00,
            ABI::HpUx => 0x01,
            ABI::NetBsd => 0x02,
            ABI::Linux => 0x03,
            ABI::GnuHurd => 0x04,
            ABI::Solaris => 0x06,
            ABI::Aix => 0x07,
            ABI::Irix => 0x08,
            ABI::FreeBsd => 0x09,
            ABI::Tru64 => 0x0A,
            ABI::NovellModesto => 0x0B,
            ABI::OpenBsd => 0x0C,
            ABI::OpenVms => 0x0D,
            ABI::NonStopKernel => 0x0E,
            ABI::Aros => 0x0F,
            ABI::FenixOs => 0x10,
            ABI::CloudABI => 0x11,
            ABI::StratusTechnologiesOpenVos => 0x12,
        }
    }
}

/// The kind of object file.
#[derive(Clone, Copy, PartialEq, Eq, Structural)]
pub enum FileType {
    NoType,
    Relocatable,
    Executable,
    SharedObject,
    Core,
    Loos,
    Hios,
    Loproc,
    Hiproc,
}

impl FileType {
    /// The field's value in the file.
    pub open spec fn spec_value(self) -> u16 {
        match self {
            FileType::NoType => 0x00,
            FileType::Relocatable => 0x01,
            FileType::Executable => 0x02,
            FileType::SharedObject => 0x03,
            FileType::Core => 0x04,
            FileType::Loos => 0xFE00,
            FileType::Hios => 0xFEFF,
            FileType::Loproc => 0xFF00,
            FileType::Hiproc => 0xFFFF,
        }
    }

    /// The field's value in the file.
    pub fn value(self) -> (r: u16)
        ensures
            r == self.spec_value(),
    {
        match self {
            FileType::NoType => 0x00,
            FileType::Relocatable => 0x01,
            FileType::Executable => 0x02,
            FileType::SharedObject => 0x03,
            FileType::Core => 0x04,
            FileType::Loos => 0xFE00,
            FileType::Hios => 0xFEFF,
            FileType::Loproc => 0xFF00,
            FileType::Hiproc => 0xFFFF,
        }
    }
}

/// The target instruction set.
#[derive(Clone, Copy, PartialEq, Eq, Structural)]
pub enum Arch {
    NoMachine,
    Sparc,
    X86,
    Mips,
    PowerPC,
    PowerPC64,
    Arm,
    X86_64,
    AArch64,
    RISCV,
}

impl Arch {
    /// The field's value in the file.
    pub open spec fn spec_value(self) -> u16 {
        match self {
            Arch::NoMachine => 0x00,
            Arch::Sparc => 0x02,
            Arch::X86 => 0x03,
            Arch::Mips => 0x08,
            Arch::PowerPC => 0x14,
            Arch::PowerPC64 => 0x15,
            Arch::Arm => 0x28,
            Arch::X86_64 => 0x3E,
            Arch::AArch64 => 0xB7,
            Arch::RISCV => 0xF3,
        }
    }

    /// The field's value in the file.
    pub fn value(self) -> (r: u16)
        ensures
            r == self.spec_value(),
    {
        match self {
            Arch::NoMachine => 0x00,
            Arch::Sparc => 0x02,
            Arch::X86 => 0x03,
            Arch::Mips => 0x08,
            Arch::PowerPC => 0x14,
            Arch::PowerPC64 => 0x15,
            Arch::Arm => 0x28,
            Arch::X86_64 => 0x3E,
            Arch::AArch64 => 0xB7,
            Arch::RISCV => 0xF3,
        }
    }
}

/// The kind of a program header entry.
#[derive(Clone, Copy, PartialEq, Eq, Structural)]
pub enum ProgramType {
    Null,
    Load,
    Dynamic,
    Interp,
    Note,
    Shlib,
    Phdr,
    Tls,
    Loos,
    Hios,
    Loproc,
    Hiproc,
}

impl ProgramType {
    /// The field's value in the file.
    pub open spec fn spec_value(self) -> u32 {
        match self {
            ProgramType::Null => 0x00,
            ProgramType::Load => 0x01,
            ProgramType::Dynamic => 0x02,
            ProgramType::Interp => 0x03,
            ProgramType::Note => 0x04,
            ProgramType::Shlib => 0x05,
            ProgramType::Phdr => 0x06,
            ProgramType::Tls => 0x07,
            ProgramType::Loos => 0x60000000,
            ProgramType::Hios => 0x6FFFFFFF,
            ProgramType::Loproc => 0x70000000,
            ProgramType::Hiproc => 0x7FFFFFFF,
        }
    }

    /// The field's value in the file.
    pub fn value(self) -> (r: u32)
        ensures
            r == self.spec_value(),
    {
        match self {
            ProgramType::Null => 0x00,
            ProgramType::Load => 0x01,
            ProgramType::Dynamic => 0x02,
            ProgramType::Interp => 0x03,
            ProgramType::Note => 0x04,
            ProgramType::Shlib => 0x05,
            ProgramType::Phdr => 0x06,
            ProgramType::Tls => 0x07,
            ProgramType::Loos => 0x60000000,
            ProgramType::Hios => 0x6FFFFFFF,
            ProgramType::Loproc => 0x70000000,
            ProgramType::Hiproc => 0x7FFFFFFF,
        }
    }
}

/// The kind of a section header entry.
#[derive(Clone, Copy, PartialEq, Eq, Structural)]
pub enum SectionType {
    Null,
    Progbits,
    Symtab,
    Strtab,
    Rela,
    Hash,
    Dynamic,
    Note,
    NoBits,
    Rel,
    Shlib,
    Dynsym,
    InitArray,
    FiniArray,
    PreinitArray,
    Group,
    SymtabShndx,
    Num,
    Loos,
}

impl SectionType {
    /// The field's value in the file.
    pub open spec fn spec_value(self) -> u32 {
        match self {
            SectionType::Null => 0x00,
            SectionType::Progbits => 0x01,
            SectionType::Symtab => 0x02,
            SectionType::Strtab => 0x03,
            SectionType::Rela => 0x04,
            SectionType::Hash => 0x05,
            SectionType::Dynamic => 0x06,
            SectionType::Note => 0x07,
            SectionType::NoBits => 0x08,
            SectionType::Rel => 0x09,
            SectionType::Shlib => 0x0A,
            SectionType::Dynsym => 0x0B,
            SectionType::InitArray => 0x0E,
            SectionType::FiniArray => 0x0F,
            SectionType::PreinitArray => 0x10,
            SectionType::Group => 0x11,
            SectionType::SymtabShndx => 0x12,
            SectionType::Num => 0x13,
            SectionType::Loos => 0x60000000,
        }
    }

    /// The field's value in the file.
    pub fn value(self) -> (r: u32)
        ensures
            r == self.spec_value(),
    {
        match self {
            SectionType::Null => 0x00,
            SectionType::Progbits => 0x01,
            SectionType::Symtab => 0x02,
            SectionType::Strtab => 0x03,
            SectionType::Rela => 0x04,
            SectionType::Hash => 0x05,
            SectionType::Dynamic => 0x06,
            SectionType::Note => 0x07,
            SectionType::NoBits => 0x08,
            SectionType::Rel => 0x09,
            SectionType::Shlib => 0x0A,
            SectionType::Dynsym => 0x0B,
            SectionType::InitArray => 0x0E,
            SectionType::FiniArray => 0x0F,
            SectionType::PreinitArray => 0x10,
            SectionType::Group => 0x11,
            SectionType::SymtabShndx => 0x12,
            SectionType::Num => 0x13,
            SectionType::Loos => 0x60000000,
        }
    }
}
/// The file header, at the start of every ELF64 file.
pub struct FileHeader {
    pub magic: [u8; 4],
    pub bitlen: BitLen,
    pub endian: Endian,
    pub header_version: u8,
    pub abi: ABI,
    pub abi_version: u8,
    pub _padding: [u8; 7],
    pub file_type: FileType,
    pub arch: Arch,
    pub elf_version: u32,
    pub entry: u64,
    pub program_header_offset: u64,
    pub section_header_offset: u64,
    pub flags: u32,
    pub header_size: u16,
    pub program_header_entry_size: u16,
    pub program_header_entry_count: u16,
    pub section_header_entry_size: u16,
    pub section_header_entry_count: u16,
    pub section_header_string_table_idx: u16,
}

/// One entry of the program header table: a region for the loader to map.
pub struct ProgramHeader {
    pub type_: ProgramType,
    pub flags: ProgramFlags,
    pub offset: u64,
    pub virtual_address: u64,
    pub physical_address: u64,
    pub file_size: u64,
    pub memory_size: u64,
    pub align: u64,
}

/// One entry of the section header table.
pub struct SectionHeader {
    pub name: u32,
    pub type_: SectionType,
    pub flags: SectionFlags,
    pub virtual_address: u64,
    pub offset: u64,
    pub size: u64,
    pub link: u32,
    pub info: u32,
    pub align: u64,
    pub entry_size: u64,
}

impl FileHeader {
    /// The header's 64 bytes: each field in declaration order, numbers
    /// little-endian, with no padding between fields.
    pub open spec fn spec_bytes(&self) -> Seq<u8> {
        self.magic@ + le_bytes(self.bitlen.spec_value() as nat, 1) + le_bytes(
            self.endian.spec_value() as nat,
            1,
        ) + le_bytes(self.header_version as nat, 1) + le_bytes(self.abi.spec_value() as nat, 1)
            + le_bytes(self.abi_version as nat, 1) + self._padding@ + le_bytes(
            self.file_type.spec_value() as nat,
            2,
        ) + le_bytes(self.arch.spec_value() as nat, 2) + le_bytes(self.elf_version as nat, 4)
            + le_bytes(self.entry as nat, 8) + le_bytes(self.program_header_offset as nat, 8)
            + le_bytes(self.section_header_offset as nat, 8) + le_bytes(self.flags as nat, 4)
            + le_bytes(self.header_size as nat, 2) + le_bytes(
            self.program_header_entry_size as nat,
            2,
        ) + le_bytes(self.program_header_entry_count as nat, 2) + le_bytes(
            self.section_header_entry_size as nat,
            2,
        ) + le_bytes(self.section_header_entry_count as nat, 2) + le_bytes(
            self.section_header_string_table_idx as nat,
            2,
        )
    }

    /// The header's bytes.
    pub fn to_bytes(&self) -> (r: Vec<u8>)
        ensures
            r@ == self.spec_bytes(),
    {
        let mut bytes: Vec<u8> = Vec::with_capacity(64);
        let out = &mut bytes;
        out.push(self.magic[0]);
        out.push(self.magic[1]);
        out.push(self.magic[2]);
        out.push(self.magic[3]);
        assert(out@ =~= self.magic@);
        push_le(out, self.bitlen.value() as u64, 1);
        push_le(out, self.endian.value() as u64, 1);
        push_le(out, self.header_version as u64, 1);
        push_le(out, self.abi.value() as u64, 1);
        push_le(out, self.abi_version as u64, 1);
        let ghost before_padding = out@;
        let mut i: usize = 0;
        while i < 7
            invariant
                i <= 7,
                out@ == before_padding + self._padding@.take(i as int),
            decreases 7 - i,
        {
            out.push(self._padding[i]);
            i = i + 1;
            assert(out@ =~= before_padding + self._padding@.take(i as int));
        }
        assert(self._padding@.take(7) =~= self._padding@);
        push_le(out, self.file_type.value() as u64, 2);
        push_le(out, self.arch.value() as u64, 2);
        push_le(out, self.elf_version as u64, 4);
        push_le(out, self.entry, 8);
        push_le(out, self.program_header_offset, 8);
        push_le(out, self.section_header_offset, 8);
        push_le(out, self.flags as u64, 4);
        push_le(out, self.header_size as u64, 2);
        push_le(out, self.program_header_entry_size as u64, 2);
        push_le(out, self.program_header_entry_count as u64, 2);
        push_le(out, self.section_header_entry_size as u64, 2);
        push_le(out, self.section_header_entry_count as u64, 2);
        push_le(out, self.section_header_string_table_idx as u64, 2);
        bytes
    }
}

impl ProgramHeader {
    /// The entry's 56 bytes: each field in declaration order, little-endian.
    pub open spec fn spec_bytes(&self) -> Seq<u8> {
        le_bytes(self.type_.spec_value() as nat, 4) + le_bytes(self.flags.bits as nat, 4)
            + le_bytes(self.offset as nat, 8) + le_bytes(self.virtual_address as nat, 8)
            + le_bytes(self.physical_address as nat, 8) + le_bytes(self.file_size as nat, 8)
            + le_bytes(self.memory_size as nat, 8) + le_bytes(self.align as nat, 8)
    }

    /// The entry's bytes.
    pub fn to_bytes(&self) -> (r: Vec<u8>)
        ensures
            r@ == self.spec_bytes(),
    {
        let mut bytes: Vec<u8> = Vec::with_capacity(56);
        let ghost start = bytes@;
        let out = &mut bytes;
        push_le(out, self.type_.value() as u64, 4);
        push_le(out, self.flags.bits as u64, 4);
        push_le(out, self.offset, 8);
        push_le(out, self.virtual_address, 8);
        push_le(out, self.physical_address, 8);
        push_le(out, self.file_size, 8);
        push_le(out, self.memory_size, 8);
        push_le(out, self.align, 8);
        assert(bytes@ =~= self.spec_bytes());
        bytes
    }
}

} // verus!
