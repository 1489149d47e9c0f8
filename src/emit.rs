//! The headers of the executable: an ELF64 file header and two program
//! headers, one for each segment of an `Assembly`.

use vstd::prelude::*;

use crate::assembly::{Assembly, SegmentInfo, PAGE_SIZE};
use crate::bytes::{
    from_le, le_bytes, lemma_byte_range_widths, lemma_from_le_bytes_small, lemma_le_bytes_len,
};
use crate::elf::{
    Arch, BitLen, Endian, FileHeader, FileType, ProgramFlags, ProgramHeader, ProgramType, ABI,
    PROGRAM_EXECUTE, PROGRAM_READ,
};

verus! {

/// The size of the file header, and the offset of the program header table.
pub const FILE_HEADER_SIZE: u16 = 0x40;
/// The size of one program header.
pub const PROGRAM_HEADER_SIZE: u16 = 0x38;

/// The four bytes that open every ELF file.
pub open spec fn elf_magic() -> Seq<u8> {
    seq![0x7fu8, 0x45u8, 0x4cu8, 0x46u8]
}

/// The file header of an x86-64 Linux executable that starts at `entry`,
/// with two program headers right after it and no section headers.
pub open spec fn file_header_bytes(entry: u64) -> Seq<u8> {
    elf_magic() + le_bytes(2, 1) + le_bytes(1, 1) + le_bytes(1, 1) + le_bytes(0, 1) + le_bytes(0, 1)
        + seq![0u8, 0u8, 0u8, 0u8, 0u8, 0u8, 0u8] + le_bytes(2, 2) + le_bytes(0x3e, 2) + le_bytes(1, 4)
        + le_bytes(entry as nat, 8) + le_bytes(0x40, 8) + le_bytes(0, 8) + le_bytes(0, 4)
        + le_bytes(0x40, 2) + le_bytes(0x38, 2) + le_bytes(2, 2) + le_bytes(0, 2) + le_bytes(0, 2)
        + le_bytes(0, 2)
}

/// A loadable program header entry for a segment with the given
/// permissions, placement and length in the file, aligned to a page.
pub open spec fn program_header_bytes(flags: u32, info: SegmentInfo, file_size: u64) -> Seq<u8> {
    le_bytes(1, 4) + le_bytes(flags as nat, 4) + le_bytes(info.offset as nat, 8) + le_bytes(
        info.virtual_address as nat,
        8,
    ) + le_bytes(info.physical_address as nat, 8) + le_bytes(file_size as nat, 8) + le_bytes(
        info.memory_size as nat,
        8,
    ) + le_bytes(PAGE_SIZE as nat, 8)
}

/// The file header for `assembly`: execution starts at the code segment.
pub fn file_header(assembly: &Assembly) -> (r: FileHeader)
    ensures
        r.spec_bytes() == file_header_bytes(assembly.code_info.virtual_address),
        r.entry == assembly.code_info.virtual_address,
        r.program_header_offset == FILE_HEADER_SIZE,
        r.program_header_entry_count == 2,
        r.section_header_offset == 0,
        r.section_header_entry_count == 0,
{
    let r = FileHeader {
        magic: [0x7f, 0x45, 0x4c, 0x46],
        bitlen: BitLen::X64,
        endian: Endian::Little,
        header_version: 1,
        abi: ABI::SystemV,
        abi_version: 0,
        _padding: [0;7],
        file_type: FileType::Executable,
        arch: Arch::X86_64,
        elf_version: 1,
        entry: assembly.code_info.virtual_address,
        program_header_offset: FILE_HEADER_SIZE as u64,
        section_header_offset: 0,
        flags: 0,
        header_size: FILE_HEADER_SIZE,
        program_header_entry_size: PROGRAM_HEADER_SIZE,
        program_header_entry_count: 2,
        section_header_entry_size: 0,
        section_header_entry_count: 0,
        section_header_string_table_idx: 0,
    };
    assert(r.magic@ =~= elf_magic());
    assert(r._padding@ =~= seq![0u8, 0u8, 0u8, 0u8, 0u8, 0u8, 0u8]);
    r
}

/// The program header of the code segment: loadable, readable and executable.
pub fn code_header(assembly: &Assembly) -> (r: ProgramHeader)
    ensures
        r.spec_bytes() == program_header_bytes(
            PROGRAM_READ | PROGRAM_EXECUTE,
            assembly.code_info,
            assembly.code@.len() as u64,
        ),
        r.type_ == ProgramType::Load,
        r.flags.bits == PROGRAM_READ | PROGRAM_EXECUTE,
        r.offset == assembly.code_info.offset,
        r.virtual_address == assembly.code_info.virtual_address,
        r.physical_address == assembly.code_info.physical_address,
        r.file_size == assembly.code@.len(),
        r.memory_size == assembly.code_info.memory_size,
        r.align == PAGE_SIZE,
{
    let flags = ProgramFlags { bits: PROGRAM_EXECUTE }.union(ProgramFlags { bits: PROGRAM_READ });
    assert(PROGRAM_EXECUTE | PROGRAM_READ == PROGRAM_READ | PROGRAM_EXECUTE) by (bit_vector);
    segment_header(flags, &assembly.code_info, assembly.code.len() as u64)
}

/// The program header of the data segment: loadable and read-only.
pub fn data_header(assembly: &Assembly) -> (r: ProgramHeader)
    ensures
        r.spec_bytes() == program_header_bytes(
            PROGRAM_READ,
            assembly.data_info,
            assembly.data@.len() as u64,
        ),
        r.type_ == ProgramType::Load,
        r.flags.bits == PROGRAM_READ,
        r.offset == assembly.data_info.offset,
        r.virtual_address == assembly.data_info.virtual_address,
        r.physical_address == assembly.data_info.physical_address,
        r.file_size == assembly.data@.len(),
        r.memory_size == assembly.data_info.memory_size,
        r.align == PAGE_SIZE,
{
    segment_header(ProgramFlags { bits: PROGRAM_READ }, &assembly.data_info, assembly.data.len() as u64)
}

fn segment_header(flags: ProgramFlags, info: &SegmentInfo, file_size: u64) -> (r: ProgramHeader)
    ensures
        r.spec_bytes() == program_header_bytes(flags.bits, *info, file_size),
        r.type_ == ProgramType::Load,
        r.flags == flags,
        r.offset == info.offset,
        r.virtual_address == info.virtual_address,
        r.physical_address == info.physical_address,
        r.file_size == file_size,
        r.memory_size == info.memory_size,
        r.align == PAGE_SIZE,
{
    ProgramHeader {
        type_: ProgramType::Load,
        flags,
        offset: info.offset,
        virtual_address: info.virtual_address,
        physical_address: info.physical_address,
        file_size,
        memory_size: info.memory_size,
        align: PAGE_SIZE,
    }
}

/// The first bytes of the executable: the file header, then the code
/// segment's program header, then the data segment's.
pub open spec fn header_bytes(assembly: &Assembly) -> Seq<u8> {
    file_header_bytes(assembly.code_info.virtual_address) + program_header_bytes(
        PROGRAM_READ | PROGRAM_EXECUTE,
        assembly.code_info,
        assembly.code@.len() as u64,
    ) + program_header_bytes(PROGRAM_READ, assembly.data_info, assembly.data@.len() as u64)
}

/// The first bytes of the executable: the file header, then the code
/// segment's program header, then the data segment's.
pub fn headers(assembly: &Assembly) -> (r: Vec<u8>)
    ensures
        r@ == header_bytes(assembly),
{
    let mut bytes = file_header(assembly).to_bytes();
    let mut code = code_header(assembly).to_bytes();
    let mut data = data_header(assembly).to_bytes();
    bytes.append(&mut code);
    bytes.append(&mut data);
    bytes
}

/// The file header is 64 bytes long; it opens with the ELF magic, names
/// `entry` as the entry point, puts the program header table at offset
/// 0x40 with two entries, and declares no section header table (offset and
/// count zero).
pub proof fn lemma_file_header_fields(entry: u64)
    ensures
        ({
            let b = file_header_bytes(entry);
            &&& b.len() == 64
            &&& b.subrange(0, 4) == elf_magic()
            &&& from_le(b.subrange(0x18, 0x20)) == entry
            &&& from_le(b.subrange(0x20, 0x28)) == 0x40
            &&& from_le(b.subrange(0x28, 0x30)) == 0
            &&& from_le(b.subrange(0x36, 0x38)) == 0x38
            &&& from_le(b.subrange(0x38, 0x3a)) == 2
            &&& from_le(b.subrange(0x3c, 0x3e)) == 0
        }),
{
    lemma_byte_range_widths();
    lemma_le_bytes_len(2, 1);
    lemma_le_bytes_len(1, 1);
    lemma_le_bytes_len(0, 1);
    lemma_le_bytes_len(2, 2);
    lemma_le_bytes_len(0x3e, 2);
    lemma_le_bytes_len(1, 4);
    lemma_le_bytes_len(entry as nat, 8);
    lemma_le_bytes_len(0x40, 8);
    lemma_le_bytes_len(0, 8);
    lemma_le_bytes_len(0, 4);
    lemma_le_bytes_len(0x40, 2);
    lemma_le_bytes_len(0x38, 2);
    lemma_le_bytes_len(0, 2);
    let b = file_header_bytes(entry);
    let ident = elf_magic() + le_bytes(2, 1) + le_bytes(1, 1) + le_bytes(1, 1) + le_bytes(0, 1)
        + le_bytes(0, 1) + seq![0u8, 0u8, 0u8, 0u8, 0u8, 0u8, 0u8];
    let upto_entry = ident + le_bytes(2, 2) + le_bytes(0x3e, 2) + le_bytes(1, 4);
    let upto_phoff = upto_entry + le_bytes(entry as nat, 8);
    let upto_shoff = upto_phoff + le_bytes(0x40, 8);
    let upto_flags = upto_shoff + le_bytes(0, 8);
    let upto_phentsize = upto_flags + le_bytes(0, 4) + le_bytes(0x40, 2);
    let upto_phnum = upto_phentsize + le_bytes(0x38, 2);
    let upto_shentsize = upto_phnum + le_bytes(2, 2);
    let upto_shnum = upto_shentsize + le_bytes(0, 2);
    assert(ident.len() == 16);
    assert(upto_entry.len() == 0x18);
    assert(upto_shnum.len() == 0x3c);
    assert(b == upto_shnum + le_bytes(0, 2) + le_bytes(0, 2));
    assert(b.subrange(0, 4) =~= elf_magic());
    assert(b.subrange(0x18, 0x20) =~= le_bytes(entry as nat, 8));
    assert(b.subrange(0x20, 0x28) =~= le_bytes(0x40, 8));
    assert(b.subrange(0x28, 0x30) =~= le_bytes(0, 8));
    assert(b.subrange(0x36, 0x38) =~= le_bytes(0x38, 2));
    assert(b.subrange(0x38, 0x3a) =~= le_bytes(2, 2));
    assert(b.subrange(0x3c, 0x3e) =~= le_bytes(0, 2));
    lemma_from_le_bytes_small(entry as nat, 8);
    lemma_from_le_bytes_small(0x40, 8);
    lemma_from_le_bytes_small(0, 8);
    lemma_from_le_bytes_small(0x38, 2);
    lemma_from_le_bytes_small(2, 2);
    lemma_from_le_bytes_small(0, 2);
}

/// A program header entry is 56 bytes long, and a loader reads back from
/// it the segment's type, permissions, file offset, addresses, sizes and
/// alignment as given.
pub proof fn lemma_program_header_fields(flags: u32, info: SegmentInfo, file_size: u64)
    ensures
        ({
            let b = program_header_bytes(flags, info, file_size);
            &&& b.len() == 0x38
            &&& from_le(b.subrange(0, 4)) == 1
            &&& from_le(b.subrange(4, 8)) == flags
            &&& from_le(b.subrange(8, 0x10)) == info.offset
            &&& from_le(b.subrange(0x10, 0x18)) == info.virtual_address
            &&& from_le(b.subrange(0x18, 0x20)) == info.physical_address
            &&& from_le(b.subrange(0x20, 0x28)) == file_size
            &&& from_le(b.subrange(0x28, 0x30)) == info.memory_size
            &&& from_le(b.subrange(0x30, 0x38)) == PAGE_SIZE
        }),
{
    lemma_byte_range_widths();
    let b = program_header_bytes(flags, info, file_size);
    let type_field = le_bytes(1, 4);
    let flags_field = le_bytes(flags as nat, 4);
    let offset_field = le_bytes(info.offset as nat, 8);
    let vaddr_field = le_bytes(info.virtual_address as nat, 8);
    let paddr_field = le_bytes(info.physical_address as nat, 8);
    let filesz_field = le_bytes(file_size as nat, 8);
    let memsz_field = le_bytes(info.memory_size as nat, 8);
    let align_field = le_bytes(PAGE_SIZE as nat, 8);
    lemma_le_bytes_len(1, 4);
    lemma_le_bytes_len(flags as nat, 4);
    lemma_le_bytes_len(info.offset as nat, 8);
    lemma_le_bytes_len(info.virtual_address as nat, 8);
    lemma_le_bytes_len(info.physical_address as nat, 8);
    lemma_le_bytes_len(file_size as nat, 8);
    lemma_le_bytes_len(info.memory_size as nat, 8);
    lemma_le_bytes_len(PAGE_SIZE as nat, 8);
    assert(b == type_field + flags_field + offset_field + vaddr_field + paddr_field + filesz_field + memsz_field + align_field);
    assert(b.subrange(0, 4) =~= type_field);
    assert(b.subrange(4, 8) =~= flags_field);
    assert(b.subrange(8, 0x10) =~= offset_field);
    assert(b.subrange(0x10, 0x18) =~= vaddr_field);
    assert(b.subrange(0x18, 0x20) =~= paddr_field);
    assert(b.subrange(0x20, 0x28) =~= filesz_field);
    assert(b.subrange(0x28, 0x30) =~= memsz_field);
    assert(b.subrange(0x30, 0x38) =~= align_field);
    lemma_from_le_bytes_small(1, 4);
    lemma_from_le_bytes_small(flags as nat, 4);
    lemma_from_le_bytes_small(info.offset as nat, 8);
    lemma_from_le_bytes_small(info.virtual_address as nat, 8);
    lemma_from_le_bytes_small(info.physical_address as nat, 8);
    lemma_from_le_bytes_small(file_size as nat, 8);
    lemma_from_le_bytes_small(info.memory_size as nat, 8);
    lemma_from_le_bytes_small(PAGE_SIZE as nat, 8);
}

/// The combined size of the file header and the two program headers.
pub const HEADERS_SIZE: u64 = 0xb0;

/// Why an assembly cannot be written out as one file.
#[derive(Clone, Copy, PartialEq, Eq, Structural, Debug)]
pub enum ImageError {
    /// The headers, the code segment and the data segment do not follow one
    /// another in the file without overlapping.
    SegmentsOverlap,
    /// The file would be longer than memory can hold.
    TooLarge,
}

/// `n` zero bytes.
pub open spec fn zeros(n: int) -> Seq<u8> {
    Seq::new(n as nat, |i: int| 0u8)
}

/// The headers end before the code segment, which ends before the data
/// segment starts.
pub open spec fn segments_ordered(assembly: &Assembly) -> bool {
    &&& HEADERS_SIZE <= assembly.code_info.offset
    &&& assembly.code_info.offset + assembly.code@.len() <= assembly.data_info.offset
}

/// The whole file: the headers, then each segment's bytes at its file
/// offset, with zeros in between.
pub open spec fn image_bytes(assembly: &Assembly) -> Seq<u8> {
    let code_end = assembly.code_info.offset + assembly.code@.len();
    header_bytes(assembly) + zeros(assembly.code_info.offset - HEADERS_SIZE) + assembly.code@
        + zeros(assembly.data_info.offset - code_end) + assembly.data@
}

proof fn lemma_header_bytes_len(assembly: &Assembly)
    ensures
        header_bytes(assembly).len() == HEADERS_SIZE,
{
    lemma_file_header_fields(assembly.code_info.virtual_address);
    lemma_program_header_fields(
        PROGRAM_READ | PROGRAM_EXECUTE,
        assembly.code_info,
        assembly.code@.len() as u64,
    );
    lemma_program_header_fields(PROGRAM_READ, assembly.data_info, assembly.data@.len() as u64);
}

/// Appends zeros to `out` until it is `target` bytes long.
fn pad_to(out: &mut Vec<u8>, target: usize)
    requires
        old(out)@.len() <= target,
    ensures
        final(out)@ == old(out)@ + zeros(target - old(out)@.len()),
{
    let ghost start = out@;
    while out.len() < target
        invariant
            start.len() <= out@.len() <= target,
            out@ == start + zeros(out@.len() - start.len()),
        decreases target - out@.len(),
    {
        out.push(0);
        assert(out@ =~= start + zeros(out@.len() - start.len()));
    }
}

/// Appends a copy of `bytes` to `out`.
fn push_all(out: &mut Vec<u8>, bytes: &[u8])
    ensures
        final(out)@ == old(out)@ + bytes@,
{
    let ghost start = out@;
    let mut i: usize = 0;
    while i < bytes.len()
        invariant
            i <= bytes@.len(),
            out@ == start + bytes@.take(i as int),
        decreases bytes.len() - i,
    {
        out.push(bytes[i]);
        i = i + 1;
        assert(out@ =~= start + bytes@.take(i as int));
    }
    assert(bytes@.take(i as int) =~= bytes@);
}

/// The executable file's bytes: the headers, then the code and data
/// segments at their file offsets, zeros elsewhere. Fails where the parts
/// would overlap, or where the file would not fit in memory.
pub fn file_image(assembly: &Assembly) -> (r: Result<Vec<u8>, ImageError>)
    ensures
        r is Ok <==> segments_ordered(assembly) && assembly.data_info.offset
            + assembly.data@.len() <= usize::MAX,
        !segments_ordered(assembly) ==> r == Err::<Vec<u8>, ImageError>(
            ImageError::SegmentsOverlap,
        ),
        r == Err::<Vec<u8>, ImageError>(ImageError::TooLarge) <==> segments_ordered(assembly)
            && assembly.data_info.offset + assembly.data@.len() > usize::MAX,
        r matches Ok(image) ==> image@ == image_bytes(assembly),
{
    let code_offset = assembly.code_info.offset;
    let data_offset = assembly.data_info.offset;
    let code_len = assembly.code.len() as u64;
    let data_len = assembly.data.len() as u64;
    if code_offset < HEADERS_SIZE || code_offset > data_offset || code_len > data_offset
        - code_offset {
        return Err(ImageError::SegmentsOverlap);
    }
    if data_offset > usize::MAX as u64 || data_len > usize::MAX as u64 - data_offset {
        return Err(ImageError::TooLarge);
    }
    proof {
        lemma_header_bytes_len(assembly);
    }
    let mut out = headers(assembly);
    pad_to(&mut out, code_offset as usize);
    push_all(&mut out, assembly.code.as_slice());
    pad_to(&mut out, data_offset as usize);
    push_all(&mut out, assembly.data.as_slice());
    Ok(out)
}

/// In the file image, the headers stand at the start, the code segment's
/// bytes at its file offset, and the data segment's bytes at its own; the
/// file ends with the data segment.
pub proof fn lemma_image_placement(assembly: &Assembly)
    requires
        segments_ordered(assembly),
    ensures
        ({
            let image = image_bytes(assembly);
            let code_at = assembly.code_info.offset as int;
            let data_at = assembly.data_info.offset as int;
            &&& image.len() == data_at + assembly.data@.len()
            &&& image.subrange(0, HEADERS_SIZE as int) == header_bytes(assembly)
            &&& image.subrange(code_at, code_at + assembly.code@.len()) == assembly.code@
            &&& image.subrange(data_at, image.len() as int) == assembly.data@
        }),
{
    lemma_header_bytes_len(assembly);
    let image = image_bytes(assembly);
    let code_at = assembly.code_info.offset as int;
    let data_at = assembly.data_info.offset as int;
    let code_end = code_at + assembly.code@.len();
    let h = header_bytes(assembly);
    let a = h + zeros(code_at - HEADERS_SIZE);
    let b = a + assembly.code@;
    let c = b + zeros(data_at - code_end);
    assert(image == c + assembly.data@);
    assert(a.len() == code_at);
    assert(c.len() == data_at);
    assert(image.subrange(0, HEADERS_SIZE as int) =~= h);
    assert(image.subrange(code_at, code_end) =~= assembly.code@);
    assert(image.subrange(data_at, image.len() as int) =~= assembly.data@);
}

} // verus!
