use tacet::elf::{
    Arch, FileType, ProgramFlags, ProgramType, SectionType, ABI, PROGRAM_EXECUTE, PROGRAM_READ, PROGRAM_WRITE,
};
use tacet::emit::{code_header, data_header, file_header, file_image, headers, ImageError};
use tacet::{
    Builder, Inst, LoadImmInst, LoadSymbolPtrInst, Program, Register, RegisterType, StringSymbol,
    Symbol, SymbolRef, SyscallInst, SyscallName,
};

fn hello() -> tacet::Assembly {
    let program = Program {
        symbols: vec![Symbol::String(StringSymbol(b"hello, world!\n".to_vec().into_boxed_slice()))],
        insts: vec![
            Inst::LoadImm(LoadImmInst {
                register: Register::Di,
                register_type: RegisterType::QuadWord,
                imm: 1,
            }),
            Inst::LoadSymbol(LoadSymbolPtrInst { register: Register::Si, symbol_ref: SymbolRef(0) }),
            Inst::LoadImm(LoadImmInst {
                register: Register::Dx,
                register_type: RegisterType::QuadWord,
                imm: 14,
            }),
            Inst::Syscall(SyscallInst { name: SyscallName::Write }),
            Inst::LoadImm(LoadImmInst {
                register: Register::Di,
                register_type: RegisterType::QuadWord,
                imm: 0,
            }),
            Inst::Syscall(SyscallInst { name: SyscallName::Exit }),
        ],
    };
    Builder::new().build(&program).unwrap()
}

fn u16_at(b: &[u8], at: usize) -> u16 {
    u16::from_le_bytes(b[at..at + 2].try_into().unwrap())
}

fn u32_at(b: &[u8], at: usize) -> u32 {
    u32::from_le_bytes(b[at..at + 4].try_into().unwrap())
}

fn u64_at(b: &[u8], at: usize) -> u64 {
    u64::from_le_bytes(b[at..at + 8].try_into().unwrap())
}

#[test]
fn file_header_fields() {
    let a = hello();
    let b = file_header(&a).to_bytes();
    assert_eq!(b.len(), 64);
    assert_eq!(&b[..4], &[0x7f, b'E', b'L', b'F']);
    assert_eq!(&b[4..16], &[2, 1, 1, 0, 0, 0, 0, 0, 0, 0, 0, 0]);
    assert_eq!(u16_at(&b, 0x10), 2);
    assert_eq!(u16_at(&b, 0x12), 0x3e);
    assert_eq!(u32_at(&b, 0x14), 1);
    assert_eq!(u64_at(&b, 0x18), 0x401000);
    assert_eq!(u64_at(&b, 0x20), 0x40);
    assert_eq!(u64_at(&b, 0x28), 0);
    assert_eq!(u32_at(&b, 0x30), 0);
    assert_eq!(u16_at(&b, 0x34), 0x40);
    assert_eq!(u16_at(&b, 0x36), 0x38);
    assert_eq!(u16_at(&b, 0x38), 2);
    assert_eq!(u16_at(&b, 0x3a), 0);
    assert_eq!(u16_at(&b, 0x3c), 0);
    assert_eq!(u16_at(&b, 0x3e), 0);
}

#[test]
fn program_headers_describe_segments() {
    let a = hello();
    let code = code_header(&a).to_bytes();
    assert_eq!(code.len(), 0x38);
    assert_eq!(u32_at(&code, 0), 1);
    assert_eq!(u32_at(&code, 4), 5);
    assert_eq!(u64_at(&code, 8), 0x1000);
    assert_eq!(u64_at(&code, 0x10), 0x401000);
    assert_eq!(u64_at(&code, 0x18), 0x401000);
    assert_eq!(u64_at(&code, 0x20), 54);
    assert_eq!(u64_at(&code, 0x28), 54);
    assert_eq!(u64_at(&code, 0x30), 0x1000);
    let data = data_header(&a).to_bytes();
    assert_eq!(u32_at(&data, 0), 1);
    assert_eq!(u32_at(&data, 4), 4);
    assert_eq!(u64_at(&data, 8), 0x2000);
    assert_eq!(u64_at(&data, 0x10), 0x402000);
    assert_eq!(u64_at(&data, 0x18), 0x402000);
    assert_eq!(u64_at(&data, 0x20), 14);
    assert_eq!(u64_at(&data, 0x28), 14);
    assert_eq!(u64_at(&data, 0x30), 0x1000);
}

#[test]
fn headers_are_contiguous() {
    let a = hello();
    let all = headers(&a);
    assert_eq!(all.len(), 0xb0);
    assert_eq!(&all[..0x40], &file_header(&a).to_bytes()[..]);
    assert_eq!(&all[0x40..0x78], &code_header(&a).to_bytes()[..]);
    assert_eq!(&all[0x78..], &data_header(&a).to_bytes()[..]);
}

#[test]
fn header_field_values() {
    let a = hello();
    let h = file_header(&a);
    assert_eq!(h.file_type.value(), 2);
    assert_eq!(h.arch.value(), 0x3e);
    assert_eq!(h.abi.value(), 0);
    assert_eq!(FileType::Hiproc.value(), 0xffff);
    assert_eq!(Arch::AArch64.value(), 0xb7);
    assert_eq!(ABI::Linux.value(), 3);
    assert_eq!(ProgramType::Load.value(), 1);
    assert_eq!(SectionType::Strtab.value(), 3);
    assert_eq!(SectionType::Loos.value(), 0x6000_0000);
    assert!(code_header(&a).type_ == ProgramType::Load);
}

#[test]
fn program_flag_bits() {
    let rx = ProgramFlags { bits: PROGRAM_READ }.union(ProgramFlags { bits: PROGRAM_EXECUTE });
    assert_eq!(rx.bits, 0b101);
    assert!(rx.contains(ProgramFlags { bits: PROGRAM_EXECUTE }));
    assert!(!rx.contains(ProgramFlags { bits: PROGRAM_WRITE }));
    assert_eq!(PROGRAM_WRITE, 0b010);
}

#[test]
fn file_image_places_segments() {
    let a = hello();
    let image = file_image(&a).unwrap();
    assert_eq!(image.len(), 0x2000 + 14);
    assert_eq!(&image[..0xb0], &headers(&a)[..]);
    assert!(image[0xb0..0x1000].iter().all(|&b| b == 0));
    assert_eq!(&image[0x1000..0x1000 + 54], &a.code[..]);
    assert!(image[0x1000 + 54..0x2000].iter().all(|&b| b == 0));
    assert_eq!(&image[0x2000..], b"hello, world!\n");
}

#[test]
fn file_image_rejects_overlong_code() {
    let insts: Vec<Inst> = (0..500)
        .map(|i| {
            Inst::LoadImm(LoadImmInst {
                register: Register::Ax,
                register_type: RegisterType::QuadWord,
                imm: i,
            })
        })
        .collect();
    let a = Builder::new().build(&Program { symbols: vec![], insts }).unwrap();
    assert_eq!(a.code.len(), 5000);
    assert!(matches!(file_image(&a), Err(ImageError::SegmentsOverlap)));
}

#[test]
fn file_image_rejects_unaddressable_data() {
    let mut a = hello();
    a.data_info.offset = u64::MAX;
    assert!(matches!(file_image(&a), Err(ImageError::TooLarge)));
}
