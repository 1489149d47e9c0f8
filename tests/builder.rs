use tacet::assembly::{CODE_ADDRESS, CODE_OFFSET, DATA_ADDRESS, DATA_OFFSET};
use tacet::{
    BuildError, Builder, Inst, LoadImmInst, LoadSymbolPtrInst, Program, Register, RegisterType,
    StringSymbol, Symbol, SymbolRef, SyscallInst, SyscallName,
};

fn string(bytes: &[u8]) -> Symbol {
    Symbol::String(StringSymbol(bytes.to_vec().into_boxed_slice()))
}

fn load_imm(register: Register, register_type: RegisterType, imm: u64) -> Inst {
    Inst::LoadImm(LoadImmInst { register, register_type, imm })
}

fn load_symbol(register: Register, index: usize) -> Inst {
    Inst::LoadSymbol(LoadSymbolPtrInst { register, symbol_ref: SymbolRef(index) })
}

fn syscall(name: SyscallName) -> Inst {
    Inst::Syscall(SyscallInst { name })
}

fn hello_world() -> Program {
    Program {
        symbols: vec![string(b"hello, world!\n")],
        insts: vec![
            load_imm(Register::Di, RegisterType::QuadWord, 1),
            load_symbol(Register::Si, 0),
            load_imm(Register::Dx, RegisterType::QuadWord, 14),
            syscall(SyscallName::Write),
            load_imm(Register::Di, RegisterType::QuadWord, 0),
            syscall(SyscallName::Exit),
        ],
    }
}

#[test]
fn hello_world_layout() {
    let assembly = Builder::new().build(&hello_world()).unwrap();
    let expected_code: Vec<u8> = vec![
        0x48, 0xbf, 1, 0, 0, 0, 0, 0, 0, 0, // mov rdi, 1
        0x48, 0xbe, 0x00, 0x20, 0x40, 0, 0, 0, 0, 0, // mov rsi, 0x402000
        0x48, 0xba, 14, 0, 0, 0, 0, 0, 0, 0, // mov rdx, 14
        0xb8, 0x01, 0, 0, 0, 0x0f, 0x05, // mov eax, 1; syscall
        0x48, 0xbf, 0, 0, 0, 0, 0, 0, 0, 0, // mov rdi, 0
        0xb8, 0x3c, 0, 0, 0, 0x0f, 0x05, // mov eax, 60; syscall
    ];
    assert_eq!(assembly.code, expected_code);
    assert_eq!(assembly.data, b"hello, world!\n".to_vec());
    assert_eq!(assembly.code_info.memory_size, 54);
    assert_eq!(assembly.data_info.memory_size, 14);
}

#[test]
fn segments_are_page_aligned_and_sized() {
    let assembly = Builder::new().build(&hello_world()).unwrap();
    for (info, len) in [
        (assembly.code_info, assembly.code.len()),
        (assembly.data_info, assembly.data.len()),
    ] {
        assert_eq!(info.offset % 0x1000, 0);
        assert_eq!(info.virtual_address % 0x1000, 0);
        assert_eq!(info.memory_size, len as u64);
    }
    assert_eq!(assembly.code_info.offset, CODE_OFFSET);
    assert_eq!(assembly.code_info.virtual_address, CODE_ADDRESS);
    assert_eq!(assembly.code_info.physical_address, CODE_ADDRESS);
    assert_eq!(assembly.data_info.offset, DATA_OFFSET);
    assert_eq!(assembly.data_info.virtual_address, DATA_ADDRESS);
    assert_eq!(assembly.data_info.physical_address, DATA_ADDRESS);
}

#[test]
fn symbol_addresses_follow_declaration_order() {
    let program = Program {
        symbols: vec![string(b"abc"), string(b""), string(b"hello"), string(b"z")],
        insts: vec![
            load_symbol(Register::Ax, 0),
            load_symbol(Register::Ax, 1),
            load_symbol(Register::Ax, 2),
            load_symbol(Register::Ax, 3),
        ],
    };
    let assembly = Builder::new().build(&program).unwrap();
    assert_eq!(assembly.data, b"abchelloz".to_vec());
    let addresses: Vec<u64> = assembly
        .code
        .chunks(10)
        .map(|c| {
            assert_eq!(&c[..2], &[0x48, 0xb8]);
            u64::from_le_bytes(c[2..].try_into().unwrap())
        })
        .collect();
    assert_eq!(addresses, vec![0x402000, 0x402003, 0x402003, 0x402008]);
    assert!(addresses.windows(2).all(|w| w[0] <= w[1]));
}

#[test]
fn undefined_symbol_fails() {
    let program = Program {
        symbols: vec![string(b"only")],
        insts: vec![load_symbol(Register::Si, 0), load_symbol(Register::Di, 1)],
    };
    let result = Builder::new().build(&program);
    assert!(matches!(result, Err(BuildError::UndefinedSymbol(1))));
}

#[test]
fn symbol_reference_without_symbols_fails() {
    let program = Program {
        symbols: vec![],
        insts: vec![load_imm(Register::Ax, RegisterType::Byte, 1), load_symbol(Register::Si, 0)],
    };
    let result = Builder::new().build(&program);
    assert!(matches!(result, Err(BuildError::UndefinedSymbol(0))));
}

#[test]
fn first_undefined_reference_is_reported() {
    let program = Program {
        symbols: vec![],
        insts: vec![load_symbol(Register::Si, 7), load_symbol(Register::Si, 3)],
    };
    let result = Builder::new().build(&program);
    assert!(matches!(result, Err(BuildError::UndefinedSymbol(7))));
}

#[test]
fn empty_program() {
    let assembly = Builder::new().build(&Program { symbols: vec![], insts: vec![] }).unwrap();
    assert!(assembly.code.is_empty());
    assert!(assembly.data.is_empty());
    assert_eq!(assembly.code_info.memory_size, 0);
    assert_eq!(assembly.data_info.memory_size, 0);
}

#[test]
fn byte_load_into_si_uses_sil() {
    let program = Program {
        symbols: vec![],
        insts: vec![load_imm(Register::Si, RegisterType::Byte, 0x1ff)],
    };
    let assembly = Builder::new().build(&program).unwrap();
    assert_eq!(assembly.code, vec![0x40, 0xb6, 0xff]);
}
