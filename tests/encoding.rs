use tacet::encoding::load_imm_instruction;
use tacet::instruction::{Escape, LegacyPrefix, ModRMSIB, RexPrefix, REX_B, REX_W};
use tacet::{EncodeError, Instruction, Register, RegisterType};

const REGISTERS: [Register; 16] = [
    Register::Ax,
    Register::Cx,
    Register::Dx,
    Register::Bx,
    Register::Sp,
    Register::Bp,
    Register::Si,
    Register::Di,
    Register::R8,
    Register::R9,
    Register::R10,
    Register::R11,
    Register::R12,
    Register::R13,
    Register::R14,
    Register::R15,
];

const WIDTHS: [RegisterType; 4] = [
    RegisterType::Byte,
    RegisterType::Word,
    RegisterType::DoubleWord,
    RegisterType::QuadWord,
];

fn mov(register: Register, width: RegisterType, imm: u64) -> Vec<u8> {
    load_imm_instruction(register, width, imm).to_bytes().unwrap()
}

/// Reads a register-immediate move back: register number, width, value.
fn decode(b: &[u8]) -> Option<(u8, RegisterType, u64)> {
    let mut i = 0;
    let opsize = b.first() == Some(&0x66);
    if opsize {
        i += 1;
    }
    let mut rex = 0;
    let has_rex = i < b.len() && (0x40..=0x4f).contains(&b[i]);
    if has_rex {
        rex = b[i] & 0x0f;
        i += 1;
    }
    let op = *b.get(i)?;
    let width = match op {
        0xb0..=0xb3 => RegisterType::Byte,
        // without a REX prefix these name ah, ch, dh and bh
        0xb4..=0xb7 if !has_rex => return None,
        0xb4..=0xb7 => RegisterType::Byte,
        0xb8..=0xbf if rex & 8 != 0 => RegisterType::QuadWord,
        0xb8..=0xbf if opsize => RegisterType::Word,
        0xb8..=0xbf => RegisterType::DoubleWord,
        _ => return None,
    };
    let n = match width {
        RegisterType::Byte => 1,
        RegisterType::Word => 2,
        RegisterType::DoubleWord => 4,
        RegisterType::QuadWord => 8,
    };
    let imm = &b[i + 1..];
    if imm.len() != n {
        return None;
    }
    let mut value = [0u8; 8];
    value[..n].copy_from_slice(imm);
    Some(((rex & 1) * 8 + op % 8, width, u64::from_le_bytes(value)))
}

#[test]
fn register_helpers() {
    for (i, r) in REGISTERS.iter().enumerate() {
        assert_eq!(r.number() as usize, i);
        assert_eq!(r.requires_extension(), i >= 8);
        assert_eq!(r.id8() as usize, i % 8);
    }
}

#[test]
fn load_imm_byte_encodings() {
    assert_eq!(mov(Register::Ax, RegisterType::Byte, 0x1234), vec![0xb0, 0x34]);
    assert_eq!(mov(Register::R9, RegisterType::Byte, 0xff), vec![0x41, 0xb1, 0xff]);
}

#[test]
fn load_imm_byte_low_registers_of_upper_half() {
    assert_eq!(mov(Register::Si, RegisterType::Byte, 0x1ff), vec![0x40, 0xb6, 0xff]);
    assert_eq!(mov(Register::Sp, RegisterType::Byte, 1), vec![0x40, 0xb4, 0x01]);
    assert_eq!(mov(Register::Bp, RegisterType::Byte, 2), vec![0x40, 0xb5, 0x02]);
    assert_eq!(mov(Register::Di, RegisterType::Byte, 3), vec![0x40, 0xb7, 0x03]);
    assert_eq!(mov(Register::Bx, RegisterType::Byte, 4), vec![0xb3, 0x04]);
    assert_eq!(mov(Register::R12, RegisterType::Byte, 5), vec![0x41, 0xb4, 0x05]);
}

#[test]
fn byte_moves_carry_rex_from_register_four() {
    for r in REGISTERS {
        let b = mov(r, RegisterType::Byte, 0);
        let expected_rex = if r.number() >= 8 {
            Some(0x41)
        } else if r.number() >= 4 {
            Some(0x40)
        } else {
            None
        };
        match expected_rex {
            Some(rex) => assert_eq!(b, vec![rex, 0xb0 + r.number() % 8, 0]),
            None => assert_eq!(b, vec![0xb0 + r.number(), 0]),
        }
    }
}

#[test]
fn high_byte_registers_are_not_read_as_sixteen() {
    assert!(decode(&[0xb6, 0xff]).is_none());
    assert_eq!(decode(&[0x40, 0xb6, 0xff]).map(|d| d.0), Some(6));
}

#[test]
fn load_imm_word_encodings() {
    assert_eq!(mov(Register::Cx, RegisterType::Word, 0x1234), vec![0x66, 0xb9, 0x34, 0x12]);
    assert_eq!(
        mov(Register::R10, RegisterType::Word, 0xabcd),
        vec![0x66, 0x41, 0xba, 0xcd, 0xab]
    );
}

#[test]
fn load_imm_double_word_encodings() {
    assert_eq!(
        mov(Register::Bx, RegisterType::DoubleWord, 0xdead_beef),
        vec![0xbb, 0xef, 0xbe, 0xad, 0xde]
    );
    assert_eq!(
        mov(Register::R15, RegisterType::DoubleWord, 0x1_0000_0001),
        vec![0x41, 0xbf, 0x01, 0, 0, 0]
    );
}

#[test]
fn load_imm_quad_word_encodings() {
    assert_eq!(
        mov(Register::R8, RegisterType::QuadWord, 0x0102_0304_0506_0708),
        vec![0x49, 0xb8, 0x08, 0x07, 0x06, 0x05, 0x04, 0x03, 0x02, 0x01]
    );
    assert_eq!(
        mov(Register::Sp, RegisterType::QuadWord, u64::MAX),
        vec![0x48, 0xbc, 0xff, 0xff, 0xff, 0xff, 0xff, 0xff, 0xff, 0xff]
    );
}

#[test]
fn extension_bit_follows_register() {
    for r in REGISTERS {
        for w in WIDTHS {
            let b = mov(r, w, 0x5a);
            let i = if w == RegisterType::Word { 1 } else { 0 };
            let has_rex = (0x40..=0x4f).contains(&b[i]);
            let rex_b = has_rex && b[i] & 1 == 1;
            assert_eq!(rex_b, r.number() >= 8);
            let op = if has_rex { b[i + 1] } else { b[i] };
            assert_eq!(op % 8, r.number() % 8);
        }
    }
}

#[test]
fn load_imm_round_trip() {
    let values = [0u64, 1, 0x7f, 0x80, 0xffff, 0x1_0000, 0xdead_beef, u64::MAX];
    for (k, r) in REGISTERS.iter().enumerate() {
        for w in WIDTHS {
            for v in values {
                let mask = match w {
                    RegisterType::Byte => 0xff,
                    RegisterType::Word => 0xffff,
                    RegisterType::DoubleWord => 0xffff_ffff,
                    RegisterType::QuadWord => u64::MAX,
                };
                let (reg, width, value) = decode(&mov(*r, w, v)).unwrap();
                assert_eq!(reg as usize, k);
                assert!(width == w);
                assert_eq!(value, v & mask);
            }
        }
    }
}

#[test]
fn instruction_with_register_modrm() {
    let mut inst = Instruction::default();
    inst.rex_prefix = RexPrefix::from_bits(REX_W);
    inst.opcode = 0xc7;
    inst.modrm_sib = Some(ModRMSIB { mod_: 0b11, reg: 0, rm: 0, scale: 9, idx: 9, base: 9 });
    inst.imm = vec![0x3c, 0, 0, 0];
    assert_eq!(inst.to_bytes(), Ok(vec![0x48, 0xc7, 0xc0, 0x3c, 0, 0, 0]));
}

#[test]
fn instruction_with_sib() {
    let mut inst = Instruction::default();
    inst.legacy_prefix = vec![LegacyPrefix::Lock.byte()];
    inst.rex_prefix = RexPrefix::from_bits(REX_W | REX_B);
    inst.escape = Some(Escape::X38);
    inst.opcode = 0x01;
    inst.modrm_sib = Some(ModRMSIB { mod_: 0b01, reg: 0b010, rm: 0b100, scale: 2, idx: 1, base: 3 });
    inst.disp = vec![0x10];
    inst.imm = vec![0xaa, 0xbb];
    assert_eq!(
        inst.to_bytes(),
        Ok(vec![0xf0, 0x49, 0x0f, 0x38, 0x01, 0x54, 0x8b, 0x10, 0xaa, 0xbb])
    );
}

#[test]
fn instruction_escapes() {
    let cases = [
        (Escape::Secondary, vec![0x0f, 0x05]),
        (Escape::Now3D, vec![0x0f, 0x0f, 0x05]),
        (Escape::X38, vec![0x0f, 0x38, 0x05]),
        (Escape::X3a, vec![0x0f, 0x3a, 0x05]),
    ];
    for (escape, expected) in cases {
        let mut inst = Instruction::default();
        inst.escape = Some(escape);
        inst.opcode = 0x05;
        assert_eq!(inst.to_bytes(), Ok(expected));
    }
}

#[test]
fn default_instruction_is_one_zero_byte() {
    assert_eq!(Instruction::default().to_bytes(), Ok(vec![0x00]));
}

#[test]
fn modrm_fields_out_of_range() {
    let bad = [
        ModRMSIB { mod_: 4, reg: 0, rm: 0, scale: 0, idx: 0, base: 0 },
        ModRMSIB { mod_: 3, reg: 8, rm: 0, scale: 0, idx: 0, base: 0 },
        ModRMSIB { mod_: 3, reg: 0, rm: 8, scale: 0, idx: 0, base: 0 },
        ModRMSIB { mod_: 0, reg: 0, rm: 4, scale: 4, idx: 0, base: 0 },
        ModRMSIB { mod_: 0, reg: 0, rm: 4, scale: 0, idx: 8, base: 0 },
        ModRMSIB { mod_: 2, reg: 0, rm: 4, scale: 0, idx: 0, base: 8 },
    ];
    for m in bad {
        let mut inst = Instruction::default();
        inst.modrm_sib = Some(m);
        assert_eq!(inst.to_bytes(), Err(EncodeError::FieldOutOfRange));
    }
}

#[test]
fn unused_sib_fields_are_not_checked() {
    let mut inst = Instruction::default();
    inst.opcode = 0x8b;
    inst.modrm_sib = Some(ModRMSIB { mod_: 0, reg: 1, rm: 3, scale: 200, idx: 200, base: 200 });
    assert_eq!(inst.to_bytes(), Ok(vec![0x8b, 0x0b]));
}

#[test]
fn rex_prefix_bits() {
    assert!(RexPrefix::from_bits(16).is_none());
    let w = RexPrefix::from_bits(REX_W).unwrap();
    let b = RexPrefix::from_bits(REX_B).unwrap();
    assert_eq!(w.union(b).bits(), 0b1001);
    assert_eq!(LegacyPrefix::OpSize.byte(), 0x66);
    assert_eq!(LegacyPrefix::AddrSize.byte(), 0x67);
    assert_eq!(LegacyPrefix::Repe.byte(), 0xf3);
    assert_eq!(LegacyPrefix::Repne.byte(), 0xf2);
}
