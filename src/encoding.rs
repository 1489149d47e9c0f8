//! The encodings of the IR's instructions, and what a disassembler reads
//! back from them.

use vstd::prelude::*;

use crate::bytes::{
    byte_range, from_le, le_bytes, lemma_byte_range_widths, lemma_from_le_bytes, lemma_le_bytes_len,
    push_le,
};
use crate::instruction::{Instruction, LegacyPrefix, RexPrefix, REX_B, REX_MARKER, REX_W};
use crate::wrap::{Register, RegisterType, SyscallName};

verus! {

/// The REX flags that a register-immediate move needs: W for a 64-bit
/// operand, B for one of the upper eight registers.
pub open spec fn load_imm_flags(register: Register, width: RegisterType) -> nat {
    (if width == RegisterType::QuadWord { 8nat } else { 0nat }) + (if register.ordinal() >= 8 {
        1nat
    } else {
        0nat
    })
}

/// Whether a register-immediate move needs a REX prefix: where a flag is
/// set, and for an 8-bit access to `spl`, `bpl`, `sil` or `dil`, which
/// without one would name `ah`, `ch`, `dh` or `bh`.
pub open spec fn load_imm_needs_rex(register: Register, width: RegisterType) -> bool {
    load_imm_flags(register, width) != 0 || (width == RegisterType::Byte && 4 <= register.ordinal())
}

/// `mov reg, imm`: an operand-size prefix for 16 bits, a REX prefix where
/// one is needed, opcode `0xb0` (8 bits) or `0xb8` plus the register's low
/// three bits, then the immediate truncated to the operand width.
pub open spec fn load_imm_bytes(register: Register, width: RegisterType, imm: u64) -> Seq<u8> {
    let legacy = if width == RegisterType::Word { seq![0x66u8] } else { Seq::empty() };
    let flags = load_imm_flags(register, width);
    let rex = if load_imm_needs_rex(register, width) {
        seq![(0x40 + flags) as u8]
    } else {
        Seq::empty()
    };
    let base: nat = if width == RegisterType::Byte { 0xb0 } else { 0xb8 };
    legacy + rex + seq![(base + register.ordinal() % 8) as u8] + le_bytes(imm as nat, width.size())
}

/// `mov reg, addr`: a 64-bit register-immediate move of a symbol's address.
pub open spec fn load_symbol_bytes(register: Register, address: u64) -> Seq<u8> {
    load_imm_bytes(register, RegisterType::QuadWord, address)
}

/// `mov eax, n` with the call's number, then the `syscall` trap `0x0f 0x05`.
pub open spec fn syscall_bytes(name: SyscallName) -> Seq<u8> {
    load_imm_bytes(Register::Ax, RegisterType::DoubleWord, name.spec_number()) + seq![
        0x0fu8,
        0x05u8,
    ]
}

/// The record of a register-immediate move.
pub fn load_imm_instruction(register: Register, width: RegisterType, imm: u64) -> (r: Instruction)
    ensures
        r.encodable(),
        r.spec_bytes() == load_imm_bytes(register, width, imm),
{
    let mut instruction = Instruction::default();
    let mut flags: u8 = 0;
    if width == RegisterType::QuadWord {
        assert(0u8 | 8u8 == 8u8) by (bit_vector);
        flags = flags | REX_W;
    }
    if register.requires_extension() {
        assert(0u8 | 1u8 == 1u8 && 8u8 | 1u8 == 9u8) by (bit_vector);
        flags = flags | REX_B;
    }
    assert(flags as nat == load_imm_flags(register, width));
    if width == RegisterType::Word {
        instruction.legacy_prefix.push(LegacyPrefix::OpSize.byte());
    }
    if flags != 0 || (width == RegisterType::Byte && register.number() >= 4) {
        instruction.rex_prefix = RexPrefix::from_bits(flags);
    }
    let base: u8 = if width == RegisterType::Byte { 0xb0 } else { 0xb8 };
    instruction.opcode = base + register.id8();
    push_le(&mut instruction.imm, imm, width.byte_size());
    proof {
        if load_imm_needs_rex(register, width) {
            assert(flags | REX_MARKER == 0x40 + flags) by (bit_vector)
                requires
                    flags < 16,
            ;
        }
        let legacy = if width == RegisterType::Word { seq![0x66u8] } else { Seq::empty() };
        assert(instruction.legacy_prefix@ =~= legacy);
        assert(instruction.imm@ =~= le_bytes(imm as nat, width.size()));
        assert(instruction.spec_bytes() =~= load_imm_bytes(register, width, imm));
    }
    instruction
}


/// Whether a register-immediate move begins with the operand-size prefix.
pub open spec fn has_opsize(b: Seq<u8>) -> bool {
    b.len() > 0 && b[0] == 0x66
}

/// Where a REX prefix would stand: after the operand-size prefix, if any.
pub open spec fn rex_position(b: Seq<u8>) -> int {
    if has_opsize(b) { 1 } else { 0 }
}

/// Whether a REX prefix (`0x40` to `0x4f`) is present.
pub open spec fn has_rex(b: Seq<u8>) -> bool {
    let i = rex_position(b);
    i < b.len() && 0x40 <= b[i] && b[i] <= 0x4f
}

/// The REX flags (W, R, X, B from high to low), zero where no REX prefix is present.
pub open spec fn rex_flags(b: Seq<u8>) -> nat {
    if has_rex(b) { (b[rex_position(b)] - 0x40) as nat } else { 0 }
}

/// Where the opcode stands: after the prefixes.
pub open spec fn opcode_position(b: Seq<u8>) -> int {
    rex_position(b) + if has_rex(b) { 1int } else { 0int }
}

/// How a disassembler reads a register-immediate move (`b0+r ib` or
/// `b8+r iw/id/io`): the register's number, the operand width and the value
/// moved; `None` where the bytes are not exactly one such instruction, or
/// where they move into `ah`, `ch`, `dh` or `bh` (`b4` to `b7` with no REX
/// prefix), which are not among the sixteen registers.
pub open spec fn decode_mov_imm(b: Seq<u8>) -> Option<(nat, RegisterType, nat)> {
    let j = opcode_position(b);
    if j >= b.len() {
        None
    } else {
        let op = b[j];
        let flags = rex_flags(b);
        let width = if 0xb0 <= op && op <= 0xb3 {
            Some(RegisterType::Byte)
        } else if 0xb4 <= op && op <= 0xb7 {
            if has_rex(b) { Some(RegisterType::Byte) } else { None }
        } else if 0xb8 <= op && op <= 0xbf {
            if (flags / 8) % 2 == 1 {
                Some(RegisterType::QuadWord)
            } else if has_opsize(b) {
                Some(RegisterType::Word)
            } else {
                Some(RegisterType::DoubleWord)
            }
        } else {
            None
        };
        match width {
            Some(w) => if b.len() == j + 1 + w.size() {
                Some(((flags % 2) * 8 + (op % 8) as nat, w, from_le(b.subrange(j + 1, b.len() as int))))
            } else {
                None
            },
            None => None,
        }
    }
}

proof fn lemma_load_imm_layout(register: Register, width: RegisterType, imm: u64)
    ensures
        ({
            let b = load_imm_bytes(register, width, imm);
            let flags = load_imm_flags(register, width);
            let j = opcode_position(b);
            &&& has_opsize(b) == (width == RegisterType::Word)
            &&& has_rex(b) == load_imm_needs_rex(register, width)
            &&& rex_flags(b) == flags
            &&& j < b.len()
            &&& b[j] == (if width == RegisterType::Byte { 0xb0nat } else { 0xb8nat })
                + register.ordinal() % 8
            &&& b.len() == j + 1 + width.size()
            &&& b.subrange(j + 1, b.len() as int) == le_bytes(imm as nat, width.size())
        }),
{
    let b = load_imm_bytes(register, width, imm);
    let flags = load_imm_flags(register, width);
    let legacy = if width == RegisterType::Word { seq![0x66u8] } else { Seq::<u8>::empty() };
    let rex = if load_imm_needs_rex(register, width) {
        seq![(0x40 + flags) as u8]
    } else {
        Seq::<u8>::empty()
    };
    let base: nat = if width == RegisterType::Byte { 0xb0 } else { 0xb8 };
    let op = (base + register.ordinal() % 8) as u8;
    let imm_bytes = le_bytes(imm as nat, width.size());
    lemma_le_bytes_len(imm as nat, width.size());
    assert(b == legacy + rex + seq![op] + imm_bytes);
    let j: int = (legacy.len() + rex.len()) as int;
    assert(b[j] == op);
    assert(b.subrange(j + 1, b.len() as int) =~= imm_bytes);
}

/// A register-immediate move reads back as a move of the immediate,
/// truncated to the operand width, into the same register at the same width.
pub proof fn lemma_load_imm_round_trip(register: Register, width: RegisterType, imm: u64)
    ensures
        decode_mov_imm(load_imm_bytes(register, width, imm)) == Some(
            (register.ordinal(), width, imm as nat % byte_range(width.size())),
        ),
{
    lemma_load_imm_layout(register, width, imm);
    lemma_from_le_bytes(imm as nat, width.size());
}

/// A symbol load reads back as a 64-bit move of the symbol's address into
/// the same register.
pub proof fn lemma_load_symbol_round_trip(register: Register, address: u64)
    ensures
        decode_mov_imm(load_symbol_bytes(register, address)) == Some(
            (register.ordinal(), RegisterType::QuadWord, address as nat),
        ),
{
    lemma_load_imm_round_trip(register, RegisterType::QuadWord, address);
    lemma_byte_range_widths();
    vstd::arithmetic::div_mod::lemma_small_mod(address as nat, byte_range(8));
}

/// The REX B bit of a register-immediate move is set exactly for the upper
/// eight registers, and the opcode's low three bits are the register's. An
/// 8-bit move carries a REX prefix exactly for registers 4 to 15, so that
/// registers 4 to 7 name `spl`, `bpl`, `sil` and `dil`.
pub proof fn lemma_load_imm_register_bits(register: Register, width: RegisterType, imm: u64)
    ensures
        ({
            let b = load_imm_bytes(register, width, imm);
            &&& rex_flags(b) % 2 == 1 <==> register.ordinal() >= 8
            &&& b[opcode_position(b)] % 8 == register.ordinal() % 8
            &&& width == RegisterType::Byte ==> (has_rex(b) <==> register.ordinal() >= 4)
        }),
{
    lemma_load_imm_layout(register, width, imm);
}

/// The same for a symbol load.
pub proof fn lemma_load_symbol_register_bits(register: Register, address: u64)
    ensures
        ({
            let b = load_symbol_bytes(register, address);
            &&& rex_flags(b) % 2 == 1 <==> register.ordinal() >= 8
            &&& b[opcode_position(b)] % 8 == register.ordinal() % 8
        }),
{
    lemma_load_imm_register_bits(register, RegisterType::QuadWord, address);
}

/// A system call loads its number into the accumulator (`eax`, one of the
/// lower eight, so B is clear) and then traps.
pub proof fn lemma_syscall_layout(name: SyscallName)
    ensures
        ({
            let b = syscall_bytes(name);
            let m = load_imm_bytes(Register::Ax, RegisterType::DoubleWord, name.spec_number());
            &&& b == m + seq![0x0fu8, 0x05u8]
            &&& decode_mov_imm(m) == Some((0nat, RegisterType::DoubleWord, name.spec_number() as nat))
            &&& rex_flags(m) % 2 == 0
            &&& m[opcode_position(m)] % 8 == 0
        }),
{
    lemma_load_imm_round_trip(Register::Ax, RegisterType::DoubleWord, name.spec_number());
    lemma_load_imm_register_bits(Register::Ax, RegisterType::DoubleWord, name.spec_number());
    lemma_byte_range_widths();
    vstd::arithmetic::div_mod::lemma_small_mod(name.spec_number() as nat, byte_range(4));
}

} // verus!
