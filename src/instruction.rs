//! The general shape of an x86-64 instruction, and its serialisation:
//! `[legacy prefixes][REX][escape][opcode][ModRM [SIB]][displacement][immediate]`.

use vstd::prelude::*;

verus! {

/// Bit of the REX prefix that selects a 64-bit operand.
pub const REX_W: u8 = 0b1000;
/// Bit of the REX prefix that extends the ModRM `reg` field.
pub const REX_R: u8 = 0b0100;
/// Bit of the REX prefix that extends the SIB `index` field.
pub const REX_X: u8 = 0b0010;
/// Bit of the REX prefix that extends the ModRM `rm` field, the SIB `base`
/// field, or the register in the opcode.
pub const REX_B: u8 = 0b0001;
/// A REX prefix with no bit set.
pub const REX_SOLO: u8 = 0b0000;

/// The fixed high nibble of every REX prefix byte.
pub const REX_MARKER: u8 = 0b0100_0000;

/// The four flag bits of a REX prefix.
#[derive(Clone, Copy)]
pub struct RexPrefix {
    bits: u8,
}

impl View for RexPrefix {
    type V = u8;

    closed spec fn view(&self) -> u8 {
        self.bits
    }
}

impl RexPrefix {
    #[verifier::type_invariant]
    spec fn flags_only(self) -> bool {
        self.bits < 16
    }

    /// The prefix with exactly the given flags; `None` where `bits` sets a bit
    /// that is not one of the four flags.
    pub fn from_bits(bits: u8) -> (r: Option<RexPrefix>)
        ensures
            r is Some <==> bits < 16,
            r matches Some(p) ==> p@ == bits,
    {
        if bits < 16 {
            Some(RexPrefix { bits })
        } else {
            None
        }
    }

    /// The flags of both prefixes.
    pub fn union(self, other: RexPrefix) -> (r: RexPrefix)
        ensures
            r@ == self@ | other@,
    {
        proof {
            use_type_invariant(&self);
            use_type_invariant(&other);
        }
        let a = self.bits;
        let b = other.bits;
        let bits = a | b;
        assert(bits < 16) by (bit_vector)
            requires
                bits == a | b,
                a < 16,
                b < 16,
        ;
        RexPrefix { bits }
    }

    /// The flag bits, in the low nibble.
    pub fn bits(&self) -> (r: u8)
        ensures
            r == self@,
            r < 16,
    {
        proof {
            use_type_invariant(self);
        }
        self.bits
    }
}

/// The legacy prefixes.
#[derive(Clone, Copy, PartialEq, Eq, Structural)]
pub enum LegacyPrefix {
    OpSize,
    AddrSize,
    Lock,
    Repe,
    Repne,
}

impl LegacyPrefix {
    pub open spec fn spec_byte(self) -> u8 {
        match self {
            LegacyPrefix::OpSize => 0x66,
            LegacyPrefix::AddrSize => 0x67,
            LegacyPrefix::Lock => 0xf0,
            LegacyPrefix::Repe => 0xf3,
            LegacyPrefix::Repne => 0xf2,
        }
    }

    /// The prefix's byte.
    pub fn byte(self) -> (r: u8)
        ensures
            r == self.spec_byte(),
    {
        match self {
            LegacyPrefix::OpSize => 0x66,
            LegacyPrefix::AddrSize => 0x67,
            LegacyPrefix::Lock => 0xf0,
            LegacyPrefix::Repe => 0xf3,
            LegacyPrefix::Repne => 0xf2,
        }
    }
}

/// The opcode maps beyond the primary one; each is entered through `0x0f`.
#[derive(Clone, Copy, PartialEq, Eq, Structural)]
pub enum Escape {
    /// The two-byte map: `0x0f` alone.
    Secondary,
    /// 3DNow!: `0x0f 0x0f`.
    Now3D,
    /// The three-byte map `0x0f 0x38`.
    X38,
    /// The three-byte map `0x0f 0x3a`.
    X3a,
}

impl Escape {
    /// The bytes that select the map.
    pub open spec fn spec_bytes(self) -> Seq<u8> {
        match self {
            Escape::Secondary => seq![0x0fu8],
            Escape::Now3D => seq![0x0fu8, 0x0fu8],
            Escape::X38 => seq![0x0fu8, 0x38u8],
            Escape::X3a => seq![0x0fu8, 0x3au8],
        }
    }
}

/// The addressing fields: a ModRM byte and, where it asks for one, a SIB byte.
#[derive(Clone, Copy)]
pub struct ModRMSIB {
    pub mod_: u8,
    pub reg: u8,
    pub rm: u8,
    pub scale: u8,
    pub idx: u8,
    pub base: u8,
}

impl ModRMSIB {
    /// A SIB byte follows where the operand is in memory and `rm` is `0b100`.
    pub open spec fn has_sib(self) -> bool {
        self.mod_ != 0b11 && self.rm == 0b100
    }

    /// Every field that is emitted fits its bit width.
    pub open spec fn fields_fit(self) -> bool {
        &&& self.mod_ <= 0b11
        &&& self.reg <= 0b111
        &&& self.rm <= 0b111
        &&& self.has_sib() ==> {
            &&& self.scale <= 0b11
            &&& self.idx <= 0b111
            &&& self.base <= 0b111
        }
    }

    pub open spec fn spec_bytes(self) -> Seq<u8> {
        let modrm = (self.mod_ * 64 + self.reg * 8 + self.rm) as u8;
        let sib = (self.scale * 64 + self.idx * 8 + self.base) as u8;
        if self.has_sib() {
            seq![modrm, sib]
        } else {
            seq![modrm]
        }
    }
}

/// Packs a two-bit and two three-bit fields into one byte.
fn pack_fields(hi: u8, mid: u8, lo: u8) -> (r: u8)
    requires
        hi <= 0b11,
        mid <= 0b111,
        lo <= 0b111,
    ensures
        r == hi * 64 + mid * 8 + lo,
{
    let r = (hi << 6) | (mid << 3) | lo;
    assert(r == hi * 64 + mid * 8 + lo) by (bit_vector)
        requires
            r == (hi << 6) | (mid << 3) | lo,
            hi <= 0b11,
            mid <= 0b111,
            lo <= 0b111,
    ;
    r
}

/// Why an instruction record could not be encoded.
#[derive(Clone, Copy, PartialEq, Eq, Structural, Debug)]
pub enum EncodeError {
    /// A ModRM or SIB field does not fit its bit width.
    FieldOutOfRange,
}

/// One instruction, field by field, before serialisation.
pub struct Instruction {
    pub legacy_prefix: Vec<u8>,
    pub rex_prefix: Option<RexPrefix>,
    pub escape: Option<Escape>,
    pub opcode: u8,
    pub modrm_sib: Option<ModRMSIB>,
    pub disp: Vec<u8>,
    pub imm: Vec<u8>,
}

impl Default for Instruction {
    /// An instruction with opcode zero and every optional part absent.
    fn default() -> (r: Instruction)
        ensures
            r.legacy_prefix@ == Seq::<u8>::empty(),
            r.rex_prefix is None,
            r.escape is None,
            r.opcode == 0,
            r.modrm_sib is None,
            r.disp@ == Seq::<u8>::empty(),
            r.imm@ == Seq::<u8>::empty(),
    {
        Instruction {
            legacy_prefix: Vec::with_capacity(3),
            rex_prefix: None,
            escape: None,
            opcode: 0,
            modrm_sib: None,
            disp: Vec::with_capacity(8),
            imm: Vec::with_capacity(8),
        }
    }
}

impl Instruction {
    /// Whether the record can be encoded: its addressing fields fit.
    pub open spec fn encodable(&self) -> bool {
        match self.modrm_sib {
            Some(m) => m.fields_fit(),
            None => true,
        }
    }

    /// The record's bytes, part by part in the architecture's order.
    pub open spec fn spec_bytes(&self) -> Seq<u8> {
        let rex = match self.rex_prefix {
            Some(p) => seq![p@ | REX_MARKER],
            None => Seq::empty(),
        };
        let escape = match self.escape {
            Some(e) => e.spec_bytes(),
            None => Seq::empty(),
        };
        let addressing = match self.modrm_sib {
            Some(m) => m.spec_bytes(),
            None => Seq::empty(),
        };
        self.legacy_prefix@ + rex + escape + seq![self.opcode] + addressing + self.disp@
            + self.imm@
    }

    /// Serialises the record; fails where a ModRM or SIB field does not fit.
    pub fn to_bytes(self) -> (r: Result<Vec<u8>, EncodeError>)
        ensures
            self.encodable() ==> (r matches Ok(b) && b@ == self.spec_bytes()),
            !self.encodable() ==> r == Err::<Vec<u8>, EncodeError>(EncodeError::FieldOutOfRange),
    {
        let ghost whole = self.spec_bytes();
        let ghost legacy_view = self.legacy_prefix@;
        let ghost rex = match self.rex_prefix {
            Some(p) => seq![p@ | REX_MARKER],
            None => Seq::empty(),
        };
        let ghost escape_bytes = match self.escape {
            Some(e) => e.spec_bytes(),
            None => Seq::empty(),
        };
        let ghost addressing = match self.modrm_sib {
            Some(m) => m.spec_bytes(),
            None => Seq::empty(),
        };
        let mut legacy = self.legacy_prefix;
        let mut disp = self.disp;
        let mut imm = self.imm;
        let mut bytes: Vec<u8> = Vec::with_capacity(15);
        bytes.append(&mut legacy);
        let ghost after_legacy = bytes@;
        if let Some(rex_prefix) = self.rex_prefix {
            bytes.push(rex_prefix.bits() | REX_MARKER);
        }
        let ghost after_rex = bytes@;
        if let Some(escape) = self.escape {
            bytes.push(0x0f);
            match escape {
                Escape::Secondary => {},
                Escape::Now3D => bytes.push(0x0f),
                Escape::X38 => bytes.push(0x38),
                Escape::X3a => bytes.push(0x3a),
            }
        }
        let ghost after_escape = bytes@;
        bytes.push(self.opcode);
        let ghost after_opcode = bytes@;
        if let Some(m) = self.modrm_sib {
            if m.mod_ > 0b11 || m.reg > 0b111 || m.rm > 0b111 {
                return Err(EncodeError::FieldOutOfRange);
            }
            let modrm = pack_fields(m.mod_, m.reg, m.rm);
            if m.mod_ != 0b11 && m.rm == 0b100 {
                if m.scale > 0b11 || m.idx > 0b111 || m.base > 0b111 {
                    return Err(EncodeError::FieldOutOfRange);
                }
                let sib = pack_fields(m.scale, m.idx, m.base);
                bytes.push(modrm);
                bytes.push(sib);
            } else {
                bytes.push(modrm);
            }
        }
        let ghost after_addressing = bytes@;
        bytes.append(&mut disp);
        bytes.append(&mut imm);
        proof {
            assert(after_legacy == legacy_view);
            assert(after_rex =~= after_legacy + rex);
            assert(after_escape =~= after_rex + escape_bytes);
            assert(after_opcode =~= after_escape + seq![self.opcode]);
            assert(after_addressing =~= after_opcode + addressing);
            assert(bytes@ =~= whole);
        }
        Ok(bytes)
    }
}

} // verus!
