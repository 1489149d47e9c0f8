//! Lays a program out: its symbols into the data segment, each at a resolved
//! address, then its instructions, encoded, into the code segment.

use vstd::prelude::*;

use crate::assembly::{code_segment, data_segment, Assembly, SegmentInfo, CODE_ADDRESS, CODE_OFFSET, DATA_ADDRESS, DATA_OFFSET};
use crate::encoding::{load_imm_bytes, load_imm_instruction, load_symbol_bytes, syscall_bytes};
use crate::instruction::{Escape, Instruction};
use crate::wrap::{Inst, LoadImmInst, LoadSymbolPtrInst, Program, Register, RegisterType, StringSymbol, Symbol, SyscallInst};

verus! {

/// Why a program could not be laid out.
#[derive(Clone, Copy, PartialEq, Eq, Structural, Debug)]
pub enum BuildError {
    /// The data segment reaches past the end of the 64-bit address space.
    SegmentTooLarge,
    /// An instruction refers to this symbol index, and no symbol has it.
    UndefinedSymbol(usize),
}

/// The number of data bytes that the first `i` symbols occupy.
pub open spec fn data_prefix_len(symbols: Seq<Symbol>, i: int) -> nat
    decreases i,
{
    if i <= 0 {
        0
    } else {
        data_prefix_len(symbols, i - 1) + symbols[i - 1].bytes().len()
    }
}

/// The bytes of the first `i` symbols, one after another.
pub open spec fn data_image(symbols: Seq<Symbol>, i: int) -> Seq<u8>
    decreases i,
{
    if i <= 0 {
        Seq::empty()
    } else {
        data_image(symbols, i - 1) + symbols[i - 1].bytes()
    }
}

/// The address of symbol `i`: the data segment's start plus the length of
/// every symbol declared before it.
pub open spec fn symbol_address(symbols: Seq<Symbol>, i: int) -> int {
    DATA_ADDRESS + data_prefix_len(symbols, i)
}

/// The data segment of these symbols ends inside the 64-bit address space.
pub open spec fn data_fits(symbols: Seq<Symbol>) -> bool {
    symbol_address(symbols, symbols.len() as int) <= u64::MAX
}

/// The address of each symbol, in declaration order.
pub open spec fn symbol_addresses(symbols: Seq<Symbol>) -> Seq<u64> {
    Seq::new(symbols.len(), |i: int| symbol_address(symbols, i) as u64)
}

/// The symbol index that an instruction refers to, if any.
pub open spec fn referenced_symbol(inst: Inst) -> Option<usize> {
    match inst {
        Inst::LoadSymbol(i) => Some(i.symbol_ref.0),
        _ => None,
    }
}

/// The instruction refers to no symbol, or to one of the first `n`.
pub open spec fn resolves(inst: Inst, n: nat) -> bool {
    match referenced_symbol(inst) {
        Some(k) => k < n,
        None => true,
    }
}

/// Every instruction resolves against `n` symbols.
pub open spec fn all_resolve(insts: Seq<Inst>, n: nat) -> bool {
    forall|j: int| 0 <= j < insts.len() ==> #[trigger] resolves(insts[j], n)
}

/// Instruction `i` is the first one that does not resolve against `n` symbols.
pub open spec fn first_unresolved(insts: Seq<Inst>, n: nat, i: int) -> bool {
    &&& 0 <= i < insts.len()
    &&& !resolves(insts[i], n)
    &&& forall|j: int| 0 <= j < i ==> #[trigger] resolves(insts[j], n)
}

/// The bytes of one instruction, given the symbols' addresses.
pub open spec fn inst_bytes(inst: Inst, addresses: Seq<u64>) -> Seq<u8> {
    match inst {
        Inst::LoadImm(i) => load_imm_bytes(i.register, i.register_type, i.imm),
        Inst::LoadSymbol(i) => load_symbol_bytes(i.register, addresses[i.symbol_ref.0 as int]),
        Inst::Syscall(i) => syscall_bytes(i.name),
    }
}

/// The bytes of a run of instructions, one after another.
pub open spec fn code_image(insts: Seq<Inst>, addresses: Seq<u64>) -> Seq<u8>
    decreases insts.len(),
{
    if insts.len() == 0 {
        Seq::empty()
    } else {
        code_image(insts.drop_last(), addresses) + inst_bytes(insts.last(), addresses)
    }
}

/// Lays out one program.
pub struct Builder {
    assembly: Assembly,
    symbol_ptrs: Vec<u64>,
}

impl Builder {
    /// Nothing has been laid out yet.
    pub closed spec fn fresh(&self) -> bool {
        &&& self.assembly.code@.len() == 0
        &&& self.assembly.data@.len() == 0
        &&& self.symbol_ptrs@.len() == 0
        &&& self.assembly.code_info == code_segment(0)
        &&& self.assembly.data_info == data_segment(0)
    }

    pub fn new() -> (r: Builder)
        ensures
            r.fresh(),
    {
        Builder {
            assembly: Assembly {
                code: Vec::new(),
                data: Vec::new(),
                code_info: SegmentInfo {
                    offset: CODE_OFFSET,
                    virtual_address: CODE_ADDRESS,
                    physical_address: CODE_ADDRESS,
                    memory_size: 0,
                },
                data_info: SegmentInfo {
                    offset: DATA_OFFSET,
                    virtual_address: DATA_ADDRESS,
                    physical_address: DATA_ADDRESS,
                    memory_size: 0,
                },
            },
            symbol_ptrs: Vec::new(),
        }
    }
}


proof fn lemma_data_image_len(symbols: Seq<Symbol>, i: int)
    ensures
        data_image(symbols, i).len() == data_prefix_len(symbols, i),
    decreases i,
{
    if i > 0 {
        lemma_data_image_len(symbols, i - 1);
    }
}

/// Symbols declared later stand at addresses no lower than earlier ones.
pub proof fn lemma_data_prefix_monotone(symbols: Seq<Symbol>, i: int, j: int)
    requires
        i <= j,
    ensures
        data_prefix_len(symbols, i) <= data_prefix_len(symbols, j),
    decreases j - i,
{
    if i < j {
        lemma_data_prefix_monotone(symbols, i, j - 1);
    }
}

proof fn lemma_data_image_prefix(symbols: Seq<Symbol>, i: int, k: int)
    requires
        0 <= i <= k <= symbols.len(),
    ensures
        data_image(symbols, i).len() <= data_image(symbols, k).len(),
        data_image(symbols, k).subrange(0, data_image(symbols, i).len() as int) == data_image(
            symbols,
            i,
        ),
    decreases k - i,
{
    if i < k {
        lemma_data_image_prefix(symbols, i, k - 1);
        let a = data_image(symbols, k - 1);
        let li = data_image(symbols, i).len() as int;
        assert(data_image(symbols, k).subrange(0, li) =~= a.subrange(0, li));
    } else {
        assert(data_image(symbols, k).subrange(0, data_image(symbols, k).len() as int) =~= data_image(symbols, k));
    }
}

/// Symbol addresses follow declaration order: each is the data segment's
/// start plus the length of every symbol declared before it, so a later
/// symbol never stands below an earlier one, and the bytes at each address
/// in the data segment are that symbol's own.
pub proof fn lemma_symbol_addresses(symbols: Seq<Symbol>, i: int, j: int)
    requires
        0 <= i <= j < symbols.len(),
    ensures
        symbol_address(symbols, i) <= symbol_address(symbols, j),
        symbol_address(symbols, i + 1) == symbol_address(symbols, i) + symbols[i].bytes().len(),
        ({
            let data = data_image(symbols, symbols.len() as int);
            let start = symbol_address(symbols, i) - DATA_ADDRESS;
            &&& start + symbols[i].bytes().len() <= data.len()
            &&& data.subrange(start, start + symbols[i].bytes().len()) == symbols[i].bytes()
        }),
{
    lemma_data_prefix_monotone(symbols, i, j);
    lemma_data_image_prefix(symbols, i + 1, symbols.len() as int);
    lemma_data_image_len(symbols, i);
    lemma_data_image_len(symbols, i + 1);
    let data = data_image(symbols, symbols.len() as int);
    let start = data_prefix_len(symbols, i) as int;
    let end = start + symbols[i].bytes().len();
    assert(data.subrange(start, end) =~= data.subrange(0, end).subrange(start, end));
    assert(data_image(symbols, i + 1).subrange(start, end) =~= symbols[i].bytes());
}

impl Builder {
    /// Lays out `program`: every symbol into the data segment in declaration
    /// order, then every instruction, encoded against the symbols' addresses,
    /// into the code segment. Fails where the data segment would reach past
    /// the address space, or else at the first instruction that names an
    /// undeclared symbol.
    pub fn build(self, program: &Program) -> (r: Result<Assembly, BuildError>)
        requires
            self.fresh(),
        ensures
            r is Ok <==> data_fits(program.symbols@) && all_resolve(
                program.insts@,
                program.symbols@.len(),
            ),
            r matches Ok(a) ==> {
                &&& a.data@ == data_image(program.symbols@, program.symbols@.len() as int)
                &&& a.code@ == code_image(program.insts@, symbol_addresses(program.symbols@))
                &&& a.code_info == code_segment(a.code@.len() as u64)
                &&& a.data_info == data_segment(a.data@.len() as u64)
                &&& a.segments_consistent()
            },
            r == Err::<Assembly, BuildError>(BuildError::SegmentTooLarge) <==> !data_fits(
                program.symbols@,
            ),
            r matches Err(BuildError::UndefinedSymbol(k)) ==> exists|i: int|
                first_unresolved(program.insts@, program.symbols@.len(), i)
                    && referenced_symbol(#[trigger] program.insts@[i]) == Some(k),
    {
        let mut this = self;
        let ghost symbols = program.symbols@;
        let ghost insts = program.insts@;
        let n = program.symbols.len();
        let mut i: usize = 0;
        while i < n
            invariant
                n == symbols.len(),
                symbols == program.symbols@,
                i <= n,
                this.assembly.data@ == data_image(symbols, i as int),
                this.symbol_ptrs@.len() == i,
                forall|k: int|
                    0 <= k < i ==> #[trigger] this.symbol_ptrs@[k] as int == symbol_address(
                        symbols,
                        k,
                    ),
                this.assembly.code@.len() == 0,
                this.assembly.code_info == code_segment(0),
                this.assembly.data_info == data_segment(0),
            decreases n - i,
        {
            proof {
                lemma_data_image_len(symbols, i as int);
            }
            match this.store_symbol(&program.symbols[i]) {
                Ok(()) => {},
                Err(e) => {
                    proof {
                        lemma_data_prefix_monotone(symbols, i as int, n as int);
                    }
                    return Err(e);
                },
            }
            i = i + 1;
        }
        proof {
            lemma_data_image_len(symbols, n as int);
        }
        let data_len = this.assembly.data.len() as u64;
        if data_len > u64::MAX - DATA_ADDRESS {
            return Err(BuildError::SegmentTooLarge);
        }
        this.assembly.data_info.memory_size = data_len;
        let ghost addresses = symbol_addresses(symbols);
        assert(this.symbol_ptrs@ =~= addresses);
        let m = program.insts.len();
        let mut j: usize = 0;
        while j < m
            invariant
                m == insts.len(),
                insts == program.insts@,
                symbols == program.symbols@,
                n == symbols.len(),
                data_fits(symbols),
                j <= m,
                addresses == symbol_addresses(symbols),
                this.symbol_ptrs@ == addresses,
                this.assembly.code@ == code_image(insts.take(j as int), addresses),
                this.assembly.data@ == data_image(symbols, n as int),
                this.assembly.code_info == code_segment(0),
                this.assembly.data_info == data_segment(data_len),
                data_len == this.assembly.data@.len(),
                forall|k: int| 0 <= k < j ==> #[trigger] resolves(insts[k], n as nat),
            decreases m - j,
        {
            match this.write_inst(&program.insts[j]) {
                Ok(()) => {},
                Err(e) => {
                    assert(!resolves(insts[j as int], n as nat));
                    assert(first_unresolved(insts, n as nat, j as int));
                    assert(!all_resolve(insts, n as nat));
                    return Err(e);
                },
            }
            proof {
                assert(insts.take(j + 1).drop_last() =~= insts.take(j as int));
            }
            j = j + 1;
        }
        assert(insts.take(m as int) =~= insts);
        this.assembly.code_info.memory_size = this.assembly.code.len() as u64;
        Ok(this.assembly)
    }
}

impl Builder {
    /// Records the symbol's address and stores its bytes.
    fn store_symbol(&mut self, symbol: &Symbol) -> (r: Result<(), BuildError>)
        requires
            old(self).assembly.data_info.virtual_address == DATA_ADDRESS,
        ensures
            r is Ok <==> DATA_ADDRESS + old(self).assembly.data@.len() <= u64::MAX,
            r is Err ==> r == Err::<(), BuildError>(BuildError::SegmentTooLarge),
            r is Ok ==> {
                &&& final(self).symbol_ptrs@ == old(self).symbol_ptrs@.push(
                    (DATA_ADDRESS + old(self).assembly.data@.len()) as u64,
                )
                &&& final(self).assembly.data@ == old(self).assembly.data@ + symbol.bytes()
                &&& final(self).assembly.code == old(self).assembly.code
                &&& final(self).assembly.code_info == old(self).assembly.code_info
                &&& final(self).assembly.data_info == old(self).assembly.data_info
            },
    {
        match symbol {
            Symbol::String(StringSymbol(string)) => {
                self.mark_symbol()?;
                self.store(string);
                Ok(())
            },
        }
    }

    /// Records the address at which the next symbol's bytes will stand.
    fn mark_symbol(&mut self) -> (r: Result<(), BuildError>)
        requires
            old(self).assembly.data_info.virtual_address == DATA_ADDRESS,
        ensures
            r is Ok <==> DATA_ADDRESS + old(self).assembly.data@.len() <= u64::MAX,
            r is Err ==> r == Err::<(), BuildError>(BuildError::SegmentTooLarge),
            r is Ok ==> final(self).symbol_ptrs@ == old(self).symbol_ptrs@.push(
                (DATA_ADDRESS + old(self).assembly.data@.len()) as u64,
            ),
            final(self).assembly == old(self).assembly,
    {
        let base_address = self.assembly.data_info.virtual_address;
        let index = self.assembly.data.len() as u64;
        if index > u64::MAX - base_address {
            return Err(BuildError::SegmentTooLarge);
        }
        self.symbol_ptrs.push(base_address + index);
        Ok(())
    }

    /// Appends raw bytes to the data segment.
    fn store(&mut self, bytes: &[u8])
        ensures
            final(self).assembly.data@ == old(self).assembly.data@ + bytes@,
            final(self).assembly.code == old(self).assembly.code,
            final(self).assembly.code_info == old(self).assembly.code_info,
            final(self).assembly.data_info == old(self).assembly.data_info,
            final(self).symbol_ptrs == old(self).symbol_ptrs,
    {
        let mut i: usize = 0;
        while i < bytes.len()
            invariant
                i <= bytes@.len(),
                self.assembly.data@ == old(self).assembly.data@ + bytes@.take(i as int),
                self.assembly.code == old(self).assembly.code,
                self.assembly.code_info == old(self).assembly.code_info,
                self.assembly.data_info == old(self).assembly.data_info,
                self.symbol_ptrs == old(self).symbol_ptrs,
            decreases bytes.len() - i,
        {
            self.assembly.data.push(bytes[i]);
            i = i + 1;
            assert(self.assembly.data@ =~= old(self).assembly.data@ + bytes@.take(i as int));
        }
        assert(bytes@.take(i as int) =~= bytes@);
    }
}

impl Builder {
    /// Encodes one instruction onto the end of the code segment; fails where
    /// it names a symbol that has no address.
    fn write_inst(&mut self, inst: &Inst) -> (r: Result<(), BuildError>)
        ensures
            r is Ok <==> resolves(*inst, old(self).symbol_ptrs@.len()),
            r is Err ==> (referenced_symbol(*inst) matches Some(k) && r == Err::<(), BuildError>(
                BuildError::UndefinedSymbol(k),
            )),
            r is Err ==> final(self).assembly.code == old(self).assembly.code,
            r is Ok ==> final(self).assembly.code@ == old(self).assembly.code@ + inst_bytes(
                *inst,
                old(self).symbol_ptrs@,
            ),
            final(self).assembly.data == old(self).assembly.data,
            final(self).assembly.code_info == old(self).assembly.code_info,
            final(self).assembly.data_info == old(self).assembly.data_info,
            final(self).symbol_ptrs == old(self).symbol_ptrs,
    {
        match inst {
            Inst::LoadImm(inst) => {
                self.write_load_imm_inst(inst);
                Ok(())
            },
            Inst::LoadSymbol(inst) => self.write_load_symbol_inst(inst),
            Inst::Syscall(inst) => {
                self.write_syscall_inst(inst);
                Ok(())
            },
        }
    }

    fn write_load_imm_inst(&mut self, inst: &LoadImmInst)
        ensures
            final(self).assembly.code@ == old(self).assembly.code@ + load_imm_bytes(
                inst.register,
                inst.register_type,
                inst.imm,
            ),
            final(self).assembly.data == old(self).assembly.data,
            final(self).assembly.code_info == old(self).assembly.code_info,
            final(self).assembly.data_info == old(self).assembly.data_info,
            final(self).symbol_ptrs == old(self).symbol_ptrs,
    {
        self.write(load_imm_instruction(inst.register, inst.register_type, inst.imm));
    }

    fn write_load_symbol_inst(&mut self, inst: &LoadSymbolPtrInst) -> (r: Result<(), BuildError>)
        ensures
            r is Ok <==> inst.symbol_ref.0 < old(self).symbol_ptrs@.len(),
            r is Err ==> r == Err::<(), BuildError>(
                BuildError::UndefinedSymbol(inst.symbol_ref.0),
            ),
            r is Err ==> final(self).assembly.code == old(self).assembly.code,
            r is Ok ==> final(self).assembly.code@ == old(self).assembly.code@ + load_symbol_bytes(
                inst.register,
                old(self).symbol_ptrs@[inst.symbol_ref.0 as int],
            ),
            final(self).assembly.data == old(self).assembly.data,
            final(self).assembly.code_info == old(self).assembly.code_info,
            final(self).assembly.data_info == old(self).assembly.data_info,
            final(self).symbol_ptrs == old(self).symbol_ptrs,
    {
        let index = inst.symbol_ref.0;
        if index >= self.symbol_ptrs.len() {
            return Err(BuildError::UndefinedSymbol(index));
        }
        let address = self.symbol_ptrs[index];
        self.write(load_imm_instruction(inst.register, RegisterType::QuadWord, address));
        Ok(())
    }

    fn write_syscall_inst(&mut self, inst: &SyscallInst)
        ensures
            final(self).assembly.code@ == old(self).assembly.code@ + syscall_bytes(inst.name),
            final(self).assembly.data == old(self).assembly.data,
            final(self).assembly.code_info == old(self).assembly.code_info,
            final(self).assembly.data_info == old(self).assembly.data_info,
            final(self).symbol_ptrs == old(self).symbol_ptrs,
    {
        let ghost start = self.assembly.code@;
        // mov eax, imm32: writing eax clears the upper half of rax
        self.write(load_imm_instruction(Register::Ax, RegisterType::DoubleWord, inst.name.number()));
        // syscall: 0f 05
        let mut trap = Instruction::default();
        trap.escape = Some(Escape::Secondary);
        trap.opcode = 0x05;
        assert(trap.spec_bytes() =~= seq![0x0fu8, 0x05u8]);
        self.write(trap);
        assert(self.assembly.code@ =~= start + syscall_bytes(inst.name));
    }

    /// Encodes an instruction record onto the end of the code segment.
    fn write(&mut self, instruction: Instruction)
        requires
            instruction.encodable(),
        ensures
            final(self).assembly.code@ == old(self).assembly.code@ + instruction.spec_bytes(),
            final(self).assembly.data == old(self).assembly.data,
            final(self).assembly.code_info == old(self).assembly.code_info,
            final(self).assembly.data_info == old(self).assembly.data_info,
            final(self).symbol_ptrs == old(self).symbol_ptrs,
    {
        match instruction.to_bytes() {
            Ok(mut bytes) => self.write_bytes(&mut bytes),
            Err(_) => {},
        }
    }

    /// Moves raw bytes onto the end of the code segment.
    fn write_bytes(&mut self, bytes: &mut Vec<u8>)
        ensures
            final(self).assembly.code@ == old(self).assembly.code@ + old(bytes)@,
            final(self).assembly.data == old(self).assembly.data,
            final(self).assembly.code_info == old(self).assembly.code_info,
            final(self).assembly.data_info == old(self).assembly.data_info,
            final(self).symbol_ptrs == old(self).symbol_ptrs,
    {
        self.assembly.code.append(bytes);
    }
}

} // verus!
