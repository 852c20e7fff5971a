//! Operand and instruction encoding.
//!
//! An operand word for a transfer holds, from the top bit down:
//!
//! ```text
//! bit 63..62: size tag        (0 = 64-byte transfer, 1 = 128-byte transfer)
//! bit 61..56: register offset (0..63, meaning depends on bank)
//! bit 55..0 : memory address low bits
//! ```
use vstd::prelude::*;

verus! {

/// 2^56: the weight of the register offset in an operand word.
pub const OFFSET_UNIT: u64 = 0x0100_0000_0000_0000;

/// 2^62: the weight of the size tag in an operand word.
pub const SIZE_UNIT: u64 = 0x4000_0000_0000_0000;

/// The low 56 bits of an operand word, which carry a memory address.
pub const ADDR_MASK: u64 = 0x00FF_FFFF_FFFF_FFFF;

/// The amount of memory one load or store instruction moves.
#[derive(Clone, Copy, Debug, PartialEq, Eq, Structural)]
pub enum MemSize {
    /// 64 bytes: one register row.
    Bytes64,
    /// 128 bytes: a pair of register rows.
    Bytes128,
}

impl MemSize {
    /// The two-bit tag that stands for this size in an operand word.
    pub open spec fn spec_tag(self) -> u64 {
        match self {
            MemSize::Bytes64 => 0,
            MemSize::Bytes128 => 1,
        }
    }

    pub fn tag(self) -> (r: u64)
        ensures
            r == self.spec_tag(),
    {
        match self {
            MemSize::Bytes64 => 0,
            MemSize::Bytes128 => 1,
        }
    }
}

/// The coprocessor's opcodes.
#[derive(Clone, Copy, Debug, PartialEq, Eq, Structural)]
pub enum Opcode {
    /// Load a row of the first small bank from memory.
    Ldx,
    /// Load a row of the second small bank from memory.
    Ldy,
    /// Store a row of the first small bank to memory.
    Stx,
    /// Store a row of the second small bank to memory.
    Sty,
    /// Load a row of the large bank from memory.
    Ldz,
    /// Store a row of the large bank to memory.
    Stz,
    /// Load a row of the large bank from memory, interleaved.
    Ldzi,
    /// Store a row of the large bank to memory, interleaved.
    Stzi,
    /// Extract from the large bank into the first small bank.
    Extrx,
    /// Extract from the large bank into the second small bank.
    Extry,
    /// Fused multiply-add on 64-bit floats.
    Fma64,
    /// Fused multiply-subtract on 64-bit floats.
    Fms64,
    /// Fused multiply-add on 32-bit floats.
    Fma32,
    /// Fused multiply-subtract on 32-bit floats.
    Fms32,
    /// Multiply-accumulate on 16-bit integers.
    Mac16,
    /// Fused multiply-add on 16-bit floats.
    Fma16,
    /// Fused multiply-subtract on 16-bit floats.
    Fms16,
    /// Enable (immediate 0) or disable (immediate 1) the coprocessor.
    Config,
    /// Vector operation on integers.
    Vecint,
    /// Vector operation on floats.
    Vecfp,
    /// Matrix operation on integers.
    Matint,
    /// Matrix operation on floats.
    Matfp,
    /// Table lookup.
    Genlut,
}

impl Opcode {
    /// The opcode's number, as the hardware reads it.
    pub open spec fn spec_code(self) -> u8 {
        match self {
            Opcode::Ldx => 0,
            Opcode::Ldy => 1,
            Opcode::Stx => 2,
            Opcode::Sty => 3,
            Opcode::Ldz => 4,
            Opcode::Stz => 5,
            Opcode::Ldzi => 6,
            Opcode::Stzi => 7,
            Opcode::Extrx => 8,
            Opcode::Extry => 9,
            Opcode::Fma64 => 10,
            Opcode::Fms64 => 11,
            Opcode::Fma32 => 12,
            Opcode::Fms32 => 13,
            Opcode::Mac16 => 14,
            Opcode::Fma16 => 15,
            Opcode::Fms16 => 16,
            Opcode::Config => 17,
            Opcode::Vecint => 18,
            Opcode::Vecfp => 19,
            Opcode::Matint => 20,
            Opcode::Matfp => 21,
            Opcode::Genlut => 22,
        }
    }

    pub fn code(self) -> (r: u8)
        ensures
            r == self.spec_code(),
            r < 32,
    {
        match self {
            Opcode::Ldx => 0,
            Opcode::Ldy => 1,
            Opcode::Stx => 2,
            Opcode::Sty => 3,
            Opcode::Ldz => 4,
            Opcode::Stz => 5,
            Opcode::Ldzi => 6,
            Opcode::Stzi => 7,
            Opcode::Extrx => 8,
            Opcode::Extry => 9,
            Opcode::Fma64 => 10,
            Opcode::Fms64 => 11,
            Opcode::Fma32 => 12,
            Opcode::Fms32 => 13,
            Opcode::Mac16 => 14,
            Opcode::Fma16 => 15,
            Opcode::Fms16 => 16,
            Opcode::Config => 17,
            Opcode::Vecint => 18,
            Opcode::Vecfp => 19,
            Opcode::Matint => 20,
            Opcode::Matfp => 21,
            Opcode::Genlut => 22,
        }
    }
}

/// The first word of every coprocessor instruction, before the opcode and
/// operand fields are added.
pub const INSTRUCTION_BASE: u32 = 0x0020_1000;

/// The operand of the configuration instruction that enables the coprocessor.
pub const ENABLE_OPERAND: u64 = 0;

/// The operand of the configuration instruction that disables it.
pub const DISABLE_OPERAND: u64 = 1;

/// One instruction for the coprocessor: an opcode and its 64-bit operand
/// word. Values of this type are made only by this crate's encoders.
#[derive(Clone, Copy, Debug, PartialEq, Eq, Structural)]
pub struct Instruction {
    op: Opcode,
    operand: u64,
}

impl Instruction {
    pub closed spec fn spec_op(self) -> Opcode {
        self.op
    }

    pub closed spec fn spec_operand(self) -> u64 {
        self.operand
    }

    /// The instruction with the given fields.
    pub closed spec fn spec_new(op: Opcode, operand: u64) -> Instruction {
        Instruction { op, operand }
    }

    pub(crate) fn new(op: Opcode, operand: u64) -> (r: Instruction)
        ensures
            r == Instruction::spec_new(op, operand),
    {
        Instruction { op, operand }
    }

    pub fn op(&self) -> (r: Opcode)
        ensures
            r == self.spec_op(),
    {
        self.op
    }

    pub fn operand(&self) -> (r: u64)
        ensures
            r == self.spec_operand(),
    {
        self.operand
    }

    /// The 32-bit machine word that issues this instruction with its operand
    /// as an immediate: the path that the two configuration instructions take.
    /// Only operands below 32 fit the immediate field.
    pub fn immediate_word(&self) -> (r: u32)
        requires
            self.spec_operand() < 32,
        ensures
            r == INSTRUCTION_BASE + self.spec_op().spec_code() * 32 + self.spec_operand(),
    {
        let code = self.op.code() as u32;
        let imm = self.operand as u32;
        INSTRUCTION_BASE + code * 32 + imm
    }
}

/// The field accessors read back what the constructor put in.
pub proof fn lemma_instruction_fields(op: Opcode, operand: u64)
    ensures
        #[trigger] Instruction::spec_new(op, operand).spec_op() == op,
        Instruction::spec_new(op, operand).spec_operand() == operand,
{
}

/// The value of a transfer operand word, stated arithmetically.
pub open spec fn transfer_operand(offset: u64, size: MemSize, addr: u64) -> int {
    size.spec_tag() * SIZE_UNIT + offset * OFFSET_UNIT + addr % OFFSET_UNIT
}

/// The register offset that an operand word names.
pub open spec fn spec_operand_offset(w: u64) -> u64 {
    (w / OFFSET_UNIT) % 64
}

/// The size tag that an operand word carries.
pub open spec fn spec_operand_tag(w: u64) -> u64 {
    w / SIZE_UNIT
}

/// The memory address bits that an operand word carries.
pub open spec fn spec_operand_address(w: u64) -> u64 {
    w % OFFSET_UNIT
}

/// The transfer size that a tag stands for, if any.
pub open spec fn size_of_tag(tag: u64) -> Option<MemSize> {
    if tag == 0 {
        Some(MemSize::Bytes64)
    } else if tag == 1 {
        Some(MemSize::Bytes128)
    } else {
        None
    }
}

/// Encodes a register offset and a transfer size into an operand word with
/// no memory address.
pub fn fmt_offset(offset: u64, size: MemSize) -> (r: u64)
    requires
        offset < 64,
    ensures
        r == transfer_operand(offset, size, 0),
{
    let tag = size.tag();
    proof {
        assert((offset << 56u64) | (tag << 62u64) == tag * 0x4000_0000_0000_0000u64
            + offset * 0x0100_0000_0000_0000u64) by (bit_vector)
            requires
                offset < 64,
                tag < 2,
        ;
    }
    (offset << 56u64) | (tag << 62u64)
}

/// Encodes a register offset, a transfer size and the low 56 bits of a
/// memory address into an operand word.
pub fn fmt_offset_ptr(offset: u64, size: MemSize, ptr: u64) -> (r: u64)
    requires
        offset < 64,
    ensures
        r == transfer_operand(offset, size, ptr),
{
    let tag = size.tag();
    proof {
        assert((offset << 56u64) | (tag << 62u64) | (ptr & 0x00FF_FFFF_FFFF_FFFFu64)
            == tag * 0x4000_0000_0000_0000u64 + offset * 0x0100_0000_0000_0000u64
            + ptr % 0x0100_0000_0000_0000u64) by (bit_vector)
            requires
                offset < 64,
                tag < 2,
        ;
    }
    (offset << 56u64) | (tag << 62u64) | (ptr & ADDR_MASK)
}

/// Reads the register offset back out of an operand word.
pub fn operand_offset(w: u64) -> (r: u64)
    ensures
        r == spec_operand_offset(w),
{
    proof {
        assert((w >> 56u64) & 63u64 == (w / 0x0100_0000_0000_0000u64) % 64) by (bit_vector);
    }
    (w >> 56u64) & 63u64
}

/// Reads the transfer size back out of an operand word; `None` where the
/// tag names no size.
pub fn operand_size(w: u64) -> (r: Option<MemSize>)
    ensures
        r == size_of_tag(spec_operand_tag(w)),
{
    proof {
        assert(w >> 62u64 == w / 0x4000_0000_0000_0000u64) by (bit_vector);
    }
    let tag = w >> 62u64;
    if tag == 0 {
        Some(MemSize::Bytes64)
    } else if tag == 1 {
        Some(MemSize::Bytes128)
    } else {
        None
    }
}

/// Reads the memory address bits back out of an operand word.
pub fn operand_address(w: u64) -> (r: u64)
    ensures
        r == spec_operand_address(w),
{
    proof {
        assert(w & 0x00FF_FFFF_FFFF_FFFFu64 == w % 0x0100_0000_0000_0000u64) by (bit_vector);
    }
    w & ADDR_MASK
}

/// Decoding a transfer operand word gives back the register offset, the
/// size and the low 56 bits of the address that went into it.
pub proof fn lemma_operand_round_trip(offset: u64, size: MemSize, addr: u64)
    requires
        offset < 64,
    ensures
        0 <= transfer_operand(offset, size, addr) <= u64::MAX,
        spec_operand_offset(transfer_operand(offset, size, addr) as u64) == offset,
        size_of_tag(spec_operand_tag(transfer_operand(offset, size, addr) as u64)) == Some(size),
        spec_operand_address(transfer_operand(offset, size, addr) as u64) == addr % OFFSET_UNIT,
{
    let tag = size.spec_tag();
    let a = addr % 0x0100_0000_0000_0000u64;
    assert(tag < 2);
    assert(a < 0x0100_0000_0000_0000u64);
    let w: u64 = (tag * 0x4000_0000_0000_0000u64 + offset * 0x0100_0000_0000_0000u64 + a) as u64;
    assert(tag * 0x4000_0000_0000_0000u64 + offset * 0x0100_0000_0000_0000u64 + a <= u64::MAX)
        by (nonlinear_arith)
        requires
            tag < 2,
            offset < 64,
            a < 0x0100_0000_0000_0000u64,
    ;
    assert((w / 0x0100_0000_0000_0000u64) % 64 == offset && w / 0x4000_0000_0000_0000u64 == tag
        && w % 0x0100_0000_0000_0000u64 == a) by (bit_vector)
        requires
            tag < 2,
            offset < 64,
            a < 0x0100_0000_0000_0000u64,
            w == tag * 0x4000_0000_0000_0000u64 + offset * 0x0100_0000_0000_0000u64 + a,
    ;
}

} // verus!
