//! Data movement between memory and the register banks, and the compute
//! instructions, as operations of the live handle.
//!
//! Whole-bank transfers are not atomic: they are one row transfer after
//! another, in row order.
use vstd::prelude::*;

use crate::encoding::{Instruction, Opcode};
use crate::handle::AmxHandle;
use crate::model::{bank_transfers, row_instruction, row_transfer, splice, AmxCtx, AmxState};
use crate::regs::{BitOffset, RegIndex, RegSet};

verus! {

/// How the compute instructions read the bytes of the banks.
#[derive(Clone, Copy, Debug, PartialEq, Eq, Structural)]
pub enum ElemKind {
    /// 16-bit signed integers.
    I16,
    /// 16-bit floats.
    F16,
}

impl ElemKind {
    /// The opcode of the outer product for this element kind.
    pub open spec fn spec_outer_op(self) -> Opcode {
        match self {
            ElemKind::I16 => Opcode::Mac16,
            ElemKind::F16 => Opcode::Fma16,
        }
    }
}

/// Weight of the first small bank's offset in an outer-product operand.
pub const OUTER_X_UNIT: u64 = 0x400;

/// Weight of the large-bank row in an outer-product operand.
pub const OUTER_Z_UNIT: u64 = 0x10_0000;

/// Set in an outer-product operand to overwrite the large-bank row rather
/// than add to it.
pub const OUTER_OVERWRITE: u64 = 0x800_0000;

/// Set in an outer-product operand to leave the second small bank out.
pub const OUTER_SKIP_Y: u64 = 0x1000_0000;

/// Set in an outer-product operand to leave the first small bank out.
pub const OUTER_SKIP_X: u64 = 0x2000_0000;

/// The byte offset that an optional operand contributes; zero when absent.
pub open spec fn offset_or_zero(o: Option<BitOffset>) -> int {
    match o {
        Some(b) => b.spec_value() as int,
        None => 0,
    }
}

/// The operand word of an outer product: the offset into the second small
/// bank in bits 0..9, the offset into the first in bits 10..19, the
/// large-bank row in bits 20..25, and flags for overwriting (bit 27) and
/// for leaving out the second (bit 28) or the first (bit 29) small bank.
pub open spec fn outer_operand(x: Option<BitOffset>, y: Option<BitOffset>, z_row: int, accumulate: bool) -> int {
    offset_or_zero(y) + offset_or_zero(x) * OUTER_X_UNIT + z_row * OUTER_Z_UNIT
        + (if accumulate { 0 } else { OUTER_OVERWRITE as int })
        + (if y is None { OUTER_SKIP_Y as int } else { 0 })
        + (if x is None { OUTER_SKIP_X as int } else { 0 })
}

/// Decoding the transfer that names a row in bounds gives back that row.
pub proof fn lemma_index_round_trip(i: RegIndex, op: Opcode, addr: int)
    requires
        i.in_bounds(),
    ensures
        crate::encoding::spec_operand_offset(row_transfer(op, i.spec_row() as int, addr).spec_operand())
            == i.spec_row(),
{
    crate::encoding::lemma_operand_round_trip(i.spec_row() as u64, crate::encoding::MemSize::Bytes64, addr as u64);
    crate::encoding::lemma_instruction_fields(
        op,
        crate::encoding::transfer_operand(i.spec_row() as u64, crate::encoding::MemSize::Bytes64, addr as u64) as u64,
    );
}

/// Loading a bank and then storing it gives back the bytes that were
/// loaded, and the stored state keeps them.
pub proof fn lemma_write_then_read_bank(s: AmxState, set: RegSet, data: Seq<u8>)
    requires
        s.wf(),
        data.len() == set.spec_byte_len(),
    ensures
        s.after_load_bank(set, data).wf(),
        s.after_load_bank(set, data).bank(set) == data,
        s.after_load_bank(set, data).after_store_bank(set).bank(set) == data,
{
}

/// Loading a row and then storing it gives back the 64 bytes that were
/// loaded.
pub proof fn lemma_write_then_read_row(s: AmxState, i: RegIndex, bytes: Seq<u8>, addr: int)
    requires
        s.wf(),
        i.in_bounds(),
        bytes.len() == 64,
    ensures
        s.after_load_row(i.spec_set(), i.spec_row() as int, bytes, addr).wf(),
        s.after_load_row(i.spec_set(), i.spec_row() as int, bytes, addr).row(i.spec_set(), i.spec_row() as int)
            == bytes,
{
    let set = i.spec_set();
    let r = i.spec_row() as int;
    let b = splice(s.bank(set), r * 64, bytes);
    assert(b.subrange(r * 64, r * 64 + 64) =~= bytes);
}

/// Stores every row of `set` into `buf`, in row order.
fn store_bank<const N: usize>(ctx: &mut AmxCtx, set: RegSet, buf: &mut [u8; N])
    requires
        old(ctx).wf(),
        N == set.spec_byte_len(),
    ensures
        final(ctx)@ == old(ctx)@.after_store_bank(set),
        final(buf)@ == old(ctx)@.bank(set),
{
    let rows = set.rows();
    let mut i: usize = 0;
    while i < rows
        invariant
            rows == set.spec_rows(),
            N == set.spec_byte_len(),
            i <= rows,
            old(ctx).wf(),
            ctx@ == (AmxState { log: old(ctx)@.log + bank_transfers(set.spec_store_op(), set).take(i as int), ..old(ctx)@ }),
            buf@.len() == N,
            buf@.take(i * 64) == old(ctx)@.bank(set).take(i * 64),
        decreases rows - i,
    {
        let ghost before = buf@;
        ctx.store_row(set, i, buf, i * 64);
        proof {
            let ts = bank_transfers(set.spec_store_op(), set);
            assert(ts.take(i + 1) =~= ts.take(i as int).push(row_transfer(set.spec_store_op(), i as int, i * 64)));
            assert(old(ctx)@.log + ts.take(i + 1) =~= (old(ctx)@.log + ts.take(i as int)).push(
                row_transfer(set.spec_store_op(), i as int, i * 64),
            ));
            assert(buf@.take((i + 1) * 64) =~= old(ctx)@.bank(set).take((i + 1) * 64)) by {
                assert forall|k: int| 0 <= k < (i + 1) * 64 implies buf@[k] == old(ctx)@.bank(set)[k] by {
                    if k < i * 64 {
                        assert(before.take(i * 64)[k] == old(ctx)@.bank(set).take(i * 64)[k]);
                    }
                }
            }
        }
        i = i + 1;
    }
    assert(buf@ =~= buf@.take(N as int));
    assert(old(ctx)@.bank(set) =~= old(ctx)@.bank(set).take(N as int));
    assert(bank_transfers(set.spec_store_op(), set).take(rows as int) =~= bank_transfers(set.spec_store_op(), set));
}

impl AmxHandle {
    /// Loads the 64 bytes of `data` into row `idx` of its bank.
    pub fn set_vector(&mut self, ctx: &mut AmxCtx, idx: RegIndex, data: &[u8])
        requires
            old(ctx).wf(),
            old(ctx)@.enabled,
            data@.len() == 64,
        ensures
            final(ctx)@ == old(ctx)@.after_load_row(idx.spec_set(), idx.spec_row() as int, data@, 0),
    {
        let row = idx.row();
        ctx.load_row(idx.set(), row as usize, data, 0);
        assert(data@.subrange(0, 64) =~= data@);
    }

    /// Loads the whole of bank `set` from `data`, which holds exactly as many
    /// bytes as the bank (512 for `X` and `Y`, 4096 for `Z`), row by row.
    pub fn set_matrix(&mut self, ctx: &mut AmxCtx, set: RegSet, data: &[u8])
        requires
            old(ctx).wf(),
            old(ctx)@.enabled,
            data@.len() == set.spec_byte_len(),
        ensures
            final(ctx)@ == old(ctx)@.after_load_bank(set, data@),
    {
        let rows = set.rows();
        let mut i: usize = 0;
        assert(splice(old(ctx)@.bank(set), 0, data@.take(0)) =~= old(ctx)@.bank(set));
        assert(old(ctx)@.log + bank_transfers(set.spec_load_op(), set).take(0) =~= old(ctx)@.log);
        assert(old(ctx)@.with_bank(set, old(ctx)@.bank(set)) == old(ctx)@);
        while i < rows
            invariant
                rows == set.spec_rows(),
                data@.len() == set.spec_byte_len(),
                i <= rows,
                old(ctx).wf(),
                ctx.wf(),
                ctx@ == (AmxState {
                    log: old(ctx)@.log + bank_transfers(set.spec_load_op(), set).take(i as int),
                    ..old(ctx)@.with_bank(set, splice(old(ctx)@.bank(set), 0, data@.take(i * 64)))
                }),
            decreases rows - i,
        {
            let ghost before = ctx@;
            ctx.load_row(set, i, data, i * 64);
            proof {
                let ts = bank_transfers(set.spec_load_op(), set);
                assert(ts.take(i + 1) =~= ts.take(i as int).push(row_transfer(set.spec_load_op(), i as int, i * 64)));
                assert(old(ctx)@.log + ts.take(i + 1) =~= (old(ctx)@.log + ts.take(i as int)).push(
                    row_transfer(set.spec_load_op(), i as int, i * 64),
                ));
                assert(splice(before.bank(set), i * 64, data@.subrange(i * 64, i * 64 + 64))
                    =~= splice(old(ctx)@.bank(set), 0, data@.take((i + 1) * 64)));
            }
            i = i + 1;
        }
        assert(splice(old(ctx)@.bank(set), 0, data@.take(rows * 64)) =~= data@);
        assert(bank_transfers(set.spec_load_op(), set).take(rows as int) =~= bank_transfers(set.spec_load_op(), set));
    }

    /// Stores row `idx` of its bank: the 64 bytes it holds.
    pub fn get_vector(&mut self, ctx: &mut AmxCtx, idx: RegIndex) -> (r: [u8; 64])
        requires
            old(ctx).wf(),
            old(ctx)@.enabled,
        ensures
            r@ == old(ctx)@.row(idx.spec_set(), idx.spec_row() as int),
            final(ctx)@ == old(ctx)@.after_store_row(idx.spec_set(), idx.spec_row() as int, 0),
    {
        let mut buf = [0u8; 64];
        let row = idx.row();
        ctx.store_row(idx.set(), row as usize, &mut buf, 0);
        assert(buf@ =~= old(ctx)@.row(idx.spec_set(), idx.spec_row() as int));
        buf
    }

    /// Stores the whole of the small bank `set`: its 512 bytes.
    pub fn get_matrix_512(&mut self, ctx: &mut AmxCtx, set: RegSet) -> (r: [u8; 512])
        requires
            old(ctx).wf(),
            old(ctx)@.enabled,
            set != RegSet::Z,
        ensures
            r@ == old(ctx)@.bank(set),
            final(ctx)@ == old(ctx)@.after_store_bank(set),
    {
        let mut buf = [0u8; 512];
        store_bank(ctx, set, &mut buf);
        buf
    }

    /// Stores the whole of the large bank: its 4096 bytes.
    pub fn get_matrix_4096(&mut self, ctx: &mut AmxCtx) -> (r: [u8; 4096])
        requires
            old(ctx).wf(),
            old(ctx)@.enabled,
        ensures
            r@ == old(ctx)@.z,
            final(ctx)@ == old(ctx)@.after_store_bank(RegSet::Z),
    {
        let mut buf = [0u8; 4096];
        store_bank(ctx, RegSet::Z, &mut buf);
        buf
    }
    /// Loads the 64 bytes of `data` into large-bank row `idx` with the
    /// hardware's interleaving. The interleaved layout is defined by the
    /// hardware alone: the model records the instruction and leaves its
    /// banks as they were.
    pub fn load512_z_interleaved(&mut self, ctx: &mut AmxCtx, idx: RegIndex, data: &[u8])
        requires
            old(ctx).wf(),
            old(ctx)@.enabled,
            idx.spec_set() == RegSet::Z,
            data@.len() == 64,
        ensures
            final(ctx)@ == old(ctx)@.issue(row_transfer(Opcode::Ldzi, idx.spec_row() as int, 0)),
    {
        let row = idx.row();
        ctx.issue(row_instruction(Opcode::Ldzi, row as usize, 0));
    }

    /// Stores large-bank row `idx` into `buf` with the hardware's
    /// interleaving. The interleaved layout is defined by the hardware alone:
    /// the model records the instruction and leaves `buf` as it was.
    pub fn store512_z_interleaved(&mut self, ctx: &mut AmxCtx, idx: RegIndex, buf: &mut [u8; 64])
        requires
            old(ctx).wf(),
            old(ctx)@.enabled,
            idx.spec_set() == RegSet::Z,
        ensures
            final(ctx)@ == old(ctx)@.issue(row_transfer(Opcode::Stzi, idx.spec_row() as int, 0)),
            final(buf)@ == old(buf)@,
    {
        let row = idx.row();
        ctx.issue(row_instruction(Opcode::Stzi, row as usize, 0));
    }

    /// Multiplies the small banks as matrices of 16-bit floats, writing the
    /// product into the large bank. The model records the instruction; the
    /// arithmetic is the hardware's.
    pub fn matrix_mul_f16(&mut self, ctx: &mut AmxCtx)
        requires
            old(ctx).wf(),
            old(ctx)@.enabled,
        ensures
            final(ctx)@ == old(ctx)@.issue(Instruction::spec_new(Opcode::Matfp, 0)),
    {
        ctx.issue(Instruction::new(Opcode::Matfp, 0));
    }

    /// Multiplies the small banks as matrices of 16-bit integers, writing
    /// the product into the large bank. The model records the instruction;
    /// the arithmetic is the hardware's.
    pub fn matrix_mul_i16(&mut self, ctx: &mut AmxCtx)
        requires
            old(ctx).wf(),
            old(ctx)@.enabled,
        ensures
            final(ctx)@ == old(ctx)@.issue(Instruction::spec_new(Opcode::Matint, 0)),
    {
        ctx.issue(Instruction::new(Opcode::Matint, 0));
    }

    /// Multiplies the small banks as matrices of 16-bit floats, adding the
    /// product to the large bank. The model records the instruction; the
    /// arithmetic is the hardware's.
    pub fn matrix_mul_add_f16(&mut self, ctx: &mut AmxCtx)
        requires
            old(ctx).wf(),
            old(ctx)@.enabled,
        ensures
            final(ctx)@ == old(ctx)@.issue(Instruction::spec_new(Opcode::Fma16, 0)),
    {
        ctx.issue(Instruction::new(Opcode::Fma16, 0));
    }

    /// Multiplies the small banks as matrices of 16-bit integers, adding the
    /// product to the large bank. The model records the instruction; the
    /// arithmetic is the hardware's.
    pub fn matrix_mul_add_i16(&mut self, ctx: &mut AmxCtx)
        requires
            old(ctx).wf(),
            old(ctx)@.enabled,
        ensures
            final(ctx)@ == old(ctx)@.issue(Instruction::spec_new(Opcode::Mac16, 0)),
    {
        ctx.issue(Instruction::new(Opcode::Mac16, 0));
    }

    /// The outer product of a 32-element slice of the first small bank at
    /// `x` and one of the second at `y`, written into (or, with
    /// `accumulate`, added to) large-bank row `z_row`. A `None` offset leaves
    /// that operand out of the product. The model records the instruction;
    /// the arithmetic is the hardware's.
    pub fn outer_product(
        &mut self,
        ctx: &mut AmxCtx,
        kind: ElemKind,
        x: Option<BitOffset>,
        y: Option<BitOffset>,
        z_row: RegIndex,
        accumulate: bool,
    )
        requires
            old(ctx).wf(),
            old(ctx)@.enabled,
            x matches Some(o) ==> o.spec_set() == RegSet::X,
            y matches Some(o) ==> o.spec_set() == RegSet::Y,
            z_row.spec_set() == RegSet::Z,
        ensures
            final(ctx)@ == old(ctx)@.issue(
                Instruction::spec_new(kind.spec_outer_op(), outer_operand(x, y, z_row.spec_row() as int, accumulate) as u64),
            ),
    {
        let op = match kind {
            ElemKind::I16 => Opcode::Mac16,
            ElemKind::F16 => Opcode::Fma16,
        };
        let x_off: u64 = match x {
            Some(o) => o.value() as u64,
            None => 0,
        };
        let y_off: u64 = match y {
            Some(o) => o.value() as u64,
            None => 0,
        };
        let z = z_row.row() as u64;
        let mut w: u64 = y_off + x_off * OUTER_X_UNIT + z * OUTER_Z_UNIT;
        if !accumulate {
            w = w + OUTER_OVERWRITE;
        }
        if y.is_none() {
            w = w + OUTER_SKIP_Y;
        }
        if x.is_none() {
            w = w + OUTER_SKIP_X;
        }
        ctx.issue(Instruction::new(op, w));
    }
}

} // verus!
