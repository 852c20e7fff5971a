//! A software model of one thread's coprocessor.
//!
//! [`AmxCtx`] keeps the enabled flag, the contents of the three register
//! banks and the log of the instructions issued, in order. Hardware support
//! is a fact about the target, handed to [`AmxCtx::new`] by whoever probes
//! it.
//!
//! In the model the caller's buffer stands at address zero, so the address
//! field of a logged transfer holds the byte position in that buffer at
//! which the row's bytes start.
use vstd::prelude::*;

use crate::encoding::{
    fmt_offset_ptr, transfer_operand, Instruction, MemSize, Opcode, DISABLE_OPERAND, ENABLE_OPERAND,
};
use crate::regs::RegSet;

verus! {

/// Why the coprocessor could not be enabled.
#[derive(Clone, Copy, Debug, PartialEq, Eq, Structural)]
#[non_exhaustive]
pub enum AmxErr {
    /// The target does not have the coprocessor.
    Unsupported,
    /// A handle is already live in this thread.
    AlreadyEnabled,
}

/// The abstract state of one thread's coprocessor.
pub ghost struct AmxState {
    /// The target has the coprocessor.
    pub supported: bool,
    /// The coprocessor is enabled: a handle was handed out and not yet
    /// released.
    pub enabled: bool,
    /// The first small bank, 512 bytes.
    pub x: Seq<u8>,
    /// The second small bank, 512 bytes.
    pub y: Seq<u8>,
    /// The large bank, 4096 bytes.
    pub z: Seq<u8>,
    /// Every instruction issued so far, oldest first.
    pub log: Seq<Instruction>,
}

/// `piece` written over `s` from position `at` on.
pub open spec fn splice(s: Seq<u8>, at: int, piece: Seq<u8>) -> Seq<u8> {
    s.subrange(0, at) + piece + s.subrange(at + piece.len(), s.len() as int)
}

/// The instruction that enables the coprocessor.
pub open spec fn enable_instruction() -> Instruction {
    Instruction::spec_new(Opcode::Config, ENABLE_OPERAND)
}

/// The instruction that disables the coprocessor.
pub open spec fn disable_instruction() -> Instruction {
    Instruction::spec_new(Opcode::Config, DISABLE_OPERAND)
}

impl AmxState {
    /// The banks have their sizes, and only a supported target is ever
    /// enabled.
    pub open spec fn wf(self) -> bool {
        &&& self.x.len() == RegSet::X.spec_byte_len()
        &&& self.y.len() == RegSet::Y.spec_byte_len()
        &&& self.z.len() == RegSet::Z.spec_byte_len()
        &&& self.enabled ==> self.supported
    }

    /// A thread's state before it first enables the coprocessor: banks of
    /// zeros, nothing issued.
    pub open spec fn initial(supported: bool) -> AmxState {
        AmxState {
            supported,
            enabled: false,
            x: Seq::new(512, |i: int| 0u8),
            y: Seq::new(512, |i: int| 0u8),
            z: Seq::new(4096, |i: int| 0u8),
            log: Seq::empty(),
        }
    }

    /// The contents of bank `set`.
    pub open spec fn bank(self, set: RegSet) -> Seq<u8> {
        match set {
            RegSet::X => self.x,
            RegSet::Y => self.y,
            RegSet::Z => self.z,
        }
    }

    /// Row `row` of bank `set`.
    pub open spec fn row(self, set: RegSet, row: int) -> Seq<u8> {
        self.bank(set).subrange(row * 64, row * 64 + 64)
    }

    /// This state with bank `set` holding `b`.
    pub open spec fn with_bank(self, set: RegSet, b: Seq<u8>) -> AmxState {
        match set {
            RegSet::X => AmxState { x: b, ..self },
            RegSet::Y => AmxState { y: b, ..self },
            RegSet::Z => AmxState { z: b, ..self },
        }
    }

    /// This state with `i` appended to the log.
    pub open spec fn issue(self, i: Instruction) -> AmxState {
        AmxState { log: self.log.push(i), ..self }
    }

    /// What enabling the coprocessor from this state gives: unsupported
    /// targets fail first, then a thread that already holds a handle.
    pub open spec fn enable_result(self) -> Result<(), AmxErr> {
        if !self.supported {
            Err(AmxErr::Unsupported)
        } else if self.enabled {
            Err(AmxErr::AlreadyEnabled)
        } else {
            Ok(())
        }
    }

    /// The state after an attempt to enable the coprocessor: on success the
    /// enable instruction is issued and the flag set; on failure nothing
    /// changes.
    pub open spec fn after_enable(self) -> AmxState {
        if self.enable_result() is Ok {
            AmxState { enabled: true, ..self.issue(enable_instruction()) }
        } else {
            self
        }
    }

    /// The state after the live handle is released: the disable instruction
    /// is issued and the flag cleared.
    pub open spec fn after_release(self) -> AmxState {
        AmxState { enabled: false, ..self.issue(disable_instruction()) }
    }
}

/// One thread's coprocessor, as a software model that keeps the register
/// contents and the instruction log.
pub struct AmxCtx {
    supported: bool,
    enabled: bool,
    x: Vec<u8>,
    y: Vec<u8>,
    z: Vec<u8>,
    log: Vec<Instruction>,
}

impl View for AmxCtx {
    type V = AmxState;

    closed spec fn view(&self) -> AmxState {
        AmxState {
            supported: self.supported,
            enabled: self.enabled,
            x: self.x@,
            y: self.y@,
            z: self.z@,
            log: self.log@,
        }
    }
}

/// A vector of `n` zero bytes.
fn zeros(n: usize) -> (r: Vec<u8>)
    ensures
        r@ == Seq::new(n as nat, |i: int| 0u8),
{
    let mut v: Vec<u8> = Vec::with_capacity(n);
    while v.len() < n
        invariant
            v.len() <= n,
            forall|i: int| 0 <= i < v.len() ==> v@[i] == 0u8,
        decreases n - v.len(),
    {
        v.push(0u8);
    }
    assert(v@ =~= Seq::new(n as nat, |i: int| 0u8));
    v
}

impl AmxCtx {
    pub open spec fn wf(&self) -> bool {
        self@.wf()
    }

    /// The context of a thread that has not enabled the coprocessor yet, on
    /// a target that has it (`supported`) or not.
    pub fn new(supported: bool) -> (r: AmxCtx)
        ensures
            r@ == AmxState::initial(supported),
            r.wf(),
    {
        AmxCtx {
            supported,
            enabled: false,
            x: zeros(512),
            y: zeros(512),
            z: zeros(4096),
            log: Vec::new(),
        }
    }

    pub fn is_supported(&self) -> (r: bool)
        ensures
            r == self@.supported,
    {
        self.supported
    }

    pub fn is_enabled(&self) -> (r: bool)
        ensures
            r == self@.enabled,
    {
        self.enabled
    }

    /// The instructions issued so far, oldest first.
    pub fn log(&self) -> (r: &Vec<Instruction>)
        ensures
            r@ == self@.log,
    {
        &self.log
    }

    /// Sets or clears the enabled flag.
    pub(crate) fn set_enabled(&mut self, on: bool)
        ensures
            final(self)@ == (AmxState { enabled: on, ..old(self)@ }),
    {
        self.enabled = on;
    }

    /// Issues one instruction.
    pub(crate) fn issue(&mut self, i: Instruction)
        ensures
            final(self)@ == old(self)@.issue(i),
    {
        self.log.push(i);
    }
}


/// The 64-byte transfer of row `row` with opcode `op`, whose bytes stand at
/// `addr` in the caller's buffer.
pub open spec fn row_transfer(op: Opcode, row: int, addr: int) -> Instruction {
    Instruction::spec_new(op, transfer_operand(row as u64, MemSize::Bytes64, addr as u64) as u64)
}

/// The transfers that move a whole bank, one per row, in row order; row
/// `i` sits at `64 * i` in the buffer.
pub open spec fn bank_transfers(op: Opcode, set: RegSet) -> Seq<Instruction> {
    Seq::new(set.spec_rows(), |i: int| row_transfer(op, i, i * 64))
}

impl AmxState {
    /// The state after row `row` of `set` is loaded with `bytes`, found at
    /// `addr` in the caller's buffer.
    pub open spec fn after_load_row(self, set: RegSet, row: int, bytes: Seq<u8>, addr: int) -> AmxState {
        self.with_bank(set, splice(self.bank(set), row * 64, bytes)).issue(
            row_transfer(set.spec_load_op(), row, addr),
        )
    }

    /// The state after row `row` of `set` is stored to `addr` in the
    /// caller's buffer: only the log grows.
    pub open spec fn after_store_row(self, set: RegSet, row: int, addr: int) -> AmxState {
        self.issue(row_transfer(set.spec_store_op(), row, addr))
    }

    /// The state after the whole of `set` is loaded with `data`, row by row.
    pub open spec fn after_load_bank(self, set: RegSet, data: Seq<u8>) -> AmxState {
        AmxState {
            log: self.log + bank_transfers(set.spec_load_op(), set),
            ..self.with_bank(set, data)
        }
    }

    /// The state after the whole of `set` is stored, row by row.
    pub open spec fn after_store_bank(self, set: RegSet) -> AmxState {
        AmxState { log: self.log + bank_transfers(set.spec_store_op(), set), ..self }
    }
}

/// Copies the 64 bytes of `src` at `at` into `dst` at `base`.
fn copy_row_into(dst: &mut Vec<u8>, base: usize, src: &[u8], at: usize)
    requires
        base + 64 <= old(dst)@.len(),
        at + 64 <= src@.len(),
    ensures
        final(dst)@ == splice(old(dst)@, base as int, src@.subrange(at as int, at + 64)),
{
    let mut j: usize = 0;
    while j < 64
        invariant
            j <= 64,
            base + 64 <= dst.len(),
            at + 64 <= src.len(),
            dst@.len() == old(dst)@.len(),
            forall|k: int| 0 <= k < dst@.len() && !(base <= k < base + j) ==> dst@[k] == old(dst)@[k],
            forall|k: int| base <= k < base + j ==> dst@[k] == src@[at + k - base],
        decreases 64 - j,
    {
        dst.set(base + j, src[at + j]);
        j = j + 1;
    }
    assert(dst@ =~= splice(old(dst)@, base as int, src@.subrange(at as int, at + 64)));
}

/// Copies the 64 bytes of `src` at `base` into `dst` at `at`.
fn copy_row_out<const N: usize>(dst: &mut [u8; N], at: usize, src: &Vec<u8>, base: usize)
    requires
        at + 64 <= N,
        base + 64 <= src@.len(),
    ensures
        final(dst)@ == splice(old(dst)@, at as int, src@.subrange(base as int, base + 64)),
{
    let mut j: usize = 0;
    while j < 64
        invariant
            j <= 64,
            at + 64 <= N,
            base + 64 <= src.len(),
            dst@.len() == N,
            forall|k: int| 0 <= k < N && !(at <= k < at + j) ==> dst@[k] == old(dst)@[k],
            forall|k: int| at <= k < at + j ==> dst@[k] == src@[base + k - at],
        decreases 64 - j,
    {
        dst[at + j] = src[base + j];
        j = j + 1;
    }
    assert(dst@ =~= splice(old(dst)@, at as int, src@.subrange(base as int, base + 64)));
}

/// The instruction for a 64-byte transfer of `row` with `op`, from or to
/// position `at` of the caller's buffer.
pub(crate) fn row_instruction(op: Opcode, row: usize, at: usize) -> (r: Instruction)
    requires
        row < 64,
    ensures
        r == row_transfer(op, row as int, at as int),
{
    Instruction::new(op, fmt_offset_ptr(row as u64, MemSize::Bytes64, at as u64))
}

impl AmxCtx {
    /// Loads row `row` of `set` from the 64 bytes of `src` at `at`.
    pub(crate) fn load_row(&mut self, set: RegSet, row: usize, src: &[u8], at: usize)
        requires
            old(self).wf(),
            row < set.spec_rows(),
            at + 64 <= src@.len(),
        ensures
            final(self)@ == old(self)@.after_load_row(
                set,
                row as int,
                src@.subrange(at as int, at + 64),
                at as int,
            ),
    {
        let base = row * 64;
        match set {
            RegSet::X => copy_row_into(&mut self.x, base, src, at),
            RegSet::Y => copy_row_into(&mut self.y, base, src, at),
            RegSet::Z => copy_row_into(&mut self.z, base, src, at),
        }
        self.issue(row_instruction(set.load_op(), row, at));
    }

    /// Stores row `row` of `set` into `dst` at `at`.
    pub(crate) fn store_row<const N: usize>(&mut self, set: RegSet, row: usize, dst: &mut [u8; N], at: usize)
        requires
            old(self).wf(),
            row < set.spec_rows(),
            at + 64 <= N,
        ensures
            final(self)@ == old(self)@.after_store_row(set, row as int, at as int),
            final(dst)@ == splice(old(dst)@, at as int, old(self)@.row(set, row as int)),
    {
        let base = row * 64;
        match set {
            RegSet::X => copy_row_out(dst, at, &self.x, base),
            RegSet::Y => copy_row_out(dst, at, &self.y, base),
            RegSet::Z => copy_row_out(dst, at, &self.z, base),
        }
        self.issue(row_instruction(set.store_op(), row, at));
    }
}

} // verus!
