//! The coprocessor's register banks and typed, bounds-checked addresses
//! into them.
use vstd::prelude::*;

use crate::encoding::Opcode;

verus! {

/// A register bank of the coprocessor:
///
/// * `X`: 8 rows of 64 bytes, 512 bytes in all.
/// * `Y`: 8 rows of 64 bytes, 512 bytes in all.
/// * `Z`: 64 rows of 64 bytes, 4096 bytes in all.
///
/// Rows are addressed one at a time when data moves between memory and
/// a bank; whole banks are the operands of the compute instructions.
#[derive(Clone, Copy, Debug, PartialEq, Eq, Structural)]
pub enum RegSet {
    X,
    Y,
    Z,
}

impl RegSet {
    /// The number of rows in this bank.
    pub open spec fn spec_rows(self) -> nat {
        match self {
            RegSet::X => 8,
            RegSet::Y => 8,
            RegSet::Z => 64,
        }
    }

    /// The number of bytes in this bank.
    pub open spec fn spec_byte_len(self) -> nat {
        self.spec_rows() * 64
    }

    /// The opcode that loads a row of this bank from memory.
    pub open spec fn spec_load_op(self) -> Opcode {
        match self {
            RegSet::X => Opcode::Ldx,
            RegSet::Y => Opcode::Ldy,
            RegSet::Z => Opcode::Ldz,
        }
    }

    /// The opcode that stores a row of this bank to memory.
    pub open spec fn spec_store_op(self) -> Opcode {
        match self {
            RegSet::X => Opcode::Stx,
            RegSet::Y => Opcode::Sty,
            RegSet::Z => Opcode::Stz,
        }
    }

    /// The bank with the given number: 0 for `X`, 1 for `Y`, 2 for `Z`.
    pub fn from_u8(u: u8) -> (r: RegSet)
        requires
            u < 3,
        ensures
            u == 0 ==> r == RegSet::X,
            u == 1 ==> r == RegSet::Y,
            u == 2 ==> r == RegSet::Z,
    {
        if u == 0 {
            RegSet::X
        } else if u == 1 {
            RegSet::Y
        } else {
            RegSet::Z
        }
    }

    pub fn rows(self) -> (r: usize)
        ensures
            r == self.spec_rows(),
    {
        match self {
            RegSet::X => 8,
            RegSet::Y => 8,
            RegSet::Z => 64,
        }
    }

    pub fn byte_len(self) -> (r: usize)
        ensures
            r == self.spec_byte_len(),
    {
        match self {
            RegSet::X => 512,
            RegSet::Y => 512,
            RegSet::Z => 4096,
        }
    }

    pub fn load_op(self) -> (r: Opcode)
        ensures
            r == self.spec_load_op(),
    {
        match self {
            RegSet::X => Opcode::Ldx,
            RegSet::Y => Opcode::Ldy,
            RegSet::Z => Opcode::Ldz,
        }
    }

    pub fn store_op(self) -> (r: Opcode)
        ensures
            r == self.spec_store_op(),
    {
        match self {
            RegSet::X => Opcode::Stx,
            RegSet::Y => Opcode::Sty,
            RegSet::Z => Opcode::Stz,
        }
    }
}

/// A row of a register bank: always below the bank's row count (8 for the
/// small banks, 64 for the large one).
#[derive(Clone, Copy, Debug, PartialEq, Eq, Structural)]
pub struct RegIndex {
    set: RegSet,
    row: u8,
}

impl RegIndex {
    pub closed spec fn spec_set(self) -> RegSet {
        self.set
    }

    pub closed spec fn spec_row(self) -> u8 {
        self.row
    }

    /// The row lies inside its bank.
    pub open spec fn in_bounds(self) -> bool {
        self.spec_row() < self.spec_set().spec_rows()
    }

    #[verifier::type_invariant]
    spec fn inv(self) -> bool {
        self.in_bounds()
    }

    /// The address of row `row` of `set`; `None` where the bank has no such
    /// row.
    pub fn new(set: RegSet, row: u64) -> (r: Option<RegIndex>)
        ensures
            r is Some <==> row < set.spec_rows(),
            r matches Some(i) ==> i.spec_set() == set && i.spec_row() == row,
    {
        if row < set.rows() as u64 {
            Some(RegIndex { set, row: row as u8 })
        } else {
            None
        }
    }

    pub fn set(&self) -> (r: RegSet)
        ensures
            r == self.spec_set(),
    {
        self.set
    }

    pub fn row(&self) -> (r: u8)
        ensures
            r == self.spec_row(),
            r < self.spec_set().spec_rows(),
    {
        proof {
            use_type_invariant(self);
        }
        self.row
    }
}

/// A byte position inside a register bank taken as one contiguous block:
/// always below the bank's size (512 for the small banks, 4096 for the large
/// one).
#[derive(Clone, Copy, Debug, PartialEq, Eq, Structural)]
pub struct BitOffset {
    set: RegSet,
    value: u16,
}

impl BitOffset {
    pub closed spec fn spec_set(self) -> RegSet {
        self.set
    }

    pub closed spec fn spec_value(self) -> u16 {
        self.value
    }

    /// The position lies inside its bank.
    pub open spec fn in_bounds(self) -> bool {
        self.spec_value() < self.spec_set().spec_byte_len()
    }

    #[verifier::type_invariant]
    spec fn inv(self) -> bool {
        self.in_bounds()
    }

    /// Position `value` of `set`; `None` where the bank is not that large.
    pub fn new(set: RegSet, value: u64) -> (r: Option<BitOffset>)
        ensures
            r is Some <==> value < set.spec_byte_len(),
            r matches Some(o) ==> o.spec_set() == set && o.spec_value() == value,
    {
        if value < set.byte_len() as u64 {
            Some(BitOffset { set, value: value as u16 })
        } else {
            None
        }
    }

    pub fn set(&self) -> (r: RegSet)
        ensures
            r == self.spec_set(),
    {
        self.set
    }

    pub fn value(&self) -> (r: u16)
        ensures
            r == self.spec_value(),
            r < self.spec_set().spec_byte_len(),
    {
        proof {
            use_type_invariant(self);
        }
        self.value
    }
}

} // verus!
