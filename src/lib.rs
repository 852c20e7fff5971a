//! Typed, verified access to a matrix coprocessor's register banks and
//! instruction encoding.
//!
//! The coprocessor is modelled per thread by [`AmxCtx`]: three register
//! banks, an enabled flag and the log of every instruction issued. A
//! caller obtains an [`AmxHandle`] by enabling the coprocessor, drives it
//! through the handle's transfer and compute operations, and releases the
//! handle to disable it again.

pub mod encoding;
pub mod regs;
pub mod model;
pub mod handle;
pub mod ops;
pub mod space;

pub use encoding::{MemSize, Opcode, Instruction, fmt_offset, fmt_offset_ptr, operand_offset, operand_size, operand_address};
pub use regs::{RegSet, RegIndex, BitOffset};
pub use model::{AmxErr, AmxState, AmxCtx};
pub use handle::AmxHandle;
pub use ops::ElemKind;
pub use space::{Tensor, Matrix, Vector};
