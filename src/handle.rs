//! The capability handle that gates every instruction, and its
//! enable/release lifecycle.
use vstd::prelude::*;

use crate::encoding::{Instruction, Opcode, DISABLE_OPERAND, ENABLE_OPERAND};
use crate::model::{AmxCtx, AmxErr, AmxState};

verus! {

/// The capability to drive the coprocessor: while a handle exists the
/// coprocessor is enabled for its thread. It is neither `Copy` nor `Clone`;
/// [`AmxHandle::release`] consumes it.
#[derive(Debug)]
pub struct AmxHandle;

impl AmxHandle {
    /// Enables the coprocessor for the thread whose context is `ctx` and
    /// returns the handle. Fails with `Unsupported` on a target without the
    /// coprocessor and with `AlreadyEnabled` where a handle is live; a failed
    /// call issues nothing and changes nothing.
    pub fn get(ctx: &mut AmxCtx) -> (r: Result<AmxHandle, AmxErr>)
        requires
            old(ctx).wf(),
        ensures
            final(ctx)@ == old(ctx)@.after_enable(),
            r is Ok <==> old(ctx)@.enable_result() is Ok,
            r matches Err(e) ==> old(ctx)@.enable_result() == Err::<(), AmxErr>(e),
    {
        if !ctx.is_supported() {
            Err(AmxErr::Unsupported)
        } else if ctx.is_enabled() {
            Err(AmxErr::AlreadyEnabled)
        } else {
            ctx.issue(Instruction::new(Opcode::Config, ENABLE_OPERAND));
            ctx.set_enabled(true);
            Ok(AmxHandle)
        }
    }

    /// Disables the coprocessor and gives up the handle; a new handle may be
    /// obtained afterwards.
    pub fn release(self, ctx: &mut AmxCtx)
        requires
            old(ctx).wf(),
            old(ctx)@.enabled,
        ensures
            final(ctx)@ == old(ctx)@.after_release(),
    {
        ctx.issue(Instruction::new(Opcode::Config, DISABLE_OPERAND));
        ctx.set_enabled(false);
    }
}

/// Enabling twice without a release in between fails the second time with
/// `AlreadyEnabled`.
pub proof fn lemma_enable_twice(s: AmxState)
    requires
        s.wf(),
        s.enable_result() is Ok,
    ensures
        s.after_enable().enable_result() == Err::<(), AmxErr>(AmxErr::AlreadyEnabled),
{
}

/// After a release the coprocessor can be enabled again.
pub proof fn lemma_enable_after_release(s: AmxState)
    requires
        s.wf(),
        s.enabled,
    ensures
        s.after_release().enable_result() == Ok::<(), AmxErr>(()),
        s.after_release().after_enable().enabled,
{
}

/// On a target without the coprocessor, enabling fails with `Unsupported`
/// and issues no instruction.
pub proof fn lemma_unsupported_issues_nothing(s: AmxState)
    requires
        !s.supported,
    ensures
        s.enable_result() == Err::<(), AmxErr>(AmxErr::Unsupported),
        s.after_enable().log == s.log,
{
}

} // verus!
