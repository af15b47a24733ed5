//! The call stack: caller and origin identity across nested calls.
//!
//! One frame per level of contract execution.  The bottom frame's caller is
//! the origin (the external sender of the top-level transaction); every
//! deeper frame's caller is the contract of the frame below it.  Frames are
//! pushed on entering a call and popped on every exit path, success or
//! failure.

use vstd::prelude::*;
use crate::types::Address;

verus! {

/// One level of contract execution.
pub struct CallFrame {
    /// The contract executing in this frame.
    pub contract: Address,
    /// The immediate invoker of this frame.
    pub caller: Address,
}

/// A last-in-first-out stack of call frames.
pub struct CallStack {
    pub frames: Vec<CallFrame>,
}

impl View for CallStack {
    type V = Seq<CallFrame>;

    open spec fn view(&self) -> Seq<CallFrame> {
        self.frames@
    }
}

/// The caller the next pushed frame will carry: the origin for the first
/// frame, the top frame's contract after that.
pub open spec fn next_caller(frames: Seq<CallFrame>, origin: Seq<u8>) -> Seq<u8> {
    if frames.len() == 0 {
        origin
    } else {
        frames.last().contract@
    }
}

/// The origin a call chain continued from `frames` reports: the bottom
/// frame's caller, or `caller` itself when no frame is in flight yet.
pub open spec fn chain_origin(frames: Seq<CallFrame>, caller: Seq<u8>) -> Seq<u8> {
    if frames.len() == 0 {
        caller
    } else {
        frames[0].caller@
    }
}

impl CallStack {
    /// The identity invariant: the bottom caller is the origin and each
    /// deeper caller is the contract one frame below.
    pub open spec fn wf(&self, origin: Seq<u8>) -> bool {
        &&& (self@.len() > 0 ==> self@[0].caller@ == origin)
        &&& (forall|i: int|
            1 <= i < self@.len() ==> (#[trigger] self@[i].caller)@ == self@[i - 1].contract@)
    }

    /// An empty stack, ready for a top-level invocation.
    pub fn empty() -> (r: CallStack)
        ensures
            r@.len() == 0,
            forall|o: Seq<u8>| r.wf(o),
    {
        CallStack { frames: Vec::new() }
    }

    /// Pushes the frame for a call into `contract`, computing the caller
    /// from the current top of the stack (or the origin for the first
    /// frame).
    pub fn push_call(&mut self, contract: Address, origin: &Address)
        requires
            old(self).wf(origin@),
        ensures
            final(self).wf(origin@),
            final(self)@.len() == old(self)@.len() + 1,
            final(self)@.drop_last() == old(self)@,
            final(self)@.last().contract@ == contract@,
            final(self)@.last().caller@ == next_caller(old(self)@, origin@),
    {
        let caller: Address = if self.frames.len() == 0 {
            origin.clone()
        } else {
            self.frames[self.frames.len() - 1].contract.clone()
        };
        self.frames.push(CallFrame { contract, caller });
        proof {
            assert(final(self)@.drop_last() =~= old(self)@);
        }
    }

    /// Pops the top frame; runs on every exit path of a call.
    pub fn pop_call(&mut self)
        requires
            old(self)@.len() > 0,
        ensures
            final(self)@ == old(self)@.drop_last(),
            forall|o: Seq<u8>| old(self).wf(o) ==> final(self).wf(o),
    {
        let _ = self.frames.pop();
    }

    /// The number of frames in flight.
    pub fn depth(&self) -> (r: usize)
        ensures
            r == self@.len(),
    {
        self.frames.len()
    }

    /// The external account that initiated the top-level transaction,
    /// constant across the whole chain.
    pub fn origin(&self) -> (r: &Address)
        requires
            self@.len() > 0,
        ensures
            r@ == self@[0].caller@,
    {
        &self.frames[0].caller
    }

    /// The immediate invoker of the currently executing frame.
    pub fn current_caller(&self) -> (r: &Address)
        requires
            self@.len() > 0,
        ensures
            r@ == self@.last().caller@,
    {
        &self.frames[self.frames.len() - 1].caller
    }

    /// The contract executing in the current frame.
    pub fn current_contract(&self) -> (r: &Address)
        requires
            self@.len() > 0,
        ensures
            r@ == self@.last().contract@,
    {
        &self.frames[self.frames.len() - 1].contract
    }
}

/// In a well-formed call chain the origin read from any frame is the
/// top-level caller, and the caller of frame `k` (for `k >= 1`) is the
/// contract address of frame `k - 1`.
pub proof fn lemma_identity_chain(s: &CallStack, origin: Seq<u8>, k: int)
    requires
        s.wf(origin),
        0 <= k < s@.len(),
    ensures
        s@[0].caller@ == origin,
        k >= 1 ==> s@[k].caller@ == s@[k - 1].contract@,
{
}

} // verus!
