//! The message loop of the Win32 runtime: what it does with each answer of
//! `GetMessageW`, which messages it dispatches, and the value it ends with.

use vstd::prelude::*;

verus! {

/// What the message loop does with an answer of `GetMessageW`.
#[derive(Debug, Clone, Copy, PartialEq, Eq, Structural)]
pub enum LoopStep {
    /// A message was retrieved (a positive answer).
    Message,
    /// `WM_QUIT` was retrieved (0): the loop ends.
    Quit,
}

/// What the message loop does with the answer `res` of `GetMessageW`; a
/// negative answer, a failure of the call, is a fault of the loop and is
/// not taken.
pub fn loop_step(res: i32) -> (s: LoopStep)
    requires
        res >= 0,
    ensures
        s == (if res > 0 {
            LoopStep::Message
        } else {
            LoopStep::Quit
        }),
{
    if res > 0 {
        LoopStep::Message
    } else {
        LoopStep::Quit
    }
}

/// Whether a retrieved message is translated and dispatched: unless its
/// window has a root window that handled it as a dialog message.
pub fn should_dispatch(has_root: bool, dialog_handled: bool) -> (b: bool)
    ensures
        b == !(has_root && dialog_handled),
{
    !(has_root && dialog_handled)
}

/// The value a blocking run ends with: the output of the future, once the
/// future has finished and asked the loop to quit.
pub struct BlockOnSlot<T> {
    result: Option<T>,
}

impl<T> BlockOnSlot<T> {
    /// The output, once the future has finished.
    pub closed spec fn spec_result(&self) -> Option<T> {
        self.result
    }

    /// Nothing finished yet.
    pub fn new() -> (s: Self)
        ensures
            s.spec_result() is None,
    {
        BlockOnSlot { result: None }
    }

    /// The future finished with `value`.
    pub fn complete(&mut self, value: T)
        ensures
            final(self).spec_result() == Some(value),
    {
        self.result = Some(value);
    }

    /// Whether the future has finished.
    pub fn is_complete(&self) -> (b: bool)
        ensures
            b == self.spec_result() is Some,
    {
        self.result.is_some()
    }

    /// The loop got `WM_QUIT` after the future finished: takes the output the
    /// run ends with. A quit before the future finished is a fault of the
    /// loop and is not taken.
    pub fn take_on_quit(&mut self) -> (r: T)
        requires
            old(self).spec_result() is Some,
        ensures
            Some(r) == old(self).spec_result(),
            final(self).spec_result() is None,
    {
        let mut slot: Option<T> = None;
        std::mem::swap(&mut slot, &mut self.result);
        slot.unwrap()
    }
}

} // verus!
