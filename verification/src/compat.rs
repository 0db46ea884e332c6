//! The hand-off between the compio driver and the Win32 message loop: a
//! future that registers the driver's handle once, and the slot that holds it.

use std::task::Waker;
use std::time::Duration;
use vstd::prelude::*;

verus! {

/// The handle the message loop waits on, with its timeout and the waker to
/// wake when the handle is signalled.
pub struct HandleContext {
    pub handle: usize,
    pub timeout: Option<Duration>,
    pub waker: Waker,
}

/// The slot holding the current [`HandleContext`] of a thread.
pub struct HandleContextSlot {
    ctx: Option<HandleContext>,
}

impl HandleContextSlot {
    /// The context in the slot.
    pub closed spec fn spec_ctx(&self) -> Option<HandleContext> {
        self.ctx
    }

    /// An empty slot.
    pub fn new() -> (s: Self)
        ensures
            s.spec_ctx() is None,
    {
        HandleContextSlot { ctx: None }
    }

    /// The handle, timeout and waker of the context, or nothing when the slot
    /// is empty.
    pub fn get_handle(&self) -> (r: (Option<usize>, Option<Duration>, Option<&Waker>))
        ensures
            match self.spec_ctx() {
                Some(c) => r.0 == Some(c.handle) && r.1 == c.timeout && r.2 == Some(&c.waker),
                None => r.0 is None && r.1 is None && r.2 is None,
            },
    {
        match &self.ctx {
            Some(c) => (Some(c.handle), c.timeout, Some(&c.waker)),
            None => (None, None, None),
        }
    }
}

/// Puts a context in the slot, replacing the one it held.
pub fn set_context(slot: &mut HandleContextSlot, handle: usize, timeout: Option<Duration>, waker: Waker)
    ensures
        final(slot).spec_ctx() == Some(HandleContext { handle, timeout, waker }),
{
    slot.ctx = Some(HandleContext { handle, timeout, waker });
}

/// Empties the slot.
pub fn reset_context(slot: &mut HandleContextSlot)
    ensures
        final(slot).spec_ctx() is None,
{
    slot.ctx = None;
}

/// A wait of the message loop on the driver's handle: the first poll hands
/// the handle over and is pending, the next one is ready.
pub struct HandleFuture {
    handle: usize,
    timeout: Option<Duration>,
    polled: bool,
}

/// The result of a poll of a [`HandleFuture`].
#[derive(Debug, Clone, Copy, PartialEq, Eq, Structural)]
pub enum HandlePoll {
    Ready,
    Pending,
}

impl HandleFuture {
    /// The handle waited on.
    pub closed spec fn spec_handle(&self) -> usize {
        self.handle
    }

    /// The timeout of the wait.
    pub closed spec fn spec_timeout(&self) -> Option<Duration> {
        self.timeout
    }

    /// Whether the future was polled already.
    pub closed spec fn spec_polled(&self) -> bool {
        self.polled
    }

    /// A wait on `handle` with `timeout` that was not polled yet.
    pub fn new(handle: usize, timeout: Option<Duration>) -> (f: Self)
        ensures
            f.spec_handle() == handle,
            f.spec_timeout() == timeout,
            !f.spec_polled(),
    {
        HandleFuture { handle, timeout, polled: false }
    }

    /// Polls the wait: the first poll puts the handle, the timeout and `waker`
    /// in the slot and is pending; every later poll is ready and leaves the
    /// slot alone.
    pub fn poll(&mut self, slot: &mut HandleContextSlot, waker: Waker) -> (r: HandlePoll)
        ensures
            final(self).spec_handle() == old(self).spec_handle(),
            final(self).spec_timeout() == old(self).spec_timeout(),
            final(self).spec_polled(),
            old(self).spec_polled() ==> r == HandlePoll::Ready && final(slot).spec_ctx() == old(
                slot,
            ).spec_ctx(),
            !old(self).spec_polled() ==> r == HandlePoll::Pending && final(slot).spec_ctx() == Some(
                HandleContext { handle: old(self).spec_handle(), timeout: old(self).spec_timeout(), waker },
            ),
    {
        if self.polled {
            HandlePoll::Ready
        } else {
            set_context(slot, self.handle, self.timeout, waker);
            self.polled = true;
            HandlePoll::Pending
        }
    }

    /// Drops the wait: the slot is emptied.
    pub fn release(self, slot: &mut HandleContextSlot)
        ensures
            final(slot).spec_ctx() is None,
    {
        reset_context(slot);
    }
}

} // verus!
