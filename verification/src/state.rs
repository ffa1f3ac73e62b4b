//! The shared timer state and the trampoline's update of it.
//!
//! The consumer owns a lock-protected record with a completion flag and an
//! optional wake capability. When the timer fires, the operating system
//! invokes the trampoline on a worker thread; holding the lock, the
//! trampoline marks completion and signals the wake capability if one is
//! present. This module holds that update as verified logic on the record's
//! plain values; acquiring the lock around it, and handing the record across
//! the native call boundary, belong to the surrounding application.

use vstd::prelude::*;

verus! {

/// The consumer-visible effect of a wake capability: a pending-wakeup flag
/// that waking raises and that the consumer's poll consumes. Signaling it is
/// idempotent: once raised, further wakes change nothing.
#[derive(Clone, Copy, PartialEq, Eq, Structural, Debug)]
pub struct WakeSignal {
    pending: bool,
}

/// The state a wake signal is left in by a wake: the pending flag raised,
/// whatever it held before.
pub closed spec fn waked(w: WakeSignal) -> WakeSignal {
    WakeSignal { pending: true }
}

/// A waked signal has its pending flag raised, whatever state the wake
/// found it in.
pub proof fn lemma_waked_pending(w: WakeSignal)
    ensures
        waked(w).pending(),
{
}

impl WakeSignal {
    /// Whether a wakeup is pending: raised by `wake`, consumed by `take`.
    pub closed spec fn pending(self) -> bool {
        self.pending
    }

    /// A fresh wake signal with no wakeup pending.
    pub fn new() -> (w: WakeSignal)
        ensures
            !w.pending(),
    {
        WakeSignal { pending: false }
    }

    /// Signals the consumer to re-check completion. Always safe to call,
    /// including redundantly: the result does not depend on the old state.
    pub fn wake(&mut self)
        ensures
            *final(self) == waked(*old(self)),
            final(self).pending(),
    {
        self.pending = true;
    }

    /// The consumer's poll: consumes a pending wakeup and reports whether
    /// one was pending.
    pub fn take(&mut self) -> (was_pending: bool)
        ensures
            !final(self).pending(),
            was_pending == old(self).pending(),
    {
        let was: bool = self.pending;
        self.pending = false;
        was
    }
}

/// Waking is idempotent: any number of wakes before the consumer polls
/// leaves the signal exactly as a single wake does.
pub proof fn lemma_wake_idempotent(w: WakeSignal)
    ensures
        waked(waked(w)) == waked(w),
{
}

/// The record shared between the consumer and the trampoline: a completion
/// flag and an optional wake capability. All reads and writes happen under
/// the consumer's lock; `done` is only ever raised by the trampoline.
pub struct TimerState {
    /// Whether the timer has fired at least once.
    pub done: bool,
    /// The wake capability registered by the consumer, if any.
    pub wake: Option<WakeSignal>,
}

impl TimerState {
    /// A fresh shared state: not done, no wake capability registered.
    pub fn new() -> (s: TimerState)
        ensures
            !s.done,
            s.wake is None,
    {
        TimerState { done: false, wake: None }
    }

    /// Registers the wake capability the trampoline will signal. Leaves the
    /// completion flag alone.
    pub fn register_wake(&mut self, w: WakeSignal)
        ensures
            final(self).done == old(self).done,
            final(self).wake == Some(w),
    {
        self.wake = Some(w);
    }

    /// The trampoline's whole job, run under the state's lock: mark
    /// completion and signal the wake capability if one is present. Nothing
    /// here can fault or block, so no panic ever crosses the native call
    /// boundary.
    pub fn fire(&mut self)
        ensures
            final(self).done,
            old(self).wake is Some ==> final(self).wake == Some(waked(old(self).wake->0)),
            old(self).wake is Some ==> final(self).wake->0.pending(),
            old(self).wake is None ==> final(self).wake is None,
    {
        self.done = true;
        match &mut self.wake {
            Some(w) => w.wake(),
            None => {},
        }
    }
}

} // verus!
