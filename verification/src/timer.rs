//! The native timer handle's lifecycle and teardown protocol.
//!
//! The handle owns one native timer resource. Its life runs through four
//! phases: created (inactive), armed (fire events may be delivered),
//! draining (disarmed, waiting for in-flight callbacks), and closed (the
//! resource released; terminal). Arming computes the native due time and
//! repeat period; teardown disarms, drains, then closes, in that order, so
//! that the resource is never released while a callback could still be
//! running. The surrounding application performs the native calls and
//! drives this state machine with their results.

use vstd::prelude::*;
use crate::convert::Duration;
use crate::convert::TICKS_PER_MILLISECOND;
use crate::convert::to_relative_ticks;
use crate::convert::to_repeat_period_millis;

verus! {

/// Why a native timer operation failed.
#[derive(Clone, Copy, PartialEq, Eq, Structural, Debug)]
pub enum TimerError {
    /// The native creation primitive returned no valid handle; no timer
    /// handle is produced.
    CreationFailed,
    /// The native arm primitive reported failure; the handle returns to a
    /// safe, disarmed state.
    ArmFailed,
}

/// Where a native timer handle stands in its life.
#[derive(Clone, Copy, PartialEq, Eq, Structural, Debug)]
pub enum Phase {
    /// Constructed, never armed; no fire event can be delivered.
    Created,
    /// Armed; the native facility may deliver fire events.
    Armed,
    /// Teardown has begun: future fires are disarmed, but a callback that
    /// was already in flight may still be running until the drain completes.
    Draining,
    /// The native resource is released; no further operation is valid.
    Closed,
}

/// The arguments of one call of the native arm primitive: the signed due
/// time in ticks (negative: relative to now) and the repeat period in
/// milliseconds (zero: one-shot).
#[derive(Clone, Copy, PartialEq, Eq, Structural, Debug)]
pub struct ArmCommand {
    pub due_time_ticks: i64,
    pub repeat_period_millis: u32,
}

/// One step of the teardown sequence, to be performed on the native
/// resource in the order this state machine hands them out.
#[derive(Clone, Copy, PartialEq, Eq, Structural, Debug)]
pub enum TeardownStep {
    /// Call the arm primitive with no due time, disarming future fires.
    Disarm,
    /// Block until any in-flight callback for this handle has returned.
    Drain,
    /// Release the native resource.
    Close,
}

/// The verified lifecycle of one native timer resource. The opaque resource
/// itself lives beside this record in the surrounding application, which
/// keeps the two in step.
#[derive(Debug)]
pub struct NativeTimer {
    phase: Phase,
    drained: bool,
}

impl NativeTimer {
    /// The phase the handle is in.
    pub closed spec fn phase(self) -> Phase {
        self.phase
    }

    /// Whether the drain step of teardown has completed.
    pub closed spec fn drained(self) -> bool {
        self.drained
    }

    /// The activity flag: false until the first arm call succeeds, true
    /// until teardown begins.
    pub open spec fn active(self) -> bool {
        self.phase() is Armed
    }

    /// The handle's invariant: the drain mark appears only once teardown
    /// has begun, and a closed handle has always been drained first.
    pub open spec fn wf(self) -> bool {
        &&& self.drained() ==> (self.phase() is Draining || self.phase() is Closed)
        &&& self.phase() is Closed ==> self.drained()
    }

    /// Whether a trampoline invocation could still touch the shared timer
    /// state: while armed, or while draining before the drain has returned.
    pub open spec fn callback_may_run(self) -> bool {
        self.phase() is Armed || (self.phase() is Draining && !self.drained())
    }

    /// How many teardown steps remain until the handle is closed.
    pub open spec fn teardown_steps_remaining(self) -> nat {
        match self.phase() {
            Phase::Created => 3,
            Phase::Armed => 3,
            Phase::Draining => if self.drained() { 1nat } else { 2nat },
            Phase::Closed => 0,
        }
    }

    /// Accounts for the result of the native creation primitive: a valid
    /// handle yields an inactive, never-armed record; a null handle yields
    /// the creation error and no record at all.
    pub fn new(created_ok: bool) -> (r: Result<NativeTimer, TimerError>)
        ensures
            r is Ok <==> created_ok,
            created_ok ==> {
                &&& r matches Ok(t)
                &&& t.phase() is Created
                &&& !t.active()
                &&& !t.drained()
                &&& t.wf()
            },
            !created_ok ==> r == Err::<NativeTimer, TimerError>(TimerError::CreationFailed),
    {
        if created_ok {
            Ok(NativeTimer { phase: Phase::Created, drained: false })
        } else {
            Err(TimerError::CreationFailed)
        }
    }

    /// Reports the activity flag. Reads this record only; it never queries
    /// the operating system.
    pub fn is_active(&self) -> (b: bool)
        ensures
            b == self.active(),
    {
        match self.phase {
            Phase::Armed => true,
            _ => false,
        }
    }

    /// Records one arm call: the handle becomes armed, and the returned
    /// command carries the due time and repeat period for the native arm
    /// primitive.
    fn init(&mut self, start_ticks: i64, repeat_millis: u32) -> (cmd: ArmCommand)
        requires
            old(self).wf(),
            old(self).phase() is Created || old(self).phase() is Armed,
        ensures
            final(self).wf(),
            final(self).phase() is Armed,
            final(self).active(),
            cmd.due_time_ticks == start_ticks,
            cmd.repeat_period_millis == repeat_millis,
    {
        self.phase = Phase::Armed;
        ArmCommand { due_time_ticks: start_ticks, repeat_period_millis: repeat_millis }
    }

    /// Arms the timer once: the due time is the delay converted to relative
    /// ticks, the repeat period is zero, and the handle becomes active.
    pub fn init_delay(&mut self, delay: &Duration) -> (cmd: ArmCommand)
        requires
            old(self).wf(),
            old(self).phase() is Created || old(self).phase() is Armed,
            delay.wf(),
            delay.ticks() <= i64::MAX,
        ensures
            final(self).wf(),
            final(self).phase() is Armed,
            final(self).active(),
            cmd.due_time_ticks == -delay.ticks(),
            cmd.repeat_period_millis == 0,
    {
        let ticks: i64 = to_relative_ticks(delay);
        self.init(ticks, 0)
    }

    /// Arms the timer periodically: the due time of the first fire is the
    /// interval converted to relative ticks, subsequent fires repeat every
    /// `to_repeat_period_millis(interval)` milliseconds, and the handle
    /// becomes active.
    pub fn init_interval(&mut self, interval: &Duration) -> (cmd: ArmCommand)
        requires
            old(self).wf(),
            old(self).phase() is Created || old(self).phase() is Armed,
            interval.wf(),
            interval.ticks() / (TICKS_PER_MILLISECOND as int) <= u32::MAX,
        ensures
            final(self).wf(),
            final(self).phase() is Armed,
            final(self).active(),
            cmd.due_time_ticks == -interval.ticks(),
            cmd.repeat_period_millis == interval.ticks() / (TICKS_PER_MILLISECOND as int),
    {
        let millis: u32 = to_repeat_period_millis(interval);
        let ticks: i64 = to_relative_ticks(interval);
        self.init(ticks, millis)
    }

    /// Accounts for a failure of the native arm primitive: arming fails
    /// atomically, so the handle returns to the safe, disarmed state it had
    /// before it was ever armed, and the arm error is reported.
    pub fn arm_failed(&mut self) -> (e: TimerError)
        requires
            old(self).wf(),
            old(self).phase() is Armed,
        ensures
            final(self).wf(),
            final(self).phase() is Created,
            !final(self).active(),
            e == TimerError::ArmFailed,
    {
        self.phase = Phase::Created;
        TimerError::ArmFailed
    }

    /// The next teardown step in spec form: disarm first, then drain, then
    /// close; nothing once the handle is closed.
    pub open spec fn spec_next_teardown_step(self) -> Option<TeardownStep> {
        match self.phase() {
            Phase::Created => Some(TeardownStep::Disarm),
            Phase::Armed => Some(TeardownStep::Disarm),
            Phase::Draining => if self.drained() {
                Some(TeardownStep::Close)
            } else {
                Some(TeardownStep::Drain)
            },
            Phase::Closed => None,
        }
    }

    /// Hands out the next step of the teardown sequence, or nothing once
    /// the handle is closed. Disposal performs the steps in exactly this
    /// order: disarm, drain, close.
    pub fn next_teardown_step(&self) -> (s: Option<TeardownStep>)
        ensures
            s == self.spec_next_teardown_step(),
    {
        match self.phase {
            Phase::Created => Some(TeardownStep::Disarm),
            Phase::Armed => Some(TeardownStep::Disarm),
            Phase::Draining => if self.drained {
                Some(TeardownStep::Close)
            } else {
                Some(TeardownStep::Drain)
            },
            Phase::Closed => None,
        }
    }

    /// Records that one teardown step was performed on the native resource.
    /// Only the step this state machine handed out is accepted, so the
    /// sequence disarm, drain, close cannot be reordered, and each step
    /// brings the handle one step closer to closed.
    pub fn apply_teardown_step(&mut self, step: TeardownStep)
        requires
            old(self).wf(),
            old(self).spec_next_teardown_step() == Some(step),
        ensures
            final(self).wf(),
            !final(self).active(),
            final(self).teardown_steps_remaining()
                == old(self).teardown_steps_remaining() - 1,
            step is Disarm ==> final(self).phase() is Draining && !final(self).drained(),
            step is Drain ==> final(self).phase() is Draining && final(self).drained(),
            step is Close ==> final(self).phase() is Closed,
    {
        match step {
            TeardownStep::Disarm => {
                self.phase = Phase::Draining;
                self.drained = false;
            },
            TeardownStep::Drain => {
                self.drained = true;
            },
            TeardownStep::Close => {
                self.phase = Phase::Closed;
            },
        }
    }
}

/// Disposal never races an in-flight callback: the close step, which
/// releases the native resource, is only ever handed out once the drain has
/// completed, and at that point no callback can still be running.
pub proof fn lemma_close_only_after_drain(t: NativeTimer)
    requires
        t.wf(),
        t.spec_next_teardown_step() == Some(TeardownStep::Close),
    ensures
        t.drained(),
        !t.callback_may_run(),
{
}

/// Once a handle is closed, no callback can still be running: the drain
/// completed before the resource was released.
pub proof fn lemma_closed_means_drained(t: NativeTimer)
    requires
        t.wf(),
        t.phase() is Closed,
    ensures
        t.drained(),
        !t.callback_may_run(),
{
}

/// Teardown returns promptly: from any phase, at most three steps remain
/// until the handle is closed.
pub proof fn lemma_teardown_bounded(t: NativeTimer)
    requires
        t.wf(),
    ensures
        t.teardown_steps_remaining() <= 3,
        t.teardown_steps_remaining() == 0 <==> t.phase() is Closed,
{
}

} // verus!
