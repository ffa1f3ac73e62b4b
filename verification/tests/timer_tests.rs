use native_timer::convert::Duration;
use native_timer::convert::expected_fire_count;
use native_timer::convert::to_relative_ticks;
use native_timer::convert::to_repeat_period_millis;
use native_timer::state::TimerState;
use native_timer::state::WakeSignal;
use native_timer::timer::ArmCommand;
use native_timer::timer::NativeTimer;
use native_timer::timer::TeardownStep;
use native_timer::timer::TimerError;

fn run_teardown(timer: &mut NativeTimer) -> Vec<TeardownStep> {
    let mut steps: Vec<TeardownStep> = Vec::new();
    while let Some(step) = timer.next_teardown_step() {
        steps.push(step);
        timer.apply_teardown_step(step);
    }
    steps
}

#[test]
fn zero_duration_converts_to_zero_ticks() {
    let d = Duration::new(0, 0);
    assert_eq!(to_relative_ticks(&d), 0);
}

#[test]
fn exact_conversion_of_one_and_a_half_seconds() {
    // 1 s and 500 ms: -(1 * 10_000_000 + 500_000_000 / 100)
    let d = Duration::new(1, 500_000_000);
    assert_eq!(to_relative_ticks(&d), -15_000_000);
}

#[test]
fn sub_tick_precision_truncates() {
    // 250 ns is 2.5 ticks; the conversion keeps 2, it does not round to 3.
    let d = Duration::new(0, 250);
    assert_eq!(to_relative_ticks(&d), -2);
}

#[test]
fn maximum_representable_duration_converts_exactly() {
    // 922_337_203_685 s * 10_000_000 + 477_580_700 ns / 100 is exactly
    // the largest signed 64-bit tick count.
    let d = Duration::new(922_337_203_685, 477_580_700);
    assert_eq!(to_relative_ticks(&d), -9_223_372_036_854_775_807);
}

#[test]
fn from_millis_matches_explicit_parts() {
    let a = Duration::from_millis(1_500);
    let b = Duration::new(1, 500_000_000);
    assert_eq!(to_relative_ticks(&a), to_relative_ticks(&b));
}

#[test]
fn repeat_period_of_fifty_milliseconds() {
    let d = Duration::from_millis(50);
    assert_eq!(to_repeat_period_millis(&d), 50);
}

#[test]
fn repeat_period_truncates_below_one_millisecond() {
    // 1.5 ms is 15_000 ticks: the period keeps whole milliseconds only.
    let d = Duration::new(0, 1_500_000);
    assert_eq!(to_repeat_period_millis(&d), 1);
}

#[test]
fn arm_once_computes_relative_due_time() {
    let mut timer = NativeTimer::new(true).unwrap();
    assert!(!timer.is_active());
    let cmd: ArmCommand = timer.init_delay(&Duration::from_millis(150));
    assert_eq!(cmd.due_time_ticks, -1_500_000);
    assert_eq!(cmd.repeat_period_millis, 0);
    assert!(timer.is_active());
    run_teardown(&mut timer);
}

#[test]
fn arm_repeating_computes_due_time_and_period() {
    let mut timer = NativeTimer::new(true).unwrap();
    let cmd: ArmCommand = timer.init_interval(&Duration::from_millis(50));
    assert_eq!(cmd.due_time_ticks, -500_000);
    assert_eq!(cmd.repeat_period_millis, 50);
    assert!(timer.is_active());
    run_teardown(&mut timer);
}

#[test]
fn rearming_replaces_the_previous_due_time() {
    let mut timer = NativeTimer::new(true).unwrap();
    let first = timer.init_delay(&Duration::from_millis(150));
    let second = timer.init_delay(&Duration::from_millis(20));
    assert_eq!(first.due_time_ticks, -1_500_000);
    assert_eq!(second.due_time_ticks, -200_000);
    assert!(timer.is_active());
    run_teardown(&mut timer);
}

#[test]
fn creation_failure_produces_no_handle() {
    let r = NativeTimer::new(false);
    assert_eq!(r.unwrap_err(), TimerError::CreationFailed);
}

#[test]
fn arm_failure_leaves_a_disarmed_handle() {
    let mut timer = NativeTimer::new(true).unwrap();
    timer.init_delay(&Duration::from_millis(10));
    assert!(timer.is_active());
    let e = timer.arm_failed();
    assert_eq!(e, TimerError::ArmFailed);
    assert!(!timer.is_active());
    run_teardown(&mut timer);
}

#[test]
fn fire_marks_done_and_wakes() {
    let mut state = TimerState::new();
    state.register_wake(WakeSignal::new());
    assert!(!state.done);
    state.fire();
    assert!(state.done);
    let mut signal = state.wake.unwrap();
    assert!(signal.take());
}

#[test]
fn fire_without_wake_capability_only_marks_done() {
    let mut state = TimerState::new();
    state.fire();
    assert!(state.done);
    assert!(state.wake.is_none());
}

#[test]
fn repeated_wakes_equal_a_single_wake() {
    let mut once = WakeSignal::new();
    once.wake();

    let mut many = WakeSignal::new();
    many.wake();
    many.wake();
    many.wake();

    // The consumer's poll observes the same single pending wakeup.
    assert!(once.take());
    assert!(many.take());
    assert!(!once.take());
    assert!(!many.take());
}

#[test]
fn repeated_fires_equal_a_single_fire_before_poll() {
    let mut state = TimerState::new();
    state.register_wake(WakeSignal::new());
    state.fire();
    state.fire();
    state.fire();
    assert!(state.done);
    let mut signal = state.wake.unwrap();
    assert!(signal.take());
    assert!(!signal.take());
}

#[test]
fn teardown_runs_disarm_then_drain_then_close() {
    let mut timer = NativeTimer::new(true).unwrap();
    timer.init_delay(&Duration::from_millis(0));
    let steps = run_teardown(&mut timer);
    assert_eq!(
        steps,
        vec![TeardownStep::Disarm, TeardownStep::Drain, TeardownStep::Close]
    );
    assert_eq!(timer.next_teardown_step(), None);
    assert!(!timer.is_active());
}

#[test]
fn scenario_one_shot_delay_completes() {
    // A one-shot 150 ms timer: the arm command carries exactly that delay,
    // and once the fire event is delivered, completion is observable.
    let mut timer = NativeTimer::new(true).unwrap();
    let mut state = TimerState::new();
    state.register_wake(WakeSignal::new());

    let cmd = timer.init_delay(&Duration::from_millis(150));
    assert_eq!(cmd.due_time_ticks, -1_500_000);

    state.fire();
    assert!(state.done);
    let mut signal = state.wake.unwrap();
    assert!(signal.take());

    run_teardown(&mut timer);
}

#[test]
fn scenario_repeating_interval_fire_count() {
    // A 50 ms interval observed over 260 ms: nominally floor(260 / 50) = 5
    // fires, squarely within the expected 4 to 6.
    let mut timer = NativeTimer::new(true).unwrap();
    let cmd = timer.init_interval(&Duration::from_millis(50));
    assert_eq!(cmd.repeat_period_millis, 50);

    let fires = expected_fire_count(260, cmd.repeat_period_millis);
    assert_eq!(fires, 5);
    assert!(4 <= fires && fires <= 6);

    let mut state = TimerState::new();
    state.register_wake(WakeSignal::new());
    let mut delivered: u64 = 0;
    while delivered < fires {
        state.fire();
        delivered += 1;
    }
    assert!(state.done);

    run_teardown(&mut timer);
}

#[test]
fn scenario_dispose_without_arming() {
    // Construct, never arm, dispose at once: teardown completes in the same
    // three bounded steps, and the trampoline was never invoked.
    let mut timer = NativeTimer::new(true).unwrap();
    let state = TimerState::new();
    assert!(!timer.is_active());

    let steps = run_teardown(&mut timer);
    assert_eq!(
        steps,
        vec![TeardownStep::Disarm, TeardownStep::Drain, TeardownStep::Close]
    );
    assert!(!state.done);
}
