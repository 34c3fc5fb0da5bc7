use mawari_orchestrator::keepalive::count_keepalive_cycles;
use mawari_orchestrator::keepalive::keepalive_step;
use mawari_orchestrator::keepalive::KeepAliveStep;
use mawari_orchestrator::scheduler::advance_index;
use mawari_orchestrator::scheduler::clamp_index;
use mawari_orchestrator::scheduler::run_duration_secs;
use mawari_orchestrator::scheduler::scheduler_step;
use mawari_orchestrator::scheduler::SchedulerCtx;
use mawari_orchestrator::scheduler::SchedulerEvent;

#[test]
fn rotation_is_circular() {
    assert_eq!(advance_index(0, 3), 1);
    assert_eq!(advance_index(2, 3), 0);
    assert_eq!(advance_index(1, 2), 0);
    // twelve steps around a pool of five land on 12 mod 5
    let mut i = 0;
    for _ in 0..12 {
        i = advance_index(i, 5);
    }
    assert_eq!(i, 12 % 5);
}

#[test]
fn out_of_range_index_clamps_to_zero() {
    assert_eq!(clamp_index(7, 3), 0);
    assert_eq!(clamp_index(3, 3), 0);
    assert_eq!(clamp_index(2, 3), 2);
}

#[test]
fn three_auth_failures_cool_down_and_reset() {
    // pool of 2, the failing credential: after 3 consecutive failures a
    // cooldown fires, the counter resets, and rotation stands at the second
    // credential
    let n = 2;
    let ctx = SchedulerCtx { index: 0, consecutive_failures: 0 };
    let (ctx, sleep) = scheduler_step(ctx, SchedulerEvent::AuthFailed, n);
    assert_eq!((ctx.index, ctx.consecutive_failures, sleep), (1, 1, 5));
    let (ctx, sleep) = scheduler_step(ctx, SchedulerEvent::AuthFailed, n);
    assert_eq!((ctx.index, ctx.consecutive_failures, sleep), (0, 2, 5));
    let (ctx, sleep) = scheduler_step(ctx, SchedulerEvent::AuthFailed, n);
    assert_eq!(sleep, 605);
    assert_eq!(ctx.consecutive_failures, 0);
    assert_eq!(ctx.index, 1);
}

#[test]
fn quota_exhaustion_rotates_without_cooldown() {
    let ctx = SchedulerCtx { index: 1, consecutive_failures: 2 };
    let (ctx, sleep) = scheduler_step(ctx, SchedulerEvent::QuotaExhausted, 3);
    assert_eq!(ctx.index, 2);
    assert_eq!(ctx.consecutive_failures, 2);
    assert_eq!(sleep, 5);
}

#[test]
fn lifecycle_failures_retry_in_place() {
    let n = 4;
    let ctx = SchedulerCtx { index: 2, consecutive_failures: 0 };
    let (ctx, sleep) = scheduler_step(ctx, SchedulerEvent::LifecycleFailed, n);
    assert_eq!((ctx.index, ctx.consecutive_failures, sleep), (2, 1, 300));
    let (ctx, sleep) = scheduler_step(ctx, SchedulerEvent::LifecycleFailed, n);
    assert_eq!((ctx.index, ctx.consecutive_failures, sleep), (2, 2, 300));
    let (ctx, sleep) = scheduler_step(ctx, SchedulerEvent::LifecycleFailed, n);
    // the escalated cooldown still does not rotate
    assert_eq!((ctx.index, ctx.consecutive_failures, sleep), (2, 0, 900));
}

#[test]
fn successes_end_the_failure_streak() {
    let ctx = SchedulerCtx { index: 1, consecutive_failures: 2 };
    let (ctx2, sleep) = scheduler_step(ctx, SchedulerEvent::AuthSucceeded, 3);
    assert_eq!((ctx2.index, ctx2.consecutive_failures, sleep), (1, 0, 0));
    let (ctx3, sleep) = scheduler_step(ctx, SchedulerEvent::LifecycleSucceeded, 3);
    assert_eq!((ctx3.index, ctx3.consecutive_failures, sleep), (1, 0, 0));
}

#[test]
fn completed_cycle_rotates_with_short_pause() {
    let ctx = SchedulerCtx { index: 2, consecutive_failures: 0 };
    let (ctx, sleep) = scheduler_step(ctx, SchedulerEvent::CycleCompleted, 3);
    assert_eq!(ctx.index, 0);
    assert_eq!(sleep, 30);
}

#[test]
fn run_window_is_bounded() {
    // a 4.0-hour estimate runs 3.5 hours after the safety margin
    assert_eq!(run_duration_secs(4_000), 12_600);
    // a tiny estimate still runs the 30-minute floor
    assert_eq!(run_duration_secs(100), 1_800);
    assert_eq!(run_duration_secs(0), 1_800);
    // a huge estimate is capped at 20 hours
    assert_eq!(run_duration_secs(1_000_000), 72_000);
    // exactly at the margin: floor again
    assert_eq!(run_duration_secs(500), 1_800);
}

#[test]
fn four_hour_window_fires_exactly_one_cycle() {
    // duration 4h, interval 3.5h: sleep 3.5h, one cycle fires, sleep the
    // remaining 0.5h, window ends
    assert_eq!(count_keepalive_cycles(4 * 3600), 1);
    assert_eq!(
        keepalive_step(0, 14_400),
        KeepAliveStep::Sleep { secs: 12_600, run_cycle: true }
    );
    assert_eq!(
        keepalive_step(12_600, 14_400),
        KeepAliveStep::Sleep { secs: 1_800, run_cycle: false }
    );
    assert_eq!(keepalive_step(14_400, 14_400), KeepAliveStep::Finished);
}

#[test]
fn short_windows_exit_early() {
    assert_eq!(keepalive_step(0, 30), KeepAliveStep::ExitEarly);
    assert_eq!(count_keepalive_cycles(30), 0);
    assert_eq!(count_keepalive_cycles(0), 0);
}

#[test]
fn long_windows_fire_repeatedly() {
    // 10.5h: two full sleeps fire cycles, the third ends the window
    assert_eq!(count_keepalive_cycles(3 * 12_600), 2);
    // 3.5h sharp: one sleep ends the window, no cycle
    assert_eq!(count_keepalive_cycles(12_600), 0);
}
