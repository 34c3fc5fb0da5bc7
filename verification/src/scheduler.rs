//! The credential rotation scheduler's decision core: circular index
//! advance, consecutive-failure accounting with escalating cooldowns, and
//! the bounded run-duration computation.
//!
//! The outer loop lives in the binary; after each outside operation it hands
//! the outcome to `scheduler_step` and obeys the returned context and pause.

use vstd::prelude::*;
use vstd::arithmetic::div_mod::lemma_add_mod_noop;

verus! {

/// Consecutive failures tolerated before a cooldown fires.
pub const MAX_FAILURES: u64 = 3;

/// Cooldown after repeated credential-resolution failures.
pub const AUTH_COOLDOWN_SECS: u64 = 600;

/// Cooldown after repeated lifecycle failures.
pub const LIFECYCLE_COOLDOWN_SECS: u64 = 900;

/// Short retry delay after an isolated lifecycle failure.
pub const LIFECYCLE_RETRY_SECS: u64 = 300;

/// Pause after rotating away from a credential.
pub const ROTATE_PAUSE_SECS: u64 = 5;

/// Pause after a completed run window, before the next credential.
pub const CYCLE_PAUSE_SECS: u64 = 30;

/// Safety margin subtracted from the quota estimate, in milli-hours.
pub const RUN_MARGIN_MILLI_HOURS: u64 = 500;

/// Shortest run window, in milli-hours (30 minutes).
pub const RUN_MIN_MILLI_HOURS: u64 = 500;

/// Longest run window, in milli-hours (20 hours).
pub const RUN_MAX_MILLI_HOURS: u64 = 20_000;

/// The scheduler's per-step context.
#[derive(Clone, Copy, Debug, PartialEq, Eq, Structural)]
pub struct SchedulerCtx {
    pub index: usize,
    pub consecutive_failures: u64,
}

/// What the last outside operation of the current step reported.
#[derive(Clone, Copy, Debug, PartialEq, Eq, Structural)]
pub enum SchedulerEvent {
    /// The credential could not be resolved (invalid or unreachable).
    AuthFailed,
    /// The credential resolved; the failure streak is over.
    AuthSucceeded,
    /// The quota gate refused (or the usage report was unreadable).
    QuotaExhausted,
    /// The lifecycle manager could not bring both slots up.
    LifecycleFailed,
    /// Both slots are healthy; the failure streak is over.
    LifecycleSucceeded,
    /// The run window elapsed.
    CycleCompleted,
}

/// The context is valid for a pool of `n` credentials.
pub open spec fn ctx_wf(ctx: SchedulerCtx, n: nat) -> bool {
    &&& (ctx.index as nat) < n
    &&& ctx.consecutive_failures < MAX_FAILURES
}

/// The circularly advanced index.
pub open spec fn next_index_spec(i: nat, n: nat) -> nat
    recommends
        n > 0,
{
    (((i + 1) as int) % (n as int)) as nat
}

/// The context after one step: auth and quota trouble rotate the index
/// (auth trouble also counts toward the cooldown streak); lifecycle trouble
/// counts toward the streak but never rotates; successes end the streak; a
/// completed window rotates.
pub open spec fn sched_next(ctx: SchedulerCtx, ev: SchedulerEvent, n: nat) -> SchedulerCtx
    recommends
        n > 0,
{
    match ev {
        SchedulerEvent::AuthFailed => SchedulerCtx {
            index: next_index_spec(ctx.index as nat, n) as usize,
            consecutive_failures: if ctx.consecutive_failures + 1 >= MAX_FAILURES {
                0
            } else {
                (ctx.consecutive_failures + 1) as u64
            },
        },
        SchedulerEvent::AuthSucceeded => SchedulerCtx { index: ctx.index, consecutive_failures: 0 },
        SchedulerEvent::QuotaExhausted => SchedulerCtx {
            index: next_index_spec(ctx.index as nat, n) as usize,
            consecutive_failures: ctx.consecutive_failures,
        },
        SchedulerEvent::LifecycleFailed => SchedulerCtx {
            index: ctx.index,
            consecutive_failures: if ctx.consecutive_failures + 1 >= MAX_FAILURES {
                0
            } else {
                (ctx.consecutive_failures + 1) as u64
            },
        },
        SchedulerEvent::LifecycleSucceeded => SchedulerCtx {
            index: ctx.index,
            consecutive_failures: 0,
        },
        SchedulerEvent::CycleCompleted => SchedulerCtx {
            index: next_index_spec(ctx.index as nat, n) as usize,
            consecutive_failures: ctx.consecutive_failures,
        },
    }
}

/// How long the loop pauses after the step: escalating cooldowns when a
/// failure streak reaches the tolerance, short fixed pauses otherwise.
pub open spec fn sched_sleep(ctx: SchedulerCtx, ev: SchedulerEvent) -> u64 {
    match ev {
        SchedulerEvent::AuthFailed => if ctx.consecutive_failures + 1 >= MAX_FAILURES {
            (AUTH_COOLDOWN_SECS + ROTATE_PAUSE_SECS) as u64
        } else {
            ROTATE_PAUSE_SECS
        },
        SchedulerEvent::AuthSucceeded => 0,
        SchedulerEvent::QuotaExhausted => ROTATE_PAUSE_SECS,
        SchedulerEvent::LifecycleFailed => if ctx.consecutive_failures + 1 >= MAX_FAILURES {
            LIFECYCLE_COOLDOWN_SECS
        } else {
            LIFECYCLE_RETRY_SECS
        },
        SchedulerEvent::LifecycleSucceeded => 0,
        SchedulerEvent::CycleCompleted => CYCLE_PAUSE_SECS,
    }
}

/// Advance the credential index circularly.
pub fn advance_index(i: usize, n: usize) -> (r: usize)
    requires
        0 < n,
        i < n,
    ensures
        r as nat == next_index_spec(i as nat, n as nat),
        r < n,
{
    (i + 1) % n
}

/// Take one scheduler step: the new context and the pause to observe.
pub fn scheduler_step(ctx: SchedulerCtx, event: SchedulerEvent, n: usize) -> (r: (
    SchedulerCtx,
    u64,
))
    requires
        0 < n,
        ctx_wf(ctx, n as nat),
    ensures
        r.0 == sched_next(ctx, event, n as nat),
        r.1 == sched_sleep(ctx, event),
        ctx_wf(r.0, n as nat),
{
    match event {
        SchedulerEvent::AuthFailed => {
            let f = ctx.consecutive_failures + 1;
            if f >= MAX_FAILURES {
                (SchedulerCtx { index: advance_index(ctx.index, n), consecutive_failures: 0 },
                AUTH_COOLDOWN_SECS + ROTATE_PAUSE_SECS)
            } else {
                (SchedulerCtx { index: advance_index(ctx.index, n), consecutive_failures: f },
                ROTATE_PAUSE_SECS)
            }
        },
        SchedulerEvent::AuthSucceeded => (
            SchedulerCtx { index: ctx.index, consecutive_failures: 0 },
            0,
        ),
        SchedulerEvent::QuotaExhausted => (
            SchedulerCtx {
                index: advance_index(ctx.index, n),
                consecutive_failures: ctx.consecutive_failures,
            },
            ROTATE_PAUSE_SECS,
        ),
        SchedulerEvent::LifecycleFailed => {
            let f = ctx.consecutive_failures + 1;
            if f >= MAX_FAILURES {
                (SchedulerCtx { index: ctx.index, consecutive_failures: 0 }, LIFECYCLE_COOLDOWN_SECS)
            } else {
                (SchedulerCtx { index: ctx.index, consecutive_failures: f }, LIFECYCLE_RETRY_SECS)
            }
        },
        SchedulerEvent::LifecycleSucceeded => (
            SchedulerCtx { index: ctx.index, consecutive_failures: 0 },
            0,
        ),
        SchedulerEvent::CycleCompleted => (
            SchedulerCtx {
                index: advance_index(ctx.index, n),
                consecutive_failures: ctx.consecutive_failures,
            },
            CYCLE_PAUSE_SECS,
        ),
    }
}

/// Recover a persisted index for a pool of `n` credentials: out-of-range
/// values clamp to 0.
pub fn clamp_index(i: usize, n: usize) -> (r: usize)
    requires
        0 < n,
    ensures
        r == (if i < n {
            i as int
        } else {
            0
        }),
        r < n,
{
    if i < n {
        i
    } else {
        0
    }
}

/// The index after `steps` rotations from `start`.
pub open spec fn rotated_index(start: nat, steps: nat, n: nat) -> nat
    recommends
        n > 0,
    decreases steps,
{
    if steps == 0 {
        start
    } else {
        next_index_spec(rotated_index(start, (steps - 1) as nat, n), n)
    }
}

/// Law: rotation is circular.  After `steps` rotations from `start` the
/// index is `(start + steps) mod n`; from 0 that is `steps mod n`.
pub proof fn lemma_rotation_circular(start: nat, steps: nat, n: nat)
    requires
        n > 0,
        start < n,
    ensures
        rotated_index(start, steps, n) as int == ((start + steps) as int) % (n as int),
    decreases steps,
{
    let m = n as int;
    if steps == 0 {
        assert((start as int) % m == start as int) by {
            vstd::arithmetic::div_mod::lemma_small_mod(start, n);
        }
    } else {
        lemma_rotation_circular(start, (steps - 1) as nat, n);
        let x: int = start as int + steps as int - 1;
        let prev: int = x % m;
        assert(rotated_index(start, steps, n) as int == (prev + 1) % m);
        lemma_add_mod_noop(x, 1, m);
        if n == 1 {
            assert((prev + 1) % m == (x + 1) % m);
        } else {
            assert(1int % m == 1) by {
                vstd::arithmetic::div_mod::lemma_small_mod(1, n);
            }
            assert((prev + 1) % m == (x + 1) % m);
        }
    }
}

/// Law: auth and quota trouble rotate to the next credential; lifecycle
/// trouble retries the same credential, never rotating.
pub proof fn lemma_failure_rotation_policy(ctx: SchedulerCtx, n: nat)
    requires
        0 < n <= usize::MAX,
    ensures
        sched_next(ctx, SchedulerEvent::AuthFailed, n).index as nat == next_index_spec(
            ctx.index as nat,
            n,
        ),
        sched_next(ctx, SchedulerEvent::QuotaExhausted, n).index as nat == next_index_spec(
            ctx.index as nat,
            n,
        ),
        sched_next(ctx, SchedulerEvent::LifecycleFailed, n).index == ctx.index,
{
}

/// Law: for every non-empty pool, the index after `steps` rotations from a
/// fresh start is `steps mod n`.
pub proof fn lemma_rotation_from_zero(steps: nat, n: nat)
    requires
        n > 0,
    ensures
        rotated_index(0, steps, n) as int == (steps as int) % (n as int),
{
    lemma_rotation_circular(0, steps, n);
}

/// The run window earned by a quota estimate: the estimate minus the safety
/// margin, bounded to [30 minutes, 20 hours], in milli-hours.
pub open spec fn run_window_milli_hours(hours_remaining_milli: nat) -> nat {
    let after_margin: nat = if hours_remaining_milli >= RUN_MARGIN_MILLI_HOURS {
        (hours_remaining_milli - RUN_MARGIN_MILLI_HOURS) as nat
    } else {
        0
    };
    if after_margin < RUN_MIN_MILLI_HOURS {
        RUN_MIN_MILLI_HOURS as nat
    } else if after_margin > RUN_MAX_MILLI_HOURS {
        RUN_MAX_MILLI_HOURS as nat
    } else {
        after_margin
    }
}

/// Compute the run window in whole seconds from the quota gate's estimate.
pub fn run_duration_secs(hours_remaining_milli: u64) -> (r: u64)
    ensures
        r == run_window_milli_hours(hours_remaining_milli as nat) * 3600 / 1000,
        1800 <= r <= 72_000,
{
    let after_margin: u64 = if hours_remaining_milli >= RUN_MARGIN_MILLI_HOURS {
        hours_remaining_milli - RUN_MARGIN_MILLI_HOURS
    } else {
        0
    };
    let bounded: u64 = if after_margin < RUN_MIN_MILLI_HOURS {
        RUN_MIN_MILLI_HOURS
    } else if after_margin > RUN_MAX_MILLI_HOURS {
        RUN_MAX_MILLI_HOURS
    } else {
        after_margin
    };
    bounded * 3600 / 1000
}

} // verus!
