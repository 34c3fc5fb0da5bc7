//! The keep-alive sub-loop's schedule: during a run window the loop sleeps
//! `min(remaining, interval)`, exits early when under a minute would remain,
//! and otherwise re-runs each session's bootstrap after waking.
//!
//! The binary performs the sleeps and remote executions; the arithmetic that
//! decides them is here, on whole seconds.

use vstd::prelude::*;

verus! {

/// Seconds between keep-alive cycles (3.5 hours).
pub const KEEP_ALIVE_INTERVAL_SECS: u64 = 12_600;

/// Remaining time under which the loop exits early (one minute).
pub const MIN_SLEEP_SECS: u64 = 60;

/// Pause between the two sessions' keep-alive executions.
pub const RESTART_GAP_SECS: u64 = 5;

/// What the loop does next at a given elapsed point.
#[derive(Clone, Copy, Debug, PartialEq, Eq, Structural)]
pub enum KeepAliveStep {
    /// The window has elapsed.
    Finished,
    /// Under a minute would remain: leave the window early.
    ExitEarly,
    /// Sleep `secs`; when `run_cycle` holds, wake inside the window and
    /// re-run each session's bootstrap, else the window ends with the sleep.
    Sleep { secs: u64, run_cycle: bool },
}

/// The loop's decision at `elapsed` seconds into a window of `duration`
/// seconds.
pub open spec fn keepalive_step_spec(elapsed: nat, duration: nat) -> KeepAliveStep {
    if elapsed >= duration {
        KeepAliveStep::Finished
    } else {
        let remaining = (duration - elapsed) as nat;
        let sleep_for: nat = if remaining < KEEP_ALIVE_INTERVAL_SECS {
            remaining
        } else {
            KEEP_ALIVE_INTERVAL_SECS as nat
        };
        if sleep_for < MIN_SLEEP_SECS {
            KeepAliveStep::ExitEarly
        } else {
            KeepAliveStep::Sleep {
                secs: sleep_for as u64,
                run_cycle: elapsed + sleep_for < duration,
            }
        }
    }
}

/// How many keep-alive cycles fire in the rest of a window.
pub open spec fn keepalive_cycles(elapsed: nat, duration: nat) -> nat
    decreases duration - elapsed,
{
    match keepalive_step_spec(elapsed, duration) {
        KeepAliveStep::Finished => 0,
        KeepAliveStep::ExitEarly => 0,
        KeepAliveStep::Sleep { secs, run_cycle } => {
            if run_cycle {
                1 + keepalive_cycles((elapsed + secs) as nat, duration)
            } else {
                0
            }
        },
    }
}

/// Law: the loop never sleeps longer than the keep-alive interval and never
/// past the end of the window.
pub proof fn lemma_sleep_bounded(elapsed: nat, duration: nat)
    ensures
        keepalive_step_spec(elapsed, duration) matches KeepAliveStep::Sleep { secs, .. } ==> {
            &&& secs <= KEEP_ALIVE_INTERVAL_SECS
            &&& elapsed + secs <= duration
        },
{
}

/// Decide the loop's next move.
pub fn keepalive_step(elapsed: u64, duration: u64) -> (r: KeepAliveStep)
    ensures
        r == keepalive_step_spec(elapsed as nat, duration as nat),
{
    if elapsed >= duration {
        KeepAliveStep::Finished
    } else {
        let remaining = duration - elapsed;
        let sleep_for = if remaining < KEEP_ALIVE_INTERVAL_SECS {
            remaining
        } else {
            KEEP_ALIVE_INTERVAL_SECS
        };
        if sleep_for < MIN_SLEEP_SECS {
            KeepAliveStep::ExitEarly
        } else {
            KeepAliveStep::Sleep { secs: sleep_for, run_cycle: elapsed + sleep_for < duration }
        }
    }
}

/// Count the keep-alive cycles a whole window fires.
pub fn count_keepalive_cycles(duration: u64) -> (r: u64)
    ensures
        r as nat == keepalive_cycles(0, duration as nat),
{
    let mut elapsed: u64 = 0;
    let mut count: u64 = 0;
    loop
        invariant
            elapsed <= duration,
            count * KEEP_ALIVE_INTERVAL_SECS <= elapsed,
            count as nat + keepalive_cycles(elapsed as nat, duration as nat) == keepalive_cycles(
                0,
                duration as nat,
            ),
        decreases duration - elapsed,
    {
        let step = keepalive_step(elapsed, duration);
        match step {
            KeepAliveStep::Finished => {
                return count;
            },
            KeepAliveStep::ExitEarly => {
                return count;
            },
            KeepAliveStep::Sleep { secs, run_cycle } => {
                if run_cycle {
                    elapsed = elapsed + secs;
                    count = count + 1;
                } else {
                    return count;
                }
            },
        }
    }
}

} // verus!
