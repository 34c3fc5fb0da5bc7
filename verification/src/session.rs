//! The per-slot session lifecycle state machine.
//!
//! Each of the two logical slots is reconciled by driving this machine:
//! inspect, health-check, repair (stop, delete with bounded retries,
//! recreate) and bring-up (bounded reachability polling, then one bootstrap
//! run).  The machine only decides; the surrounding binary performs each
//! returned action against the provider and feeds the outcome back as the
//! next event.

use vstd::prelude::*;
use crate::github::GHError;
use crate::github::SessionRecord;
use crate::github::SessionState;
use vstd::string::StrSliceExecFns;

verus! {

/// Delete attempts before the manager gives up and proceeds as if the
/// deletion had succeeded (kept from the original policy; a stuck session
/// may then still occupy the display-name slot).
pub const DELETE_ATTEMPTS: u8 = 3;

/// Reachability polls before bring-up reports a timeout.
pub const SSH_ATTEMPTS: u8 = 10;

/// Seconds between reachability polls.
pub const SSH_POLL_SECS: u64 = 30;

/// Settling delay between provisioning slot 1 and slot 2.
pub const SETTLE_SECS: u64 = 10;

/// Pause after a successful stop.
pub const STOP_OK_PAUSE_SECS: u64 = 3;

/// Pause after a failed (forgiven) stop.
pub const STOP_ERR_PAUSE_SECS: u64 = 2;

/// Pause after a successful delete.
pub const DELETE_OK_PAUSE_SECS: u64 = 2;

/// Pause before retrying a failed delete.
pub const DELETE_RETRY_PAUSE_SECS: u64 = 3;

/// Pause after the repair pass, before recreating.
pub const POST_DELETE_PAUSE_SECS: u64 = 3;

/// Why a slot could not be brought up.
#[derive(Debug, Clone, PartialEq, Eq)]
pub enum SlotError {
    /// The create call failed outright.
    Create(GHError),
    /// The create call answered with an empty name.
    EmptyCreateName,
    /// The session never became reachable within the poll budget.
    SshTimeout { name: String },
}

/// Where a slot stands in its reconciliation.
#[derive(Debug, Clone, PartialEq, Eq)]
pub enum SlotState {
    /// An `Available` session occupies the slot; its health probe is pending.
    Probing { name: String },
    /// The occupying session is unhealthy and running; a stop is pending.
    Stopping { name: String },
    /// A delete of the unhealthy session is pending, with retries left.
    Deleting { name: String, attempts_left: u8 },
    /// The slot is free; a create is pending.
    Creating,
    /// A fresh session exists; reachability polls are pending.
    AwaitingSsh { name: String, attempts_left: u8 },
    /// The session is reachable; its one bootstrap run is pending.
    RunningStartup { name: String },
    /// Terminal: the slot holds a session that passed or just completed
    /// bootstrap.
    Healthy { name: String },
    /// Terminal: the slot could not be brought up.
    Failed { error: SlotError },
}

/// Outcome of the outside operation the machine last asked for.
#[derive(Debug, PartialEq, Eq)]
pub enum SlotEvent {
    /// The health probe's verdict.
    ProbeChecked { healthy: bool },
    /// The stop finished (its own outcome is forgiven either way).
    StopFinished,
    /// One delete attempt's verdict.
    DeleteFinished { ok: bool },
    /// The create call's answer: the provider-assigned name.
    CreateFinished { result: Result<String, GHError> },
    /// One reachability poll's verdict.
    SshChecked { ready: bool },
    /// The bootstrap ran (its own exit status is forgiven).
    StartupFinished,
}

/// What the binary must do next for this slot.
#[derive(Debug, Clone, Copy, PartialEq, Eq, Structural)]
pub enum SlotAction {
    /// Run the health probe on the state's session.
    Probe,
    /// Stop the state's session (best effort).
    Stop,
    /// Run one delete attempt on the state's session.
    Delete,
    /// Create a session for this slot with the fixed resource parameters.
    Create,
    /// Poll SSH reachability once, after `SSH_POLL_SECS`.
    CheckSsh,
    /// Execute the bootstrap script once.
    RunStartup,
    /// The slot is healthy; nothing is pending.
    Done,
    /// The slot failed; hand the error to the scheduler.
    GiveUp,
}

/// The action a state is waiting on; a mismatched event re-issues it.
pub open spec fn awaited_action(s: SlotState) -> SlotAction {
    match s {
        SlotState::Probing { .. } => SlotAction::Probe,
        SlotState::Stopping { .. } => SlotAction::Stop,
        SlotState::Deleting { .. } => SlotAction::Delete,
        SlotState::Creating => SlotAction::Create,
        SlotState::AwaitingSsh { .. } => SlotAction::CheckSsh,
        SlotState::RunningStartup { .. } => SlotAction::RunStartup,
        SlotState::Healthy { .. } => SlotAction::Done,
        SlotState::Failed { .. } => SlotAction::GiveUp,
    }
}

/// Where reconciliation of a slot begins, given what the listing showed for
/// it: an `Available` occupant is probed; a `Running` one is unhealthy by
/// definition (only `Available` sessions are probed) and is stopped first;
/// any other occupant is deleted outright; an empty slot goes straight to
/// creation.  A record whose name is empty cannot be operated on and counts
/// as an empty slot, so a returned name is never empty.
pub open spec fn plan_spec(found: Option<SessionRecord>) -> (SlotState, SlotAction) {
    match found {
        None => (SlotState::Creating, SlotAction::Create),
        Some(rec) => {
            if rec.name@.len() == 0 {
                (SlotState::Creating, SlotAction::Create)
            } else if rec.state == SessionState::Available {
                (SlotState::Probing { name: rec.name }, SlotAction::Probe)
            } else if rec.state == SessionState::Running {
                (SlotState::Stopping { name: rec.name }, SlotAction::Stop)
            } else {
                (
                    SlotState::Deleting { name: rec.name, attempts_left: DELETE_ATTEMPTS },
                    SlotAction::Delete,
                )
            }
        },
    }
}

/// The machine's transition function.
///
/// A failed delete is retried while attempts remain; exhausting them
/// proceeds to creation anyway, as the original policy does.  A failed
/// reachability poll is retried while attempts remain; exhausting them is a
/// timeout failure naming the slot's session.  Terminal states absorb every
/// event, and an event that does not fit the state changes nothing and
/// re-issues the awaited action.
pub open spec fn slot_next(s: SlotState, e: SlotEvent) -> (SlotState, SlotAction) {
    match (s, e) {
        (SlotState::Probing { name }, SlotEvent::ProbeChecked { healthy }) => {
            if healthy {
                (SlotState::Healthy { name }, SlotAction::Done)
            } else {
                (SlotState::Stopping { name }, SlotAction::Stop)
            }
        },
        (SlotState::Stopping { name }, SlotEvent::StopFinished) => (
            SlotState::Deleting { name, attempts_left: DELETE_ATTEMPTS },
            SlotAction::Delete,
        ),
        (SlotState::Deleting { name, attempts_left }, SlotEvent::DeleteFinished { ok }) => {
            if ok || attempts_left <= 1 {
                (SlotState::Creating, SlotAction::Create)
            } else {
                (
                    SlotState::Deleting { name, attempts_left: (attempts_left - 1) as u8 },
                    SlotAction::Delete,
                )
            }
        },
        (SlotState::Creating, SlotEvent::CreateFinished { result }) => {
            match result {
                Ok(name) => {
                    if name@.len() == 0 {
                        (SlotState::Failed { error: SlotError::EmptyCreateName }, SlotAction::GiveUp)
                    } else {
                        (
                            SlotState::AwaitingSsh { name, attempts_left: SSH_ATTEMPTS },
                            SlotAction::CheckSsh,
                        )
                    }
                },
                Err(e) => (SlotState::Failed { error: SlotError::Create(e) }, SlotAction::GiveUp),
            }
        },
        (SlotState::AwaitingSsh { name, attempts_left }, SlotEvent::SshChecked { ready }) => {
            if ready {
                (SlotState::RunningStartup { name }, SlotAction::RunStartup)
            } else if attempts_left <= 1 {
                (SlotState::Failed { error: SlotError::SshTimeout { name } }, SlotAction::GiveUp)
            } else {
                (
                    SlotState::AwaitingSsh { name, attempts_left: (attempts_left - 1) as u8 },
                    SlotAction::CheckSsh,
                )
            }
        },
        (SlotState::RunningStartup { name }, SlotEvent::StartupFinished) => (
            SlotState::Healthy { name },
            SlotAction::Done,
        ),
        (s, _) => {
            let a = awaited_action(s);
            (s, a)
        },
    }
}

/// Decide where reconciliation of a slot begins from its listing scan.
pub fn plan_for_observation(found: Option<SessionRecord>) -> (r: (SlotState, SlotAction))
    ensures
        r == plan_spec(found),
{
    match found {
        None => (SlotState::Creating, SlotAction::Create),
        Some(rec) => {
            if rec.name.as_str().unicode_len() == 0 {
                (SlotState::Creating, SlotAction::Create)
            } else if rec.state == SessionState::Available {
                (SlotState::Probing { name: rec.name }, SlotAction::Probe)
            } else if rec.state == SessionState::Running {
                (SlotState::Stopping { name: rec.name }, SlotAction::Stop)
            } else {
                (
                    SlotState::Deleting { name: rec.name, attempts_left: DELETE_ATTEMPTS },
                    SlotAction::Delete,
                )
            }
        },
    }
}

/// Take one step of the slot machine.
pub fn slot_step(state: SlotState, event: SlotEvent) -> (r: (SlotState, SlotAction))
    ensures
        r == slot_next(state, event),
{
    match (state, event) {
        (SlotState::Probing { name }, SlotEvent::ProbeChecked { healthy }) => {
            if healthy {
                (SlotState::Healthy { name }, SlotAction::Done)
            } else {
                (SlotState::Stopping { name }, SlotAction::Stop)
            }
        },
        (SlotState::Stopping { name }, SlotEvent::StopFinished) => (
            SlotState::Deleting { name, attempts_left: DELETE_ATTEMPTS },
            SlotAction::Delete,
        ),
        (SlotState::Deleting { name, attempts_left }, SlotEvent::DeleteFinished { ok }) => {
            if ok || attempts_left <= 1 {
                (SlotState::Creating, SlotAction::Create)
            } else {
                (
                    SlotState::Deleting { name, attempts_left: attempts_left - 1 },
                    SlotAction::Delete,
                )
            }
        },
        (SlotState::Creating, SlotEvent::CreateFinished { result }) => {
            match result {
                Ok(name) => {
                    if name.as_str().unicode_len() == 0 {
                        (SlotState::Failed { error: SlotError::EmptyCreateName }, SlotAction::GiveUp)
                    } else {
                        (
                            SlotState::AwaitingSsh { name, attempts_left: SSH_ATTEMPTS },
                            SlotAction::CheckSsh,
                        )
                    }
                },
                Err(e) => (SlotState::Failed { error: SlotError::Create(e) }, SlotAction::GiveUp),
            }
        },
        (SlotState::AwaitingSsh { name, attempts_left }, SlotEvent::SshChecked { ready }) => {
            if ready {
                (SlotState::RunningStartup { name }, SlotAction::RunStartup)
            } else if attempts_left <= 1 {
                (SlotState::Failed { error: SlotError::SshTimeout { name } }, SlotAction::GiveUp)
            } else {
                (
                    SlotState::AwaitingSsh { name, attempts_left: attempts_left - 1 },
                    SlotAction::CheckSsh,
                )
            }
        },
        (SlotState::RunningStartup { name }, SlotEvent::StartupFinished) => (
            SlotState::Healthy { name },
            SlotAction::Done,
        ),
        (s, _) => {
            let a = match &s {
                SlotState::Probing { .. } => SlotAction::Probe,
                SlotState::Stopping { .. } => SlotAction::Stop,
                SlotState::Deleting { .. } => SlotAction::Delete,
                SlotState::Creating => SlotAction::Create,
                SlotState::AwaitingSsh { .. } => SlotAction::CheckSsh,
                SlotState::RunningStartup { .. } => SlotAction::RunStartup,
                SlotState::Healthy { .. } => SlotAction::Done,
                SlotState::Failed { .. } => SlotAction::GiveUp,
            };
            (s, a)
        },
    }
}

} // verus!
