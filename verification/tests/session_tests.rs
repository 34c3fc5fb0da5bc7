use mawari_orchestrator::github::GHError;
use mawari_orchestrator::github::SessionRecord;
use mawari_orchestrator::github::SessionState;
use mawari_orchestrator::session::plan_for_observation;
use mawari_orchestrator::session::slot_step;
use mawari_orchestrator::session::SlotAction;
use mawari_orchestrator::session::SlotError;
use mawari_orchestrator::session::SlotEvent;
use mawari_orchestrator::session::SlotState;

fn rec(name: &str, state: SessionState) -> SessionRecord {
    SessionRecord {
        name: name.to_string(),
        display_name: "mawari-multi-node-1".to_string(),
        state,
    }
}

#[test]
fn healthy_occupant_is_reused_untouched() {
    // Slot A holds an Available session that passes its probe: the machine
    // reaches Healthy with the same name and never asks for stop, delete or
    // create.
    let (s, a) = plan_for_observation(Some(rec("keep-me", SessionState::Available)));
    assert_eq!(a, SlotAction::Probe);
    let (s, a) = slot_step(s, SlotEvent::ProbeChecked { healthy: true });
    assert_eq!(a, SlotAction::Done);
    assert_eq!(s, SlotState::Healthy { name: "keep-me".to_string() });
}

#[test]
fn absent_slot_creates_exactly_one_session() {
    let mut creates = 0;
    let (s, a) = plan_for_observation(None);
    if a == SlotAction::Create {
        creates += 1;
    }
    assert_eq!(s, SlotState::Creating);
    let (s, a) = slot_step(s, SlotEvent::CreateFinished { result: Ok("fresh".to_string()) });
    assert_eq!(a, SlotAction::CheckSsh);
    assert_eq!(s, SlotState::AwaitingSsh { name: "fresh".to_string(), attempts_left: 10 });
    let (s, a) = slot_step(s, SlotEvent::SshChecked { ready: true });
    assert_eq!(a, SlotAction::RunStartup);
    let (s, a) = slot_step(s, SlotEvent::StartupFinished);
    if a == SlotAction::Create {
        creates += 1;
    }
    assert_eq!(a, SlotAction::Done);
    assert_eq!(s, SlotState::Healthy { name: "fresh".to_string() });
    assert_eq!(creates, 1);
}

#[test]
fn failed_probe_recreates_under_a_new_name() {
    let original = "old-name";
    let (s, a) = plan_for_observation(Some(rec(original, SessionState::Available)));
    assert_eq!(a, SlotAction::Probe);
    let (s, a) = slot_step(s, SlotEvent::ProbeChecked { healthy: false });
    assert_eq!(a, SlotAction::Stop);
    assert_eq!(s, SlotState::Stopping { name: original.to_string() });
    let (s, a) = slot_step(s, SlotEvent::StopFinished);
    assert_eq!(a, SlotAction::Delete);
    let (s, a) = slot_step(s, SlotEvent::DeleteFinished { ok: true });
    assert_eq!(a, SlotAction::Create);
    assert_eq!(s, SlotState::Creating);
    let (s, _) = slot_step(s, SlotEvent::CreateFinished { result: Ok("new-name".to_string()) });
    let (s, _) = slot_step(s, SlotEvent::SshChecked { ready: true });
    let (s, _) = slot_step(s, SlotEvent::StartupFinished);
    match s {
        SlotState::Healthy { name } => assert_ne!(name, original),
        other => panic!("expected a healthy slot, got {:?}", other),
    }
}

#[test]
fn empty_named_occupant_counts_as_absent() {
    // a listed record with no usable name cannot be reused or operated on:
    // the slot is created fresh, so a returned name is never empty
    let (s, a) = plan_for_observation(Some(rec("", SessionState::Available)));
    assert_eq!(a, SlotAction::Create);
    assert_eq!(s, SlotState::Creating);
}

#[test]
fn running_occupant_is_stopped_before_deletion() {
    let (s, a) = plan_for_observation(Some(rec("r", SessionState::Running)));
    assert_eq!(a, SlotAction::Stop);
    assert_eq!(s, SlotState::Stopping { name: "r".to_string() });
}

#[test]
fn stopped_occupant_is_deleted_outright() {
    let (s, a) = plan_for_observation(Some(rec("r", SessionState::Stopped)));
    assert_eq!(a, SlotAction::Delete);
    assert_eq!(s, SlotState::Deleting { name: "r".to_string(), attempts_left: 3 });
}

#[test]
fn delete_retries_three_times_then_proceeds() {
    let s = SlotState::Deleting { name: "stuck".to_string(), attempts_left: 3 };
    let (s, a) = slot_step(s, SlotEvent::DeleteFinished { ok: false });
    assert_eq!(a, SlotAction::Delete);
    assert_eq!(s, SlotState::Deleting { name: "stuck".to_string(), attempts_left: 2 });
    let (s, a) = slot_step(s, SlotEvent::DeleteFinished { ok: false });
    assert_eq!(a, SlotAction::Delete);
    let (s, a) = slot_step(s, SlotEvent::DeleteFinished { ok: false });
    // the third failure is forgiven: creation proceeds anyway
    assert_eq!(a, SlotAction::Create);
    assert_eq!(s, SlotState::Creating);
}

#[test]
fn reachability_polls_time_out_after_ten_attempts() {
    let mut s = SlotState::AwaitingSsh { name: "slow".to_string(), attempts_left: 10 };
    let mut polls = 0;
    loop {
        let (next, a) = slot_step(s, SlotEvent::SshChecked { ready: false });
        polls += 1;
        match a {
            SlotAction::CheckSsh => s = next,
            SlotAction::GiveUp => {
                assert_eq!(
                    next,
                    SlotState::Failed {
                        error: SlotError::SshTimeout { name: "slow".to_string() }
                    }
                );
                break;
            },
            other => panic!("unexpected action {:?}", other),
        }
    }
    assert_eq!(polls, 10);
}

#[test]
fn create_failures_fail_the_slot() {
    let (s, a) = slot_step(SlotState::Creating, SlotEvent::CreateFinished {
        result: Err(GHError::CommandError("boom".to_string())),
    });
    assert_eq!(a, SlotAction::GiveUp);
    assert!(matches!(s, SlotState::Failed { error: SlotError::Create(_) }));
    let (s2, a2) = slot_step(SlotState::Creating, SlotEvent::CreateFinished {
        result: Ok(String::new()),
    });
    assert_eq!(a2, SlotAction::GiveUp);
    assert_eq!(s2, SlotState::Failed { error: SlotError::EmptyCreateName });
}

#[test]
fn mismatched_events_change_nothing() {
    let (s, a) = slot_step(SlotState::Creating, SlotEvent::StopFinished);
    assert_eq!(s, SlotState::Creating);
    assert_eq!(a, SlotAction::Create);
    let healthy = SlotState::Healthy { name: "h".to_string() };
    let (s, a) = slot_step(healthy, SlotEvent::SshChecked { ready: false });
    assert_eq!(s, SlotState::Healthy { name: "h".to_string() });
    assert_eq!(a, SlotAction::Done);
}
