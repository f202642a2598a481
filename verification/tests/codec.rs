use santi_core::codec::{
    ActorType, EffectState, EffectTransitionReason, MessageKind, MessageState, StrandTargetType,
    ThinkingCompletionReason, ThinkingSpanState, TurnStatus, TurnTriggerType,
};
use santi_core::receipt::{
    begin_turn_steps, decode_states, end_turn_steps, receipt_state_db, receipt_state_from_db,
    settles_with_turn, ReceiptState,
};

#[test]
fn effect_states_round_trip() {
    for s in [
        EffectState::Prepared,
        EffectState::Dispatching,
        EffectState::Unknown,
        EffectState::Confirmed,
        EffectState::NotDispatched,
        EffectState::ResolvedApplied,
        EffectState::ResolvedNotApplied,
    ] {
        assert_eq!(EffectState::decode(s.encode()), s);
    }
    assert_eq!(EffectState::NotDispatched.encode(), "not_dispatched");
    assert_eq!(EffectState::decode("garbage"), EffectState::Unknown);
}

#[test]
fn effect_reasons_round_trip() {
    for r in [
        EffectTransitionReason::IntentPersisted,
        EffectTransitionReason::DispatchWindowOpened,
        EffectTransitionReason::ResultPersisted,
        EffectTransitionReason::DispatchRejected,
        EffectTransitionReason::RestartBeforeDispatch,
        EffectTransitionReason::RestartDuringDispatch,
        EffectTransitionReason::TurnFailedBeforeDispatch,
        EffectTransitionReason::TurnFailedDuringDispatch,
        EffectTransitionReason::ResultCaptureFailed,
        EffectTransitionReason::OperatorResolvedApplied,
        EffectTransitionReason::OperatorResolvedNotApplied,
        EffectTransitionReason::LegacyImport,
    ] {
        assert_eq!(EffectTransitionReason::decode(r.encode()), r);
    }
    assert_eq!(EffectTransitionReason::decode("x"), EffectTransitionReason::LegacyImport);
}

#[test]
fn message_codecs() {
    assert_eq!(ActorType::decode(ActorType::Soul.encode()), ActorType::Soul);
    assert_eq!(ActorType::decode("whatever"), ActorType::System);
    assert_eq!(MessageState::decode(MessageState::Pending.encode()), MessageState::Pending);
    assert_eq!(MessageState::decode(MessageState::Aborted.encode()), MessageState::Aborted);
    assert_eq!(MessageState::decode("x"), MessageState::Fixed);
    assert_eq!(MessageKind::SantiSystem.encode(), "santi_system");
    assert_eq!(MessageKind::decode("x"), MessageKind::Text);
}

#[test]
fn turn_and_thinking_codecs() {
    assert_eq!(TurnTriggerType::decode("strand_send"), TurnTriggerType::StrandSend);
    assert_eq!(TurnTriggerType::decode("x"), TurnTriggerType::System);
    assert_eq!(TurnStatus::decode("running"), TurnStatus::Running);
    assert_eq!(TurnStatus::decode("completed"), TurnStatus::Completed);
    assert_eq!(TurnStatus::decode("x"), TurnStatus::Failed);
    assert_eq!(ThinkingSpanState::decode(ThinkingSpanState::Running.encode()), ThinkingSpanState::Running);
    assert_eq!(
        ThinkingCompletionReason::decode(ThinkingCompletionReason::ToolCallRequested.encode()),
        ThinkingCompletionReason::ToolCallRequested
    );
    assert_eq!(ThinkingCompletionReason::decode("x"), ThinkingCompletionReason::ProviderCompleted);
    assert_eq!(StrandTargetType::ToolResult.encode(), "tool_result");
}

#[test]
fn receipt_states_round_trip_and_reject_unknown() {
    for s in [
        ReceiptState::Accepted,
        ReceiptState::MechanicallyRecovered,
        ReceiptState::Driving,
        ReceiptState::TurnFailed,
        ReceiptState::Completed,
    ] {
        assert_eq!(receipt_state_from_db(receipt_state_db(&s)), Ok(s));
    }
    assert_eq!(receipt_state_from_db("failed").unwrap_err(), "unknown receipt state: failed");
    assert!(settles_with_turn(ReceiptState::Driving));
    assert!(settles_with_turn(ReceiptState::MechanicallyRecovered));
    assert!(!settles_with_turn(ReceiptState::Completed));
}

#[test]
fn receipt_transition_lists_decode_whole() {
    let ok = vec!["accepted".to_string(), "driving".to_string()];
    assert_eq!(decode_states(&ok), Ok(vec![ReceiptState::Accepted, ReceiptState::Driving]));
    let bad = vec!["accepted".to_string(), "nope".to_string()];
    assert_eq!(decode_states(&bad).unwrap_err(), "unknown receipt state: nope");
}

#[test]
fn turn_start_drives_drained_and_failed_receipts() {
    let drained = vec!["in_b".to_string(), "in_a".to_string()];
    let failed = vec!["in_a".to_string(), "in_c".to_string()];
    let (steps, ids) = begin_turn_steps("turn_1", &drained, &failed, &Some("inc_1".to_string()));
    assert_eq!(ids, vec!["in_a".to_string(), "in_b".to_string(), "in_c".to_string()]);
    assert_eq!(steps.len(), 5);
    assert_eq!(steps[0].inbox, "in_b");
    assert_eq!(steps[0].state, ReceiptState::MechanicallyRecovered);
    assert_eq!(steps[2].inbox, "in_a");
    assert_eq!(steps[2].state, ReceiptState::Driving);
    assert_eq!(steps[4].incident, Some("inc_1".to_string()));
    let (plain, _) = begin_turn_steps("turn_1", &drained, &vec![], &None);
    assert_eq!(plain.len(), 2);
    assert!(plain.iter().all(|s| s.state == ReceiptState::Driving && s.turn == Some("turn_1".to_string())));
}

#[test]
fn turn_end_moves_every_held_receipt() {
    let held = vec!["in_a".to_string(), "in_b".to_string()];
    let steps = end_turn_steps("turn_1", &held, ReceiptState::TurnFailed, &Some("inc".to_string()));
    assert_eq!(steps.len(), 2);
    assert_eq!(steps[1].inbox, "in_b");
    assert_eq!(steps[1].state, ReceiptState::TurnFailed);
    assert_eq!(steps[1].incident, Some("inc".to_string()));
}
