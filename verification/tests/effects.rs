use santi_core::codec::{EffectState, EffectTransitionReason};
use santi_core::effect::{
    dispatch, intent, mark_unknown, reconcile_effect, reconcile_effects, recorded, resolution,
    settlement, EffectResolutionOutcome,
};

#[test]
fn only_prepared_effects_dispatch() {
    let s = dispatch(EffectState::Prepared).unwrap();
    assert_eq!(s.state, EffectState::Dispatching);
    assert_eq!(s.reason, EffectTransitionReason::DispatchWindowOpened);
    assert!(s.dispatches && !s.settles);
    assert_eq!(dispatch(EffectState::Dispatching).unwrap_err(), "effect is not prepared for dispatch");
}

#[test]
fn tool_results_settle_bound_effects() {
    let bound = Some("call_1".to_string());
    let s = settlement(EffectState::Confirmed, EffectState::Dispatching, &bound, "call_1").unwrap();
    assert_eq!(s.state, EffectState::Confirmed);
    assert_eq!(s.reason, EffectTransitionReason::ResultPersisted);
    assert!(s.settles);
    let s = settlement(EffectState::NotDispatched, EffectState::Prepared, &bound, "call_1").unwrap();
    assert_eq!(s.reason, EffectTransitionReason::DispatchRejected);
    assert_eq!(
        settlement(EffectState::Confirmed, EffectState::Prepared, &bound, "call_1").unwrap_err(),
        "effect/tool-call state mismatch"
    );
    assert_eq!(
        settlement(EffectState::Confirmed, EffectState::Dispatching, &bound, "call_2").unwrap_err(),
        "effect/tool-call state mismatch"
    );
    assert_eq!(
        settlement(EffectState::Unknown, EffectState::Dispatching, &bound, "call_1").unwrap_err(),
        "invalid terminal effect state for a tool result"
    );
}

#[test]
fn failed_capture_marks_dispatching_unknown() {
    let s = mark_unknown(EffectTransitionReason::ResultCaptureFailed, EffectState::Dispatching).unwrap();
    assert_eq!(s.state, EffectState::Unknown);
    assert!(!s.settles);
    assert_eq!(
        mark_unknown(EffectTransitionReason::LegacyImport, EffectState::Dispatching).unwrap_err(),
        "invalid live unknown-effect reason"
    );
    assert_eq!(
        mark_unknown(EffectTransitionReason::ResultCaptureFailed, EffectState::Prepared).unwrap_err(),
        "effect is not dispatching"
    );
}

#[test]
fn operators_resolve_unknown_effects() {
    let r = resolution(EffectResolutionOutcome::Applied, "  seen in logs ", Some(EffectState::Unknown))
        .unwrap()
        .unwrap();
    assert_eq!(r.0.state, EffectState::ResolvedApplied);
    assert_eq!(r.0.reason, EffectTransitionReason::OperatorResolvedApplied);
    assert_eq!(r.1, "seen in logs");
    let r = resolution(EffectResolutionOutcome::NotApplied, "x", Some(EffectState::Unknown))
        .unwrap()
        .unwrap();
    assert_eq!(r.0.state, EffectState::ResolvedNotApplied);
    assert_eq!(
        resolution(EffectResolutionOutcome::Applied, " \t", Some(EffectState::Unknown)).unwrap_err(),
        "effect resolution evidence must not be empty"
    );
    assert!(resolution(EffectResolutionOutcome::Applied, "x", None).unwrap().is_none());
    assert_eq!(
        resolution(EffectResolutionOutcome::Applied, "x", Some(EffectState::Confirmed)).unwrap_err(),
        "only an unknown effect can be resolved"
    );
}

#[test]
fn reconciling_a_turn_closes_open_effects() {
    let before = EffectTransitionReason::RestartBeforeDispatch;
    let during = EffectTransitionReason::RestartDuringDispatch;
    assert_eq!(reconcile_effect(EffectState::Prepared, before, during).unwrap().state, EffectState::NotDispatched);
    assert_eq!(reconcile_effect(EffectState::Dispatching, before, during).unwrap().state, EffectState::Unknown);
    assert!(reconcile_effect(EffectState::Confirmed, before, during).is_none());
    let open = vec![
        ("e1".to_string(), EffectState::Confirmed),
        ("e2".to_string(), EffectState::Prepared),
        ("e3".to_string(), EffectState::Dispatching),
    ];
    let moves = reconcile_effects(&open, before, during);
    assert_eq!(moves.len(), 2);
    assert_eq!(moves[0].0, "e2");
    assert_eq!(moves[0].1.reason, before);
    assert!(moves[0].1.settles);
    assert_eq!(moves[1].0, "e3");
    assert_eq!(moves[1].1.reason, during);
}

#[test]
fn first_record_is_intent() {
    let t = intent("t0");
    assert_eq!(t.state, EffectState::Prepared);
    assert_eq!(t.reason, EffectTransitionReason::IntentPersisted);
    assert!(t.evidence.is_none());
    assert_eq!(t.time, "t0");
    let s = dispatch(EffectState::Prepared).unwrap();
    let r = recorded(s, Some("why"), "t1");
    assert_eq!(r.state, EffectState::Dispatching);
    assert_eq!(r.evidence, Some("why"));
}
