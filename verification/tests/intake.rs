use santi_core::intake::{
    capacity, conflict, inbox_full, intake, launch, prior_of, reason, starts_after_drain, Estimate,
    IntakeDecision, IntakeFacts, LaunchDecision, LaunchFacts, Prior, Replay, GATE,
};
use santi_core::notice::{attention_applies, attention_revisions, merged, stow, Slot, Stow};

fn facts() -> IntakeFacts {
    IntakeFacts { prior: None, drive_hold: false, context_hold: false, admission: None, pending: 0 }
}

fn webhook(digest: &str) -> Option<Replay> {
    Some(Replay::Webhook {
        subscription: "sub".to_string(),
        delivery: "d1".to_string(),
        digest: digest.to_string(),
    })
}

#[test]
fn replayed_keys_answer_from_their_record() {
    let mut f = facts();
    f.prior = Some(Prior { accepted: "h1".to_string(), strand: "ss".to_string(), inbox: "in".to_string() });
    f.drive_hold = true;
    match intake(&webhook("h1"), true, &f) {
        IntakeDecision::Replayed { strand, inbox } => {
            assert_eq!(strand, "ss");
            assert_eq!(inbox, "in");
        }
        _ => panic!("expected replay"),
    }
    match intake(&webhook("h2"), true, &f) {
        IntakeDecision::Conflict(m) => assert_eq!(m, "webhook delivery conflicts with an accepted payload"),
        _ => panic!("expected conflict"),
    }
}

#[test]
fn holds_are_enforced_in_order() {
    let mut f = facts();
    f.drive_hold = true;
    f.context_hold = true;
    match intake(&None, true, &f) {
        IntakeDecision::DriveHeld { operation } => assert_eq!(operation, "ingest_active_guard"),
        _ => panic!("expected drive hold"),
    }
    f.drive_hold = false;
    match intake(&None, true, &f) {
        IntakeDecision::ContextHeld { operation } => assert_eq!(operation, "ingest_active_guard"),
        _ => panic!("expected context hold"),
    }
    assert!(matches!(intake(&None, false, &f), IntakeDecision::Accept));
}

#[test]
fn budget_and_gate_refuse() {
    let mut f = facts();
    f.admission = Some(Estimate { total: 1200, budget: 1000 });
    match intake(&None, true, &f) {
        IntakeDecision::OverBudget { reason, code, operation } => {
            assert_eq!(reason, "strand context is over budget (1200 estimated bytes, budget 1000)");
            assert_eq!(code, "candidate_input_exceeds_budget");
            assert_eq!(operation, "ingest_admission");
        }
        _ => panic!("expected over budget"),
    }
    f.admission = Some(Estimate { total: 1000, budget: 1000 });
    f.pending = GATE;
    match intake(&None, true, &f) {
        IntakeDecision::InboxFull { reason, operation } => {
            assert_eq!(reason, "strand inbox is full (500 pending, gate 500)");
            assert_eq!(operation, "ingest_admission");
        }
        _ => panic!("expected full inbox"),
    }
    f.pending = GATE - 1;
    assert!(matches!(intake(&None, true, &f), IntakeDecision::Accept));
}

#[test]
fn messages_of_refusals() {
    assert_eq!(reason(-3, 0), "strand context is over budget (-3 estimated bytes, budget 0)");
    assert_eq!(inbox_full(612), "strand inbox is full (612 pending, gate 500)");
    assert!(capacity(499).is_ok());
    assert_eq!(capacity(500).unwrap_err(), "strand inbox is full (500 pending, gate 500)");
    let d = Replay::Downstream { owner: "o".to_string(), request: "r".to_string(), digest: "x".to_string() };
    assert_eq!(conflict(&d), "downstream request conflicts with an accepted payload");
}

fn launch_facts() -> LaunchFacts {
    LaunchFacts { running: None, idle_inbox: false, scarred: false, context_hold: false, admission: None }
}

#[test]
fn launching_a_turn() {
    let mut f = launch_facts();
    f.running = Some("turn_1".to_string());
    match launch(&f) {
        LaunchDecision::Running(t) => assert_eq!(t, "turn_1"),
        _ => panic!("expected running"),
    }
    let mut f = launch_facts();
    f.idle_inbox = true;
    assert!(matches!(launch(&f), LaunchDecision::Idle));
    f.scarred = true;
    assert!(matches!(launch(&f), LaunchDecision::Drain));
    f.context_hold = true;
    match launch(&f) {
        LaunchDecision::Held { operation } => assert_eq!(operation, "pending_active_guard"),
        _ => panic!("expected hold"),
    }
    f.context_hold = false;
    f.admission = Some(Estimate { total: 9, budget: 8 });
    match launch(&f) {
        LaunchDecision::OverBudget { reason, code, operation } => {
            assert_eq!(reason, "strand context is over budget (9 estimated bytes, budget 8)");
            assert_eq!(code, "pending_drain_would_exceed_budget");
            assert_eq!(operation, "pending_drain_admission");
        }
        _ => panic!("expected over budget"),
    }
    assert!(starts_after_drain(1, false));
    assert!(starts_after_drain(0, true));
    assert!(!starts_after_drain(0, false));
}

fn slot(revision: i64, digest: &str, inbox: Option<&str>) -> Option<Slot> {
    Some(Slot { revision, digest: digest.to_string(), inbox: inbox.map(str::to_string) })
}

#[test]
fn notices_coalesce_by_revision() {
    match stow(&None, 1, "d1", 0).unwrap() {
        Stow::Insert => {}
        _ => panic!("expected insert"),
    }
    match stow(&slot(3, "d", Some("in_1")), 2, "x", 0).unwrap() {
        Stow::Keep(Some(i)) => assert_eq!(i, "in_1"),
        _ => panic!("expected keep"),
    }
    match stow(&slot(3, "d", Some("in_1")), 3, "d", 0).unwrap() {
        Stow::Keep(Some(i)) => assert_eq!(i, "in_1"),
        _ => panic!("expected keep"),
    }
    assert_eq!(
        stow(&slot(3, "d", Some("in_1")), 3, "other", 0).unwrap_err(),
        "inbox notice revision conflicts with its accepted payload"
    );
    match stow(&slot(3, "d", Some("in_1")), 4, "e", 0).unwrap() {
        Stow::Update(i) => assert_eq!(i, "in_1"),
        _ => panic!("expected update"),
    }
    match stow(&slot(3, "d", None), 4, "e", 10).unwrap() {
        Stow::Insert => {}
        _ => panic!("expected insert"),
    }
    assert_eq!(stow(&slot(3, "d", None), 4, "e", 500).unwrap_err(), "strand inbox is full (500 pending, gate 500)");
    assert_eq!(stow(&None, u64::MAX, "d", 0).unwrap_err(), "inbox notice revision is out of range");
}

#[test]
fn notice_causes_merge_sorted_and_unique() {
    let raw = Some("[\"b\",\"a\"]".to_string());
    let merged = merged(&raw, &vec!["c".to_string(), "a".to_string()]).unwrap();
    assert_eq!(merged, "[\"a\",\"b\",\"c\"]");
    assert_eq!(super_merge_none(), "[\"x\"]");
    assert!(santi_core::notice::merged(&Some("{".to_string()), &vec![]).is_err());
}

fn super_merge_none() -> String {
    merged(&None, &vec!["x".to_string(), "x".to_string()]).unwrap()
}

#[test]
fn attention_revisions_must_line_up() {
    assert_eq!(attention_revisions(4, 5, 2).unwrap(), (4, 5, 2));
    assert_eq!(attention_revisions(4, 6, 2).unwrap_err(), "job attention and inbox revisions do not agree");
    assert_eq!(attention_revisions(u64::MAX, 0, 0).unwrap_err(), "job attention revision is out of range");
    assert_eq!(
        attention_revisions(i64::MAX as u64, i64::MAX as u64 + 1, 0).unwrap_err(),
        "job attention revision is out of range"
    );
    assert_eq!(attention_revisions(1, 2, u64::MAX).unwrap_err(), "job reminder tick is out of range");
    assert_eq!(attention_applies(3, 3), Ok(true));
    assert_eq!(attention_applies(4, 3), Ok(false));
    assert_eq!(attention_applies(2, 3).unwrap_err(), "job attention revision has a gap");
}

#[test]
fn a_stored_replay_record_answers_the_same_payload() {
    let first = webhook("h1").unwrap();
    let mut f = facts();
    f.prior = Some(prior_of(&first, "ss_1", "inbox_1"));
    match intake(&webhook("h1"), true, &f) {
        IntakeDecision::Replayed { strand, inbox } => {
            assert_eq!(strand, "ss_1");
            assert_eq!(inbox, "inbox_1");
        }
        _ => panic!("expected replay"),
    }
    assert!(matches!(intake(&webhook("h9"), true, &f), IntakeDecision::Conflict(_)));
}
