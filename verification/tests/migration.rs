use santi_core::migration::{
    drain_end, drain_groups, drain_of, event_source, inbox_source, incident_of, migration_plan,
    Block, Drain, DrainEnd, Migration, Step, SCHEMA_VERSION,
};

#[test]
fn known_versions_migrate_in_place() {
    assert_eq!(SCHEMA_VERSION, 25);
    match migration_plan(21) {
        Migration::Steps(s) => {
            assert_eq!(s, vec![Step::V21ToV22, Step::V22ToV23, Step::V23ToV24, Step::V24ToV25])
        }
        _ => panic!("expected steps"),
    }
    match migration_plan(23) {
        Migration::Steps(s) => assert_eq!(s, vec![Step::V23ToV24, Step::V24ToV25]),
        _ => panic!("expected steps"),
    }
    match migration_plan(24) {
        Migration::Steps(s) => assert_eq!(s, vec![Step::V24ToV25]),
        _ => panic!("expected steps"),
    }
}

#[test]
fn current_and_unknown_versions() {
    assert_eq!(migration_plan(25), Migration::Current);
    assert_eq!(migration_plan(20), Migration::Rebuild);
    assert_eq!(migration_plan(26), Migration::Rebuild);
    assert_eq!(migration_plan(0), Migration::Rebuild);
}

fn block(id: &str, status: &str, metadata: Option<&str>, rejections: Option<i64>) -> Block {
    Block {
        id: id.to_string(),
        strand_id: "ss_1".to_string(),
        status: status.to_string(),
        reason_code: "over_budget".to_string(),
        metadata: metadata.map(str::to_string),
        rejections,
    }
}

#[test]
fn active_block_becomes_active_incident() {
    let i = incident_of(&block("blk_42", "active", Some(r#"{"phase":"pending_drain"}"#), Some(3)));
    assert_eq!(i.id, Some("inc_42".to_string()));
    assert_eq!(i.incident_key, "context.budget.exceeded:strand:ss_1");
    assert_eq!(i.status, "active");
    assert_eq!(i.revision, 1);
    assert_eq!(i.operation, "pending_drain");
    assert_eq!(i.occurrences, 3);
}

#[test]
fn cleared_block_becomes_resolved_incident() {
    let i = incident_of(&block("other", "cleared", None, Some(0)));
    assert_eq!(i.id, None);
    assert_eq!(i.status, "resolved");
    assert_eq!(i.revision, 2);
    assert_eq!(i.operation, "over_budget");
    assert_eq!(i.occurrences, 1);
    assert_eq!(incident_of(&block("blk_", "x", None, None)).id, Some("inc_".to_string()));
    assert_eq!(incident_of(&block("blk_1", "x", None, None)).occurrences, 1);
    assert_eq!(incident_of(&block("blk_1", "x", Some("{\"phase\":3}"), None)).operation, "over_budget");
    assert_eq!(incident_of(&block("blk_1", "x", Some("not json"), None)).operation, "over_budget");
}

#[test]
fn drains_are_read_from_event_payloads() {
    let d = drain_of(
        r#"{"kind":"inbox_drain","inbox_id":"in_1","committing_turn_id":"turn_1","enqueued_at":"t0","drained_at":"t1"}"#,
    )
    .unwrap();
    assert_eq!(d.inbox_id, "in_1");
    assert_eq!(d.turn_id, "turn_1");
    assert_eq!(d.accepted_at, "t0");
    let d = drain_of(r#"{"kind":"inbox_drain","inbox_id":"in_1","committing_turn_id":"t","drained_at":"t1"}"#)
        .unwrap();
    assert_eq!(d.accepted_at, "t1");
    let d = drain_of(r#"{"kind":"inbox_drain","inbox_id":"in_1","committing_turn_id":"t"}"#).unwrap();
    assert_eq!(d.accepted_at, "1970-01-01T00:00:00Z");
}

#[test]
fn other_events_are_skipped() {
    assert!(drain_of("not json").is_none());
    assert!(drain_of(r#"{"kind":"other","inbox_id":"a","committing_turn_id":"b"}"#).is_none());
    assert!(drain_of(r#"{"kind":"inbox_drain","committing_turn_id":"b"}"#).is_none());
    assert!(drain_of(r#"{"kind":"inbox_drain","inbox_id":"a"}"#).is_none());
    assert!(drain_of(r#"{"kind":"inbox_drain","inbox_id":7,"committing_turn_id":"b"}"#).is_none());
}

fn drain(inbox: &str, turn: &str) -> Drain {
    Drain { inbox_id: inbox.to_string(), turn_id: turn.to_string(), accepted_at: "t".to_string() }
}

#[test]
fn drains_group_by_turn_in_first_seen_order() {
    let drains = vec![drain("a", "t2"), drain("b", "t1"), drain("c", "t2"), drain("d", "t3"), drain("e", "t1")];
    let groups = drain_groups(&drains);
    assert_eq!(groups.len(), 3);
    assert_eq!(groups[0].turn_id, "t2");
    assert_eq!(groups[0].members, vec![0, 2]);
    assert_eq!(groups[1].turn_id, "t1");
    assert_eq!(groups[1].members, vec![1, 4]);
    assert_eq!(groups[2].turn_id, "t3");
    assert_eq!(groups[2].members, vec![3]);
    assert!(drain_groups(&vec![]).is_empty());
}

#[test]
fn drained_receipts_end_with_finished_turns() {
    assert_eq!(drain_end("completed", &Some("t9".to_string())), DrainEnd::Completed("t9".to_string()));
    assert_eq!(drain_end("failed", &Some("t9".to_string())), DrainEnd::Failed("t9".to_string()));
    assert_eq!(drain_end("running", &Some("t9".to_string())), DrainEnd::Open);
    assert_eq!(drain_end("completed", &None), DrainEnd::Open);
}

#[test]
fn reconstruction_sources() {
    assert_eq!(event_source("ev_1"), "v24:message_event:ev_1");
    assert_eq!(inbox_source("in_1"), "v24:strand_inbox:in_1");
}
