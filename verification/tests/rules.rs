use santi_core::bucket::{ObjectBucket, ObjectUri, SantiService};
use santi_core::budget::{captured, captured_from, spent, Held, StreamFields, Usage};
use santi_core::codec::TurnStatus;
use santi_core::intake::{launch, LaunchDecision, LaunchFacts};
use santi_core::json::value_text;
use santi_core::assembly::{header_fields, Declared};
use santi_core::window::{metadata_uid, UID_METADATA_LIMIT};
use santi_core::clip::{bounded, bounded_provider_detail, clipped, DETAIL_LIMIT};
use santi_core::downstream::{register, replay_matches, Registered, Registration};
use santi_core::fork::{fork_child_deletable, fork_plan, Parent};
use santi_core::compact::Seated;
use santi_core::jobs::{
    admitted, digest, epoch, expires, future, granted, millis_of, prepare, sidecar, Admission,
    Capability, Entry,
};
use santi_core::paths::{memoir, soul_memory_file};
use santi_core::thinking::{finish_span, SpanEnd};
use santi_core::codec::{EffectTransitionReason, ThinkingCompletionReason, ThinkingSpanState};
use santi_core::records::Completion;
use santi_core::turns::{
    failed_reasons, finish_plan, incident_key, interruption, provider_state, TurnIncidentCodes, interruption_text, provider_failure_message,
    provider_incident_key, replay_kept, reply_due, reply_evidence, runtime_incident_key, sealed_seen,
    restart_plan, seen_after, stop_reasons, trace_ref,
};

#[test]
fn memory_file_paths() {
    assert_eq!(soul_memory_file("/srv/santi", "soul_default"), "/srv/santi/souls/soul_default/memory/MEMORY.md");
    assert_eq!(memoir("/r", "s"), "/r/souls/s/memory/MEMORY.md");
    assert_eq!(memoir("", "s"), "souls/s/memory/MEMORY.md");
    assert_eq!(memoir("/r/", "s"), "/r/souls/s/memory/MEMORY.md");
    assert_eq!(memoir("/r", "/abs"), "/abs/memory/MEMORY.md");
    let expected = std::path::Path::new("rt/").join("souls").join("x").join("memory").join("MEMORY.md");
    assert_eq!(soul_memory_file("rt/", "x"), expected.to_string_lossy());
}

#[test]
fn buckets_belong_to_their_strand_owner() {
    let svc = SantiService { runtime_root: "/r".to_string() };
    let bucket = ObjectBucket { soul_id: "soul_a".to_string(), strand_id: "ss_1".to_string() };
    let uri = ObjectUri { bucket: bucket.clone(), key: "k".to_string() };
    assert_eq!(svc.object_store(), "/r");
    assert_eq!(svc.renderable_ref("https://x/y"), Some("https://x/y".to_string()));
    assert_eq!(svc.renderable_ref("santi://soul/ss/k"), None);
    assert!(svc.put_bucket_object(&uri, &Some("soul_a".to_string())).is_ok());
    assert_eq!(svc.head_bucket_object(&uri, &None).unwrap_err(), "strand not found");
    assert_eq!(svc.delete_bucket_object(&uri, &Some("soul_b".to_string())).unwrap_err(), "soul not found");
    assert!(svc.list_bucket_objects(&bucket, &Some("soul_a".to_string())).is_ok());
    let got = svc.get_bucket_object("soul_a", "ss_1", "file.txt", &Some("soul_a".to_string())).unwrap();
    assert_eq!(got.bucket.strand_id, "ss_1");
    assert_eq!(got.key, "file.txt");
    assert_eq!(svc.get_bucket_object("soul_a", "ss_1", "f", &None).unwrap_err(), "strand not found");
    assert!(svc.ensure_object_bucket(&bucket, &Some("soul_a".to_string())).is_ok());
}

#[test]
fn captured_output_counts_stream_bytes() {
    assert_eq!(captured(r#"{"stdout":"abc","stderr":"de"}"#), 5);
    assert_eq!(captured(r#"{"stdout":7}"#), 0);
    assert_eq!(captured(r#"{"other":"abcdef"}"#), 18);
    assert_eq!(captured("plain text"), 10);
    let results = vec![
        Held { output: Some(r#"{"stdout":"abc"}"#.to_string()), error: None },
        Held { output: None, error: Some("boom".to_string()) },
        Held { output: None, error: None },
    ];
    assert_eq!(spent(4, &results), Usage { calls: 4, output: 7 });
    assert_eq!(spent(-1, &vec![]).calls, usize::MAX);
}

#[test]
fn details_are_clipped_on_char_boundaries() {
    assert_eq!(DETAIL_LIMIT, 4096);
    assert_eq!(bounded("short"), "short");
    let exact = "a".repeat(4096);
    assert_eq!(clipped(&exact), exact);
    let long = "a".repeat(5000);
    let c = bounded_provider_detail(&long);
    assert_eq!(c.len(), 4096);
    assert!(c.ends_with(" [truncated]"));
    assert_eq!(&c[..4084], &long[..4084]);
    let wide = "é".repeat(3000);
    let w = bounded(&wide);
    assert!(w.len() <= 4096);
    assert_eq!(w, format!("{} [truncated]", "é".repeat(2042)));
}

#[test]
fn forks_start_after_their_point() {
    let parent = Some(Parent { id: "ss_p".to_string(), soul: "soul".to_string(), next: 11, seen: 9 });
    let compacts = vec![
        Seated { id: "a".to_string(), start: Some(1), end: Some(3) },
        Seated { id: "b".to_string(), start: Some(4), end: Some(8) },
        Seated { id: "c".to_string(), start: None, end: Some(2) },
    ];
    let plan = fork_plan(&parent, 5, &compacts).unwrap();
    assert_eq!(plan.parent, "ss_p");
    assert_eq!(plan.next_seq, 6);
    assert_eq!(plan.last_seen, 5);
    assert_eq!(plan.fork_point, 5);
    assert_eq!(plan.compacts, vec![0]);
    assert_eq!(fork_plan(&parent, 10, &compacts).unwrap().last_seen, 9);
    assert_eq!(fork_plan(&parent, -1, &compacts).unwrap_err(), "fork_point must be >= 0");
    assert_eq!(fork_plan(&None, 0, &compacts).unwrap_err(), "parent strand not found");
    assert_eq!(fork_plan(&parent, 11, &compacts).unwrap_err(), "fork_point 11 is past parent end 10");
}

#[test]
fn only_idle_fork_children_are_deleted() {
    assert_eq!(fork_child_deletable(None, 0).unwrap_err(), "fork child not found");
    assert_eq!(fork_child_deletable(Some(false), 0).unwrap_err(), "refusing to delete a non-fork strand");
    assert_eq!(
        fork_child_deletable(Some(true), 2).unwrap_err(),
        "refusing to delete a fork child that has turns"
    );
    assert!(fork_child_deletable(Some(true), 0).is_ok());
}

#[test]
fn job_capabilities() {
    assert_eq!(digest("jobcap_token"), "3143af143cdab08cfd9386ae4ee24fa637e75dd39a8bccc20eb9de334828db10");
    assert_eq!(granted(&None, "s").unwrap_err(), "strand not found");
    assert_eq!(
        granted(&Some("other".to_string()), "s").unwrap_err(),
        "job capability origin does not match strand owner"
    );
    assert!(granted(&Some("s".to_string()), "s").is_ok());
    assert_eq!(expires(1000), 121000);
    assert_eq!(expires(i64::MAX - 5), i64::MAX);
    assert_eq!(millis_of(5), Ok(5));
    assert_eq!(millis_of(u128::MAX).unwrap_err(), "system clock is out of range");
    assert!(epoch().unwrap() > 0);
}

#[test]
fn job_reminders() {
    assert_eq!(future(1000, 2), Ok(3000));
    assert_eq!(future(-1, 2).unwrap_err(), "job start time is out of range");
    assert_eq!(future(0, u64::MAX).unwrap_err(), "job reminder interval is out of range");
    assert_eq!(future(i64::MAX, u64::MAX / 1000).unwrap_err(), "job reminder time is out of range");
    assert_eq!(sidecar("stamp_ab_c"), "santi-stamp-ab-c.service");
}

fn entry() -> Entry {
    Entry { timeout: 60, output: 1024, remind: Some(30), digest: "req".to_string() }
}

#[test]
fn job_admission() {
    assert_eq!(admitted(&None, &entry(), 0).unwrap_err(), "invalid job capability");
    let consumed = Some(Capability {
        expires: 0,
        consumed: Some("job_1".to_string()),
        accepted: Some("req".to_string()),
    });
    match admitted(&consumed, &entry(), 99) {
        Ok(Admission::Existing(j)) => assert_eq!(j, "job_1"),
        _ => panic!("expected existing"),
    }
    let mut other = entry();
    other.digest = "different".to_string();
    assert_eq!(
        admitted(&consumed, &other, 0).unwrap_err(),
        "job capability conflicts with its accepted request"
    );
    let fresh = Some(Capability { expires: 100, consumed: None, accepted: None });
    assert_eq!(admitted(&fresh, &entry(), 101).unwrap_err(), "job capability expired");
    match admitted(&fresh, &entry(), 100) {
        Ok(Admission::New(l)) => {
            assert_eq!(l.timeout, 60);
            assert_eq!(l.output, 1024);
            assert_eq!(l.remind, Some(30));
        }
        _ => panic!("expected new"),
    }
    let mut huge = entry();
    huge.timeout = u64::MAX;
    assert_eq!(admitted(&fresh, &huge, 0).unwrap_err(), "job timeout is out of range");
    let mut huge = entry();
    huge.output = u64::MAX;
    assert_eq!(admitted(&fresh, &huge, 0).unwrap_err(), "job output limit is out of range");
    let mut huge = entry();
    huge.remind = Some(u64::MAX);
    assert_eq!(admitted(&fresh, &huge, 0).unwrap_err(), "job reminder interval is out of range");
    match prepare(&consumed, &entry()) {
        Ok(Admission::Existing(j)) => assert_eq!(j, "job_1"),
        _ => panic!("expected existing"),
    }
    let stale = Some(Capability { expires: 0, consumed: None, accepted: None });
    assert_eq!(prepare(&stale, &entry()).unwrap_err(), "job capability expired");
}

fn reg(id: &str, prefix: &str, digest: &str) -> Registration {
    Registration { id: id.to_string(), prefix: prefix.to_string(), digest: digest.to_string() }
}

#[test]
fn downstream_registrations() {
    let regs = vec![reg("d1", "acme:", "h1"), reg("d2", "beta:", "h2")];
    assert_eq!(register(&regs, "d2", "beta:", "h2"), Ok(Registered::Existing(1)));
    assert_eq!(
        register(&regs, "d2", "beta:", "hx").unwrap_err(),
        "downstream id conflicts with an existing registration"
    );
    assert_eq!(
        register(&regs, "d3", "acme:sub", "h3").unwrap_err(),
        "downstream prefix overlaps an existing registration"
    );
    assert_eq!(
        register(&regs, "d3", "ac", "h3").unwrap_err(),
        "downstream prefix overlaps an existing registration"
    );
    assert_eq!(register(&regs, "d3", "gamma:", "h1").unwrap_err(), "downstream digest is already registered");
    assert_eq!(register(&regs, "d3", "gamma:", "h3"), Ok(Registered::Insert));
    assert!(replay_matches("a", "a").is_ok());
    assert_eq!(replay_matches("a", "b").unwrap_err(), "downstream request conflicts with an accepted payload");
}

#[test]
fn thinking_spans_finish_once() {
    let f = finish_span(ThinkingSpanState::Running, SpanEnd::Completed(ThinkingCompletionReason::FirstTextDelta))
        .unwrap();
    assert_eq!(f.state, ThinkingSpanState::Completed);
    assert_eq!(f.reason, Some(ThinkingCompletionReason::FirstTextDelta));
    let f = finish_span(ThinkingSpanState::Running, SpanEnd::Failed("oops".to_string())).unwrap();
    assert_eq!(f.state, ThinkingSpanState::Failed);
    assert_eq!(f.error, Some("oops".to_string()));
    assert!(finish_span(ThinkingSpanState::Completed, SpanEnd::Failed("x".to_string())).is_none());
    assert!(finish_span(ThinkingSpanState::Failed, SpanEnd::Failed("x".to_string())).is_none());
}

#[test]
fn turn_texts_and_keys() {
    let s = stop_reasons(Some("operator"));
    assert_eq!(s.before.encode(), "turn_stopped_before_dispatch");
    assert_eq!(s.during.encode(), "turn_stopped_during_dispatch");
    assert_eq!(s.detail, "interrupted by operator");
    let r = stop_reasons(None);
    assert_eq!(r.before, EffectTransitionReason::RestartBeforeDispatch);
    assert_eq!(r.during, EffectTransitionReason::RestartDuringDispatch);
    assert_eq!(r.detail, "interrupted by restart");
    assert_eq!(
        interruption_text("turn_1", "operator"),
        "<system_message>\nThe previous turn (turn_1) was interrupted by operator. Its partial output and external effects may be incomplete; inspect durable effect state before retrying.\n</system_message>"
    );
    assert!(reply_due(&Some("lbl".to_string()), &Some("hi".to_string())));
    assert!(!reply_due(&None, &Some("hi".to_string())));
    assert!(!reply_due(&Some("lbl".to_string()), &Some(" ".to_string())));
    assert!(!reply_due(&Some("lbl".to_string()), &None));
    assert_eq!(seen_after(Some(4), 9), 4);
    assert_eq!(seen_after(None, 9), 9);
    assert_eq!(sealed_seen(9, 4), 9);
    assert_eq!(sealed_seen(2, 4), 4);
    assert_eq!(incident_key("provider.turn_failed", "ss_1"), "provider.turn_failed:strand:ss_1");
    assert_eq!(provider_incident_key("p", "s"), "p:strand:s");
    assert_eq!(runtime_incident_key("r", "s"), "r:strand:s");
    let (b, d) = failed_reasons();
    assert_eq!(b.encode(), "turn_failed_before_dispatch");
    assert_eq!(d.encode(), "turn_failed_during_dispatch");
    assert_eq!(provider_failure_message("stream"), "provider stream failed");
    assert_eq!(trace_ref("t"), "log://turn/t");
    assert_eq!(reply_evidence("r1"), "tool_result:r1");
    assert!(!replay_kept(false, false, false));
    assert!(replay_kept(false, true, false));
}

fn provider_state_by_serde(provider: &str, response: &str) -> String {
    let mut opaque = serde_json::Map::new();
    opaque.insert("response_id".to_string(), serde_json::Value::String(response.to_string()));
    let mut state = serde_json::Map::new();
    state.insert("provider".to_string(), serde_json::Value::String(provider.to_string()));
    state.insert("opaque".to_string(), serde_json::Value::Object(opaque));
    state.insert("schema_version".to_string(), serde_json::Value::String("santi-v1".to_string()));
    serde_json::to_string(&serde_json::Value::Object(state)).unwrap()
}

#[test]
fn provider_state_is_the_serde_document() {
    assert_eq!(provider_state("openai", &None), None);
    let text = provider_state("openai", &Some("resp_\"1\"".to_string())).unwrap();
    assert_eq!(text, provider_state_by_serde("openai", "resp_\"1\""));
    assert_eq!(
        provider_state("p", &Some("r".to_string())).unwrap(),
        "{\"opaque\":{\"response_id\":\"r\"},\"provider\":\"p\",\"schema_version\":\"santi-v1\"}"
    );
}

#[test]
fn finishing_a_turn() {
    let completion = Completion {
        turn: "turn_1",
        sequence: Some(12),
        provider: "p",
        model: "m",
        response: Some("r".to_string()),
    };
    let codes = TurnIncidentCodes {
        provider: "provider.turn_failed".to_string(),
        runtime: "runtime.turn_failed".to_string(),
        budget: "execution_budget.exceeded".to_string(),
    };
    let f = finish_plan(&completion, "ss_1", 4, &Some("lbl".to_string()), &Some("hi".to_string()), &codes);
    assert_eq!(f.last_seen, 12);
    assert_eq!(f.provider_state, Some(provider_state_by_serde("p", "r")));
    assert!(f.event_due);
    assert_eq!(f.resolutions.len(), 3);
    assert_eq!(f.resolutions[0].key, "provider.turn_failed:strand:ss_1");
    assert_eq!(f.resolutions[0].resolved_by, "provider.turn_succeeded");
    assert_eq!(f.resolutions[1].key, "runtime.turn_failed:strand:ss_1");
    assert_eq!(f.resolutions[1].resolved_by, "runtime.turn_succeeded");
    assert_eq!(f.resolutions[2].key, "execution_budget.exceeded:strand:ss_1");
    assert_eq!(f.resolutions[2].resolved_by, "execution_budget.turn_succeeded");
    let quiet = Completion { turn: "t", sequence: None, provider: "p", model: "m", response: None };
    let g = finish_plan(&quiet, "ss_1", 4, &None, &Some("hi".to_string()), &codes);
    assert_eq!(g.last_seen, 4);
    assert_eq!(g.provider_state, None);
    assert!(!g.event_due);
}

#[test]
fn interrupting_a_running_turn() {
    assert!(interruption("t1", "operator", false).is_none());
    let x = interruption("t1", "operator", true).unwrap();
    assert_eq!(x.detail, "interrupted by operator");
    assert_eq!(x.reasons.before, EffectTransitionReason::TurnStoppedBeforeDispatch);
    assert_eq!(x.notice, interruption_text("t1", "operator"));
}

#[test]
fn captured_from_stream_fields() {
    let both = StreamFields { has_stdout: true, stdout: Some(3), has_stderr: true, stderr: Some(2) };
    assert_eq!(captured_from(40, Some(both)), 5);
    let numeric = StreamFields { has_stdout: true, stdout: None, has_stderr: false, stderr: None };
    assert_eq!(captured_from(40, Some(numeric)), 0);
    let neither = StreamFields { has_stdout: false, stdout: None, has_stderr: false, stderr: None };
    assert_eq!(captured_from(40, Some(neither)), 40);
    assert_eq!(captured_from(40, None), 40);
    let huge = StreamFields { has_stdout: true, stdout: Some(usize::MAX), has_stderr: true, stderr: Some(1) };
    assert_eq!(captured_from(1, Some(huge)), usize::MAX);
    assert_eq!(captured(r#"{"stderr":"xyz"}"#), 3);
}

#[test]
fn json_value_display_text() {
    assert_eq!(value_text("\"done\"").as_deref(), Some("done"));
    assert_eq!(value_text(r#"{ "a" : 1 }"#).as_deref(), Some(r#"{"a":1}"#));
    assert_eq!(value_text("[1, 2]").as_deref(), Some("[1,2]"));
    assert_eq!(value_text("not json"), None);
}

#[test]
fn a_running_turn_blocks_a_second_start() {
    let busy = LaunchFacts {
        running: Some("turn_1".to_string()),
        idle_inbox: false,
        scarred: false,
        context_hold: false,
        admission: None,
    };
    assert!(matches!(launch(&busy), LaunchDecision::Running(t) if t == "turn_1"));
    let free = LaunchFacts { running: None, ..busy };
    assert!(matches!(launch(&free), LaunchDecision::Drain));
}

fn nothing_declared() -> Declared {
    Declared {
        schema: None,
        operation: None,
        declared_source: None,
        source_trust: None,
        reason: None,
        risk: None,
        queryability: None,
        originals_query: None,
        start_seq: None,
        end_seq: None,
        collapsed: None,
    }
}

#[test]
fn compact_header_defaults() {
    let f = header_fields("compact_1", &nothing_declared(), 3, 9, 7);
    assert_eq!(f.operation, "compact_projection");
    assert_eq!(f.declared_source, "not_declared");
    assert_eq!(f.source_trust, "not_declared");
    assert_eq!((f.start_seq, f.end_seq, f.collapsed), (3, 9, 7));
    assert_eq!(f.reason, "not_declared");
    assert_eq!(f.risk, "not_declared");
    assert_eq!(f.queryability, "original spine remains queryable with compact query");
    assert_eq!(f.originals_query, "santi compact query --compact-id compact_1");
}

#[test]
fn compact_header_capsule_and_declared_values() {
    let capsule = Declared { schema: Some("santi.compact_capsule.v1".to_string()), ..nothing_declared() };
    let f = header_fields("c", &capsule, 1, 2, 2);
    assert_eq!(f.operation, "manual_capsule");
    assert_eq!(f.source_trust, "caller_declared");
    let declared = Declared {
        schema: Some("other".to_string()),
        operation: Some("auto".to_string()),
        risk: Some("low".to_string()),
        originals_query: Some("see log".to_string()),
        start_seq: Some(10),
        collapsed: Some(4),
        ..nothing_declared()
    };
    let g = header_fields("c", &declared, 1, 2, 2);
    assert_eq!(g.operation, "auto");
    assert_eq!(g.source_trust, "not_declared");
    assert_eq!(g.risk, "low");
    assert_eq!(g.originals_query, "see log");
    assert_eq!((g.start_seq, g.end_seq, g.collapsed), (10, 2, 4));
}

#[test]
fn window_identity_provenance_is_cut_at_its_limit() {
    assert_eq!(metadata_uid("alice"), "alice");
    let long = "u".repeat(200);
    assert_eq!(metadata_uid(&long), "u".repeat(UID_METADATA_LIMIT));
    assert_eq!(metadata_uid(&"v".repeat(128)).len(), 128);
}

#[test]
fn restart_plan_fails_running_turns_and_opens_their_incidents() {
    let turns = vec![
        ("turn_a".to_string(), "strand_1".to_string(), TurnStatus::Running),
        ("turn_b".to_string(), "strand_1".to_string(), TurnStatus::Completed),
        ("turn_c".to_string(), "strand_2".to_string(), TurnStatus::Running),
    ];
    let plan = restart_plan(&turns, "runtime.turn_failed");
    assert_eq!(plan.len(), 2);
    assert_eq!(plan[0].turn, "turn_a");
    assert_eq!(plan[0].incident, "runtime.turn_failed:strand:strand_1");
    assert_eq!(plan[0].detail, "interrupted by restart");
    assert_eq!(plan[1].turn, "turn_c");
    assert_eq!(plan[1].incident, "runtime.turn_failed:strand:strand_2");
    assert!(restart_plan(&Vec::new(), "x").is_empty());
}
