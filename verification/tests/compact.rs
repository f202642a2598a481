use santi_core::codec::{ActorType, MessageKind, MessageState, StrandTargetType};
use santi_core::compact::{
    entry, kept, needle, paged, parse_target_type, planned, query_page, targeted, Boundary,
    CallFacts, QueryEntry, ReplyFacts, Seated, Target,
};

fn fixed_soul() -> Option<Boundary> {
    Some(Boundary { actor: ActorType::Soul, kind: MessageKind::Text, state: MessageState::Fixed })
}

fn seated(id: &str, start: i64, end: i64) -> Seated {
    Seated { id: id.to_string(), start: Some(start), end: Some(end) }
}

#[test]
fn missing_boundaries_are_refused() {
    let r = planned(&None, &fixed_soul(), Some(1), Some(2), &vec![]);
    assert_eq!(r.err().unwrap(), "compact from message not found");
    let r = planned(&fixed_soul(), &None, Some(1), Some(2), &vec![]);
    assert_eq!(r.err().unwrap(), "compact to message not found");
}

#[test]
fn boundaries_must_be_fixed_user_or_assistant_messages() {
    let draft = Some(Boundary {
        actor: ActorType::Soul,
        kind: MessageKind::Text,
        state: MessageState::Pending,
    });
    let r = planned(&draft, &fixed_soul(), Some(1), Some(2), &vec![]);
    assert_eq!(r.err().unwrap(), "compact from boundary must be a fixed user/assistant message");
    let notice = Some(Boundary {
        actor: ActorType::System,
        kind: MessageKind::SantiSystem,
        state: MessageState::Fixed,
    });
    assert_eq!(
        planned(&fixed_soul(), &notice, Some(1), Some(2), &vec![]).err().unwrap(),
        "compact to boundary must be a fixed user/assistant message"
    );
    let user = Some(Boundary { actor: ActorType::System, kind: MessageKind::Text, state: MessageState::Fixed });
    assert!(planned(&user, &fixed_soul(), Some(1), Some(2), &vec![]).is_ok());
}

#[test]
fn boundaries_must_sit_in_order_in_the_strand() {
    let b = fixed_soul();
    assert_eq!(
        planned(&b, &b, None, Some(2), &vec![]).err().unwrap(),
        "compact from message not in this strand"
    );
    assert_eq!(
        planned(&b, &b, Some(1), None, &vec![]).err().unwrap(),
        "compact to message not in this strand"
    );
    assert_eq!(
        planned(&b, &b, Some(5), Some(2), &vec![]).err().unwrap(),
        "compact from must not be after to"
    );
}

#[test]
fn covered_compacts_are_absorbed_and_apart_ones_kept() {
    let b = fixed_soul();
    let existing = vec![
        seated("cmp_a", 1, 2),
        seated("cmp_b", 4, 6),
        Seated { id: "cmp_gone".to_string(), start: None, end: Some(5) },
        seated("cmp_c", 9, 9),
        seated("cmp_d", 5, 5),
    ];
    let plan = planned(&b, &b, Some(3), Some(8), &existing).ok().unwrap();
    assert_eq!(plan.span.start_seq, 3);
    assert_eq!(plan.span.end_seq, 8);
    assert_eq!(plan.absorbed, vec!["cmp_b".to_string(), "cmp_d".to_string()]);
}

#[test]
fn partial_overlap_is_refused() {
    let b = fixed_soul();
    let existing = vec![seated("cmp_a", 2, 5)];
    assert_eq!(
        planned(&b, &b, Some(3), Some(8), &existing).err().unwrap(),
        "compact range partially overlaps an existing compact"
    );
}

#[test]
fn pages_skip_and_take() {
    let v: Vec<i32> = (0..10).collect();
    assert_eq!(paged(v.clone(), 0, 3), vec![0, 1, 2]);
    assert_eq!(paged(v.clone(), 1, 3), vec![3, 4, 5]);
    assert_eq!(paged(v.clone(), 3, 3), vec![9]);
    assert_eq!(paged(v.clone(), 4, 3), Vec::<i32>::new());
    assert_eq!(paged(v.clone(), -1, 3), vec![0, 1, 2]);
    assert_eq!(paged(v.clone(), 2, 0), Vec::<i32>::new());
    assert_eq!(paged(v.clone(), 2, -5), Vec::<i32>::new());
    assert_eq!(paged(v, i64::MAX, i64::MAX), Vec::<i32>::new());
}

#[test]
fn keyword_is_trimmed_and_lowercased() {
    assert_eq!(needle(None), None);
    assert_eq!(needle(Some("   ")), None);
    assert_eq!(needle(Some("  HeLLo ")), Some("hello".to_string()));
    assert!(kept(&None, "anything"));
    assert!(kept(&Some("hello".to_string()), "Say HELLO there"));
    assert!(!kept(&Some("bye".to_string()), "Say HELLO there"));
}

#[test]
fn spine_entries_render_as_text() {
    assert_eq!(entry(&Target::Message(Some("hi".to_string()))), Some("hi".to_string()));
    assert_eq!(entry(&Target::Message(None)), Some(String::new()));
    let call = CallFacts { tool: "shell".to_string(), arguments: "{\"cmd\":\"ls\"}".to_string() };
    assert_eq!(
        entry(&Target::ToolCall(Some(call))),
        Some("[tool_call shell] {\"cmd\":\"ls\"}".to_string())
    );
    let bad = CallFacts { tool: "shell".to_string(), arguments: "not json".to_string() };
    assert_eq!(entry(&Target::ToolCall(Some(bad))), None);
    let out = ReplyFacts { output: Some("\"done\"".to_string()), error: None };
    assert_eq!(entry(&Target::ToolResult(Some(out))), Some("[tool_result] done".to_string()));
    let err = ReplyFacts { output: None, error: Some("boom".to_string()) };
    assert_eq!(entry(&Target::ToolResult(Some(err))), Some("[tool_result error] boom".to_string()));
    let neither = ReplyFacts { output: None, error: None };
    assert_eq!(entry(&Target::ToolResult(Some(neither))), Some("[tool_result]".to_string()));
    assert_eq!(
        entry(&Target::Thinking(Some(Some("plan".to_string())))),
        Some("[thinking] plan".to_string())
    );
    assert_eq!(entry(&Target::Thinking(Some(None))), Some(String::new()));
    assert_eq!(entry(&Target::Other), Some(String::new()));
}

#[test]
fn target_types_are_read_back() {
    assert_eq!(targeted("compact"), StrandTargetType::Compact);
    assert_eq!(targeted("thinking"), StrandTargetType::Thinking);
    assert_eq!(targeted("tool_call"), StrandTargetType::ToolCall);
    assert_eq!(targeted("tool_result"), StrandTargetType::ToolResult);
    assert_eq!(targeted("message"), StrandTargetType::Message);
    assert_eq!(parse_target_type("unknown"), StrandTargetType::Message);
}

fn qe(seq: i64, text: &str) -> QueryEntry {
    QueryEntry { seq, kind: StrandTargetType::Message, target: format!("m{seq}"), text: text.to_string() }
}

#[test]
fn query_pages_are_taken_from_the_found_entries() {
    let entries = vec![qe(1, "Alpha"), qe(2, "beta"), qe(3, "ALPHABET"), qe(4, "gamma"), qe(5, "alps")];
    let p = query_page(&entries, Some(" alp "), 0, 2);
    assert_eq!(p.total, 3);
    assert_eq!(p.entries.iter().map(|e| e.seq).collect::<Vec<_>>(), vec![1, 3]);
    let p = query_page(&entries, Some("alp"), 1, 2);
    assert_eq!(p.entries.iter().map(|e| e.seq).collect::<Vec<_>>(), vec![5]);
    let all = query_page(&entries, None, 0, 10);
    assert_eq!(all.total, 5);
    assert_eq!(all.entries.len(), 5);
    assert_eq!(query_page(&entries, Some("   "), 2, 2).entries[0].seq, 5);
}
