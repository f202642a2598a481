use santi_core::assembly::{
    collapsed_count, message_to_provider_item, overlays, reasoning_of, weave, Layer, Placement,
    Preview,
};
use santi_core::codec::{ActorType, MessageKind};
use santi_core::compact::{Seated, Span};

fn span(a: i64, b: i64) -> Span {
    Span { start_seq: a, end_seq: b }
}

#[test]
fn uncovered_entries_show_as_themselves() {
    let seqs = vec![1, 2, 3];
    assert_eq!(weave(&vec![], &seqs), vec![Placement::Row(0), Placement::Row(1), Placement::Row(2)]);
}

#[test]
fn a_compact_shows_once_in_place_of_what_it_covers() {
    let seqs = vec![1, 2, 3, 4, 5, 6];
    let overlay = vec![span(2, 4)];
    assert_eq!(
        weave(&overlay, &seqs),
        vec![Placement::Row(0), Placement::Summary(0), Placement::Row(4), Placement::Row(5)]
    );
}

#[test]
fn several_compacts_in_any_order() {
    let seqs = vec![1, 2, 3, 4, 5, 6, 7];
    let overlay = vec![span(6, 7), span(1, 2)];
    assert_eq!(
        weave(&overlay, &seqs),
        vec![Placement::Summary(1), Placement::Row(2), Placement::Row(3), Placement::Row(4), Placement::Summary(0)]
    );
}

#[test]
fn a_compact_over_no_entry_does_not_show() {
    let seqs = vec![1, 5];
    let overlay = vec![span(2, 4)];
    assert_eq!(weave(&overlay, &seqs), vec![Placement::Row(0), Placement::Row(1)]);
}

#[test]
fn overlay_skips_unseated_and_absorbed_and_ends_with_preview() {
    let compacts = vec![
        Seated { id: "a".to_string(), start: Some(1), end: Some(2) },
        Seated { id: "b".to_string(), start: None, end: Some(4) },
        Seated { id: "c".to_string(), start: Some(5), end: Some(6) },
        Seated { id: "d".to_string(), start: Some(8), end: Some(9) },
    ];
    let preview = Some(Preview { span: span(5, 7), absorbed: vec!["c".to_string()] });
    let o = overlays(&compacts, &preview);
    assert_eq!(o.layers, vec![Layer::Compact(0), Layer::Compact(3), Layer::Preview]);
    assert_eq!(o.spans, vec![span(1, 2), span(8, 9), span(5, 7)]);
    let plain = overlays(&compacts, &None);
    assert_eq!(plain.layers, vec![Layer::Compact(0), Layer::Compact(2), Layer::Compact(3)]);
}

#[test]
fn message_roles_and_blank_messages() {
    let m = message_to_provider_item(ActorType::Soul, MessageKind::Text, "hi").unwrap();
    assert_eq!(m.role, "assistant");
    assert_eq!(m.content, "hi");
    assert_eq!(
        message_to_provider_item(ActorType::System, MessageKind::Text, "yo").unwrap().role,
        "user"
    );
    assert_eq!(
        message_to_provider_item(ActorType::System, MessageKind::SantiSystem, "n").unwrap().role,
        "system"
    );
    assert!(message_to_provider_item(ActorType::Soul, MessageKind::Text, " \n").is_none());
}

#[test]
fn reasoning_needs_text() {
    assert_eq!(reasoning_of(&Some("plan".to_string())), Some("plan".to_string()));
    assert_eq!(reasoning_of(&Some("  ".to_string())), None);
    assert_eq!(reasoning_of(&None), None);
}

#[test]
fn collapsed_count_is_the_range_width() {
    assert_eq!(collapsed_count(3, 7), 5);
    assert_eq!(collapsed_count(4, 4), 1);
    assert_eq!(collapsed_count(i64::MIN, i64::MAX), i64::MAX);
    assert_eq!(collapsed_count(i64::MAX, i64::MIN), i64::MIN + 1);
}
