use santi_core::window::{
    content_hash, reservation_of, transcript_limit, transcript_page, window_participant, Outcome,
    Rejection, Reserved, Service, TranscriptEntry, TranscriptPage, WindowSendRequest,
    CONTENT_LIMIT,
};

fn service() -> Service {
    Service { im_label_prefix: "im:".to_string() }
}

fn request(client: &str, content: &str) -> WindowSendRequest {
    WindowSendRequest { client_message_id: client.to_string(), content: content.to_string() }
}

#[test]
fn participant_is_salted_sha256_prefix() {
    assert_eq!(window_participant("alice"), "window:f26da133a449dcfd2931178e0832df92");
}

#[test]
fn content_hash_is_full_sha256_hex() {
    assert_eq!(
        content_hash("abc"),
        "ba7816bf8f01cfea414140de5dae2223b00361a396177a9cb410ff61f20015ad"
    );
    assert_eq!(content_hash("abc").len(), 64);
}

#[test]
fn window_label_joins_prefix_and_participant() {
    assert_eq!(service().window_label("alice"), "im:window:f26da133a449dcfd2931178e0832df92");
}

#[test]
fn blank_identity_is_rejected_first() {
    match service().window_send("  \t", &request("", "")) {
        Err(Outcome::Rejected(Rejection::IdentityMissing)) => {}
        _ => panic!("expected identity rejection"),
    }
}

#[test]
fn client_key_must_be_nonblank_and_short() {
    match service().window_send("alice", &request(" ", "hi")) {
        Err(Outcome::Rejected(Rejection::ClientKeyInvalid)) => {}
        _ => panic!("expected client key rejection"),
    }
    let long = "k".repeat(129);
    match service().window_send("alice", &request(&long, "hi")) {
        Err(Outcome::Rejected(Rejection::ClientKeyInvalid)) => {}
        _ => panic!("expected client key rejection"),
    }
    let edge = "k".repeat(128);
    assert!(service().window_send("alice", &request(&edge, "hi")).is_ok());
}

#[test]
fn client_key_limit_counts_bytes() {
    let wide = "é".repeat(65);
    assert_eq!(wide.len(), 130);
    match service().window_send("alice", &request(&wide, "hi")) {
        Err(Outcome::Rejected(Rejection::ClientKeyInvalid)) => {}
        _ => panic!("expected client key rejection"),
    }
}

#[test]
fn content_must_hold_text_and_fit() {
    match service().window_send("alice", &request("c1", "\n ")) {
        Err(Outcome::Rejected(Rejection::ContentBlank)) => {}
        _ => panic!("expected blank content rejection"),
    }
    let big = "x".repeat(CONTENT_LIMIT + 1);
    match service().window_send("alice", &request("c1", &big)) {
        Err(Outcome::Rejected(Rejection::ContentOversize { limit_bytes, content_bytes })) => {
            assert_eq!(limit_bytes, 16384);
            assert_eq!(content_bytes, 16385);
        }
        _ => panic!("expected oversize rejection"),
    }
}

#[test]
fn accepted_checks_give_a_ticket() {
    let ticket = service().window_send("alice", &request("c1", "abc")).ok().unwrap();
    assert_eq!(ticket.participant, window_participant("alice"));
    assert_eq!(ticket.client, "c1");
    assert_eq!(ticket.hash, content_hash("abc"));
}

#[test]
fn rejection_messages() {
    assert_eq!(Rejection::IdentityMissing.message(), "window identity header is missing or blank");
    assert_eq!(
        Rejection::ClientKeyInvalid.message(),
        "client_message_id must be nonblank and at most 128 bytes"
    );
    assert_eq!(Rejection::ContentBlank.message(), "content must contain text");
    assert_eq!(
        Rejection::ContentOversize { limit_bytes: 16384, content_bytes: 20000 }.message(),
        "content exceeds the 16384 byte limit"
    );
    assert_eq!(
        Rejection::MessageConflict.message(),
        "client_message_id was already used with different content"
    );
    assert_eq!(
        Rejection::RateLimited { retry_after_seconds: 2 }.message(),
        "window speech is rate limited; retry later"
    );
    assert_eq!(Rejection::Refused("full".to_string()).message(), "full");
}

#[test]
fn same_reservation_replays_the_acceptance() {
    let svc = service();
    let ticket = svc.window_send("alice", &request("c1", "abc")).ok().unwrap();
    let reserved = Some(Reserved {
        content_hash: content_hash("abc"),
        message_id: "msg_1".to_string(),
        cursor: Some(7),
        received_at: "t0".to_string(),
        inbox_id: "inbox_1".to_string(),
    });
    match svc.window_reserved(&ticket, &reserved) {
        Some(Outcome::Accepted(a)) => {
            assert_eq!(a.status, "accepted");
            assert_eq!(a.message_id, "msg_1");
            assert_eq!(a.client_message_id, "c1");
            assert_eq!(a.cursor, Some(7));
            assert_eq!(a.received_at, "t0");
            assert_eq!(a.receipt_id, "inbox_1");
        }
        _ => panic!("expected replayed acceptance"),
    }
    assert!(svc.window_reserved(&ticket, &None).is_none());
}

#[test]
fn other_body_under_the_same_key_conflicts() {
    let svc = service();
    let ticket = svc.window_send("alice", &request("c1", "abc")).ok().unwrap();
    let reserved = Some(Reserved {
        content_hash: content_hash("other"),
        message_id: "msg_1".to_string(),
        cursor: None,
        received_at: "t0".to_string(),
        inbox_id: "inbox_1".to_string(),
    });
    match svc.window_reserved(&ticket, &reserved) {
        Some(Outcome::Rejected(Rejection::MessageConflict)) => {}
        _ => panic!("expected conflict"),
    }
}

#[test]
fn intake_result_becomes_the_outcome() {
    let svc = service();
    let ticket = svc.window_send("alice", &request("c1", "abc")).ok().unwrap();
    match svc.window_accepted(&ticket, "msg_2".to_string(), "t1".to_string(), Ok("inbox_2".to_string())) {
        Outcome::Accepted(a) => {
            assert_eq!(a.message_id, "msg_2");
            assert_eq!(a.cursor, None);
            assert_eq!(a.receipt_id, "inbox_2");
        }
        _ => panic!("expected acceptance"),
    }
    match svc.window_accepted(&ticket, "m".to_string(), "t".to_string(), Err("inbox full".to_string())) {
        Outcome::Rejected(Rejection::Refused(r)) => assert_eq!(r, "inbox full"),
        _ => panic!("expected refusal"),
    }
}

#[test]
fn transcript_without_strand_is_empty() {
    let t = service().window_transcript("alice", 12, None);
    assert_eq!(t.participant, window_participant("alice"));
    assert!(t.entries.is_empty());
    assert_eq!(t.next_since, 12);
    assert!(!t.has_more);
    assert!(t.empty);
}

#[test]
fn transcript_cursor_follows_last_entry() {
    let page = TranscriptPage {
        entries: vec![
            TranscriptEntry { seq: 13, body: "a".to_string() },
            TranscriptEntry { seq: 15, body: "b".to_string() },
        ],
        has_more: true,
        empty: false,
    };
    let t = service().window_transcript("alice", 12, Some(page));
    assert_eq!(t.entries.len(), 2);
    assert_eq!(t.next_since, 15);
    assert!(t.has_more);
    assert!(!t.empty);
    let none = TranscriptPage { entries: vec![], has_more: false, empty: false };
    assert_eq!(service().window_transcript("alice", 12, Some(none)).next_since, 12);
}

#[test]
fn transcript_limit_is_clamped() {
    assert_eq!(transcript_limit(0), 1);
    assert_eq!(transcript_limit(1), 1);
    assert_eq!(transcript_limit(50), 50);
    assert_eq!(transcript_limit(200), 200);
    assert_eq!(transcript_limit(201), 200);
}

#[test]
fn resent_speech_gets_the_first_acceptance() {
    let svc = service();
    let first = svc.window_send("alice", &request("c1", "hello")).ok().unwrap();
    let accepted = match svc.window_accepted(&first, "msg_1".to_string(), "t0".to_string(), Ok("inbox_1".to_string())) {
        Outcome::Accepted(a) => a,
        _ => panic!("expected acceptance"),
    };
    let kept = Some(reservation_of(&first, &accepted));
    let again = svc.window_send("alice", &request("c1", "hello")).ok().unwrap();
    match svc.window_reserved(&again, &kept) {
        Some(Outcome::Accepted(b)) => {
            assert_eq!(b.message_id, "msg_1");
            assert_eq!(b.receipt_id, "inbox_1");
            assert_eq!(b.client_message_id, "c1");
        }
        _ => panic!("expected the first acceptance"),
    }
    let other = svc.window_send("alice", &request("c1", "bye")).ok().unwrap();
    assert!(matches!(svc.window_reserved(&other, &kept), Some(Outcome::Rejected(Rejection::MessageConflict))));
}

#[test]
fn transcript_pages_say_whether_more_follow() {
    let rows = vec![
        TranscriptEntry { seq: 1, body: "a".to_string() },
        TranscriptEntry { seq: 2, body: "b".to_string() },
        TranscriptEntry { seq: 3, body: "c".to_string() },
    ];
    let p = transcript_page(rows.clone(), 2, false);
    assert!(p.has_more);
    assert_eq!(p.entries.len(), 2);
    let q = transcript_page(rows, 3, false);
    assert!(!q.has_more);
    assert_eq!(q.entries.len(), 3);
}
