use vstd::prelude::*;

use crate::digest::{bytes_after, hex, hex_text, sha256, sha256_digest};
use crate::text::{blank, is_blank, joined, owned, str_eq};
use vstd::utf8::{encode_utf8, is_char_boundary};

verus! {

/// The largest message body, in bytes, that window speech takes.
pub const CONTENT_LIMIT: usize = 16384;

/// The largest client message key, in bytes.
pub const CLIENT_KEY_LIMIT: usize = 128;

/// The most bytes of a window identity kept in the provenance of its inbox
/// entries.
pub const UID_METADATA_LIMIT: usize = 128;

/// A window identity as the provenance of its inbox entries keeps it: its
/// first `UID_METADATA_LIMIT` bytes. The cut must fall between characters.
pub fn metadata_uid(uid: &str) -> (r: String)
    requires
        encode_utf8(uid@).len() <= UID_METADATA_LIMIT || is_char_boundary(
            encode_utf8(uid@),
            UID_METADATA_LIMIT as int,
        ),
    ensures
        encode_utf8(r@) == if encode_utf8(uid@).len() <= UID_METADATA_LIMIT {
            encode_utf8(uid@)
        } else {
            encode_utf8(uid@).subrange(0, UID_METADATA_LIMIT as int)
        },
{
    if uid.as_bytes().len() <= UID_METADATA_LIMIT {
        owned(uid)
    } else {
        let (head, _) = uid.split_at(UID_METADATA_LIMIT);
        owned(head)
    }
}

/// The bytes that come before a window identity when it is hashed into a
/// participant id.
pub open spec fn participant_salt() -> Seq<u8> {
    seq![97u8, 117u8, 116u8, 104u8, 101u8, 110u8, 116u8, 105u8, 107u8, 0u8]
}

/// The participant id of a window identity: `window:` and the first sixteen
/// bytes of the SHA-256 of the salted identity, in hexadecimal.
pub open spec fn participant_of(uid: Seq<char>) -> Seq<char> {
    "window:"@ + hex(sha256_digest(participant_salt() + encode_utf8(uid)).subrange(0, 16))
}

/// The participant id of a window identity.
pub fn window_participant(uid: &str) -> (r: String)
    ensures
        r@ == participant_of(uid@),
{
    let salt: [u8; 10] = [97u8, 117u8, 116u8, 104u8, 101u8, 110u8, 116u8, 105u8, 107u8, 0u8];
    let data = bytes_after(salt.as_slice(), uid);
    proof {
        assert(salt@ =~= participant_salt());
    }
    let digest = sha256(data.as_slice());
    let tail = hex_text(digest.as_slice(), 16);
    let head = owned("window:");
    head.concat(tail.as_str())
}

/// The content hash of a message body: the SHA-256 of its bytes in hexadecimal.
pub fn content_hash(content: &str) -> (r: String)
    ensures
        r@ == hex(sha256_digest(encode_utf8(content@))),
{
    let data = bytes_after(&[], content);
    proof {
        assert(data@ =~= encode_utf8(content@));
    }
    let digest = sha256(data.as_slice());
    let r = hex_text(digest.as_slice(), 32);
    assert(digest@.subrange(0, 32) =~= digest@);
    r
}

/// Why window speech was turned away.
#[derive(Clone, Debug, PartialEq, Eq)]
pub enum Rejection {
    /// The identity header is missing or blank.
    IdentityMissing,
    /// The client message key is blank or too long.
    ClientKeyInvalid,
    /// The body holds no text.
    ContentBlank,
    /// The body is longer than `CONTENT_LIMIT` bytes.
    ContentOversize { limit_bytes: usize, content_bytes: usize },
    /// The client message key was already used with another body.
    MessageConflict,
    /// The participant speaks too often; it may retry after the given seconds.
    RateLimited { retry_after_seconds: u64 },
    /// The strand's intake refused the message, with its reason.
    Refused(String),
}

impl Rejection {
    /// The human-readable message of a rejection.
    pub fn message(&self) -> (r: String)
        ensures
            r@ == rejection_text(*self),
    {
        match self {
            Rejection::IdentityMissing => owned("window identity header is missing or blank"),
            Rejection::ClientKeyInvalid => owned(
                "client_message_id must be nonblank and at most 128 bytes",
            ),
            Rejection::ContentBlank => owned("content must contain text"),
            Rejection::ContentOversize { .. } => owned("content exceeds the 16384 byte limit"),
            Rejection::MessageConflict => owned(
                "client_message_id was already used with different content",
            ),
            Rejection::RateLimited { .. } => owned("window speech is rate limited; retry later"),
            Rejection::Refused(reason) => reason.clone(),
        }
    }
}

/// The message of each rejection.
pub open spec fn rejection_text(r: Rejection) -> Seq<char> {
    match r {
        Rejection::IdentityMissing => "window identity header is missing or blank"@,
        Rejection::ClientKeyInvalid => "client_message_id must be nonblank and at most 128 bytes"@,
        Rejection::ContentBlank => "content must contain text"@,
        Rejection::ContentOversize { .. } => "content exceeds the 16384 byte limit"@,
        Rejection::MessageConflict => "client_message_id was already used with different content"@,
        Rejection::RateLimited { .. } => "window speech is rate limited; retry later"@,
        Rejection::Refused(reason) => reason@,
    }
}

/// A window message as its sender submits it.
#[derive(Clone, Debug)]
pub struct WindowSendRequest {
    pub client_message_id: String,
    pub content: String,
}

/// The acknowledgement of accepted window speech.
#[derive(Clone, Debug)]
pub struct WindowSendAccepted {
    pub status: String,
    pub message_id: String,
    pub client_message_id: String,
    pub cursor: Option<i64>,
    pub received_at: String,
    pub receipt_id: String,
}

/// What window speech comes to.
#[derive(Clone, Debug)]
pub enum Outcome {
    Accepted(WindowSendAccepted),
    Rejected(Rejection),
}

/// Window speech that passed its checks: the participant it comes from, the
/// client key and the hash of its body, with which the reservation is looked up.
#[derive(Clone, Debug)]
pub struct Ticket {
    pub participant: String,
    pub client: String,
    pub hash: String,
}

/// A message already reserved under a participant's client key.
#[derive(Clone, Debug)]
pub struct Reserved {
    pub content_hash: String,
    pub message_id: String,
    pub cursor: Option<i64>,
    pub received_at: String,
    pub inbox_id: String,
}

/// The check that window speech must pass, in order: a nonblank identity, a
/// nonblank client key of at most `CLIENT_KEY_LIMIT` bytes, a body with text
/// of at most `CONTENT_LIMIT` bytes.
pub open spec fn send_check(
    uid: Seq<char>,
    client: Seq<char>,
    client_bytes: int,
    content: Seq<char>,
    content_bytes: int,
) -> Option<Rejection> {
    if blank(uid) {
        Some(Rejection::IdentityMissing)
    } else if blank(client) || client_bytes > CLIENT_KEY_LIMIT {
        Some(Rejection::ClientKeyInvalid)
    } else if blank(content) {
        Some(Rejection::ContentBlank)
    } else if content_bytes > CONTENT_LIMIT {
        Some(
            Rejection::ContentOversize {
                limit_bytes: CONTENT_LIMIT,
                content_bytes: content_bytes as usize,
            },
        )
    } else {
        None
    }
}

/// The label of the strand that holds a participant's conversation.
pub open spec fn window_label_of(prefix: Seq<char>, participant: Seq<char>) -> Seq<char> {
    prefix + participant
}

/// The largest page of a window transcript.
pub const TRANSCRIPT_LIMIT: usize = 200;

/// One entry of a window transcript: its position in the strand, and the entry
/// as the store renders it.
#[derive(Clone, Debug)]
pub struct TranscriptEntry {
    pub seq: i64,
    pub body: String,
}

/// A page of a participant's window conversation.
#[derive(Clone, Debug)]
pub struct WindowTranscript {
    pub participant: String,
    pub entries: Vec<TranscriptEntry>,
    pub next_since: i64,
    pub has_more: bool,
    pub empty: bool,
}

/// What the store holds after a position: the entries of one page, whether
/// more follow, and whether the conversation is empty.
#[derive(Clone, Debug)]
pub struct TranscriptPage {
    pub entries: Vec<TranscriptEntry>,
    pub has_more: bool,
    pub empty: bool,
}

/// The window ingress rules of a service: speech from an authenticated web
/// window lands on one strand per participant, labelled with `im_label_prefix`
/// followed by the participant id.
#[derive(Clone, Debug)]
pub struct Service {
    pub im_label_prefix: String,
}

impl Service {
    /// The label of the strand that holds the conversation of `uid`.
    pub fn window_label(&self, uid: &str) -> (r: String)
        ensures
            r@ == window_label_of(self.im_label_prefix@, participant_of(uid@)),
    {
        let participant = window_participant(uid);
        joined(self.im_label_prefix.as_str(), participant.as_str())
    }

    /// The checks of window speech before any lookup: `Err` with the
    /// rejection when one fails, else the ticket to look the reservation up
    /// with.
    pub fn window_send(&self, uid: &str, request: &WindowSendRequest) -> (r: Result<Ticket, Outcome>)
        ensures
            match send_check(
                uid@,
                request.client_message_id@,
                encode_utf8(request.client_message_id@).len() as int,
                request.content@,
                encode_utf8(request.content@).len() as int,
            ) {
                Some(rejection) => r matches Err(Outcome::Rejected(x)) && x == rejection,
                None => r matches Ok(t) && t.participant@ == participant_of(uid@)
                    && t.client@ == request.client_message_id@ && t.hash@ == hex(
                    sha256_digest(encode_utf8(request.content@)),
                ),
            },
    {
        if is_blank(uid) {
            return Err(Outcome::Rejected(Rejection::IdentityMissing));
        }
        let client = request.client_message_id.as_str();
        if is_blank(client) || client.as_bytes().len() > CLIENT_KEY_LIMIT {
            return Err(Outcome::Rejected(Rejection::ClientKeyInvalid));
        }
        let content = request.content.as_str();
        if is_blank(content) {
            return Err(Outcome::Rejected(Rejection::ContentBlank));
        }
        let content_bytes = content.as_bytes().len();
        if content_bytes > CONTENT_LIMIT {
            return Err(
                Outcome::Rejected(
                    Rejection::ContentOversize {
                        limit_bytes: CONTENT_LIMIT,
                        content_bytes,
                    },
                ),
            );
        }
        Ok(
            Ticket {
                participant: window_participant(uid),
                client: owned(client),
                hash: content_hash(content),
            },
        )
    }

    /// What an earlier reservation under the ticket's client key makes of the
    /// speech: the same body is the earlier acceptance again, another body is
    /// a conflict, and without one the speech goes on (`None`).
    pub fn window_reserved(&self, ticket: &Ticket, reserved: &Option<Reserved>) -> (r: Option<
        Outcome,
    >)
        ensures
            reserved_answer(*ticket, *reserved, r),
    {
        match reserved {
            None => None,
            Some(x) => {
                if str_eq(x.content_hash.as_str(), ticket.hash.as_str()) {
                    Some(
                        Outcome::Accepted(
                            WindowSendAccepted {
                                status: owned("accepted"),
                                message_id: x.message_id.clone(),
                                client_message_id: ticket.client.clone(),
                                cursor: x.cursor,
                                received_at: x.received_at.clone(),
                                receipt_id: x.inbox_id.clone(),
                            },
                        ),
                    )
                } else {
                    Some(Outcome::Rejected(Rejection::MessageConflict))
                }
            },
        }
    }

    /// What the strand's intake made of the speech: `ingest` is the receipt
    /// id of the queued entry, or the reason it was refused.
    pub fn window_accepted(
        &self,
        ticket: &Ticket,
        message_id: String,
        received_at: String,
        ingest: Result<String, String>,
    ) -> (r: Outcome)
        ensures
            match ingest {
                Ok(receipt) => r matches Outcome::Accepted(a) && accepted_as(
                    a,
                    message_id@,
                    ticket.client@,
                    None,
                    received_at@,
                    receipt@,
                ),
                Err(reason) => r matches Outcome::Rejected(Rejection::Refused(x)) && x@ == reason@,
            },
    {
        match ingest {
            Ok(receipt) => Outcome::Accepted(
                WindowSendAccepted {
                    status: owned("accepted"),
                    message_id,
                    client_message_id: ticket.client.clone(),
                    cursor: None,
                    received_at,
                    receipt_id: receipt,
                },
            ),
            Err(reason) => Outcome::Rejected(Rejection::Refused(reason)),
        }
    }

    /// A page of the conversation of `uid` after position `since`: `page` is
    /// what the store holds there, `None` when the participant has no strand
    /// yet. The next position is that of the last entry, else `since`.
    pub fn window_transcript(&self, uid: &str, since: i64, page: Option<TranscriptPage>) -> (r:
        WindowTranscript)
        ensures
            r.participant@ == participant_of(uid@),
            match page {
                None => r.entries@.len() == 0 && r.next_since == since && !r.has_more && r.empty,
                Some(p) => r.entries@ == p.entries@ && r.has_more == p.has_more && r.empty
                    == p.empty && r.next_since == (if p.entries@.len() == 0 {
                    since
                } else {
                    p.entries@.last().seq
                }),
            },
    {
        let participant = window_participant(uid);
        match page {
            None => WindowTranscript {
                participant,
                entries: Vec::new(),
                next_since: since,
                has_more: false,
                empty: true,
            },
            Some(p) => {
                let n = p.entries.len();
                let next_since = if n == 0 {
                    since
                } else {
                    p.entries[n - 1].seq
                };
                WindowTranscript {
                    participant,
                    entries: p.entries,
                    next_since,
                    has_more: p.has_more,
                    empty: p.empty,
                }
            },
        }
    }
}

/// The size of a transcript page asked for with `limit`: at least one entry
/// and at most `TRANSCRIPT_LIMIT`.
pub fn transcript_limit(limit: usize) -> (r: usize)
    ensures
        r == (if limit < 1 {
            1
        } else if limit > TRANSCRIPT_LIMIT {
            TRANSCRIPT_LIMIT
        } else {
            limit
        }),
{
    if limit < 1 {
        1
    } else if limit > TRANSCRIPT_LIMIT {
        TRANSCRIPT_LIMIT
    } else {
        limit
    }
}

/// An acknowledgement carries these values, with status `accepted`.
pub open spec fn accepted_as(
    a: WindowSendAccepted,
    message_id: Seq<char>,
    client: Seq<char>,
    cursor: Option<i64>,
    received_at: Seq<char>,
    receipt: Seq<char>,
) -> bool {
    &&& a.status@ == "accepted"@
    &&& a.message_id@ == message_id
    &&& a.client_message_id@ == client
    &&& a.cursor == cursor
    &&& a.received_at@ == received_at
    &&& a.receipt_id@ == receipt
}

/// How speech is answered against the reservation stored under its client
/// key: the same body is the earlier acceptance again, another body is a
/// conflict, and without a reservation the speech goes on (`None`).
pub open spec fn reserved_answer(ticket: Ticket, reserved: Option<Reserved>, r: Option<Outcome>) -> bool {
    match reserved {
        None => r is None,
        Some(x) => if x.content_hash@ == ticket.hash@ {
            r matches Some(Outcome::Accepted(a)) && accepted_as(
                a,
                x.message_id@,
                ticket.client@,
                x.cursor,
                x.received_at@,
                x.inbox_id@,
            )
        } else {
            r == Some(Outcome::Rejected(Rejection::MessageConflict))
        },
    }
}

/// A reservation records an acceptance of a ticket: the body's hash, and
/// the acceptance's message, cursor, time and receipt.
pub open spec fn records(kept: Reserved, ticket: Ticket, a: WindowSendAccepted) -> bool {
    &&& kept.content_hash@ == ticket.hash@
    &&& kept.message_id@ == a.message_id@
    &&& kept.cursor == a.cursor
    &&& kept.received_at@ == a.received_at@
    &&& kept.inbox_id@ == a.receipt_id@
}

/// The reservation to store once speech with `ticket` is accepted as `a`.
pub fn reservation_of(ticket: &Ticket, a: &WindowSendAccepted) -> (r: Reserved)
    ensures
        records(r, *ticket, *a),
{
    Reserved {
        content_hash: ticket.hash.clone(),
        message_id: a.message_id.clone(),
        cursor: a.cursor,
        received_at: a.received_at.clone(),
        inbox_id: a.receipt_id.clone(),
    }
}

/// Sending the same speech again is answered with the first acceptance: once
/// a reservation records the acceptance of a body, a later ticket under the
/// same client key with the same body gets the same message and receipt
/// back, and one with a body of another SHA-256 digest is a conflict.
pub proof fn resent_speech_is_answered_once(
    first: Ticket,
    first_body: Seq<char>,
    a: WindowSendAccepted,
    kept: Reserved,
    again: Ticket,
    again_body: Seq<char>,
    r: Option<Outcome>,
)
    requires
        first.hash@ == hex(sha256_digest(encode_utf8(first_body))),
        again.hash@ == hex(sha256_digest(encode_utf8(again_body))),
        records(kept, first, a),
        reserved_answer(again, Some(kept), r),
    ensures
        again_body == first_body ==> (r matches Some(Outcome::Accepted(b)) && b.message_id@
            == a.message_id@ && b.receipt_id@ == a.receipt_id@ && b.client_message_id@
            == again.client@),
        sha256_digest(encode_utf8(again_body)) != sha256_digest(encode_utf8(first_body)) ==> r
            == Some(Outcome::Rejected(Rejection::MessageConflict)),
{
    if sha256_digest(encode_utf8(again_body)) != sha256_digest(encode_utf8(first_body)) {
        if again.hash@ == first.hash@ {
            crate::digest::hex_is_injective(
                sha256_digest(encode_utf8(again_body)),
                sha256_digest(encode_utf8(first_body)),
            );
        }
    }
}

/// A transcript page from the entries read after a position, where the
/// store read up to one entry more than `limit`: the page keeps the first
/// `limit` of them and says whether more follow.
pub fn transcript_page(rows: Vec<TranscriptEntry>, limit: usize, empty: bool) -> (r: TranscriptPage)
    ensures
        r.has_more == (rows@.len() > limit),
        r.entries@ == (if rows@.len() > limit {
            rows@.subrange(0, limit as int)
        } else {
            rows@
        }),
        r.empty == empty,
{
    let mut rows = rows;
    let has_more = rows.len() > limit;
    if has_more {
        rows.truncate(limit);
    }
    TranscriptPage { entries: rows, has_more, empty }
}

} // verus!
