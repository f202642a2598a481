use vstd::prelude::*;

use crate::num::{i64_text, int_text};
use crate::text::{joined, owned};

verus! {

/// Scale safety valve: past this many undrained entries for one strand,
/// ingest rejects instead of growing the queue without bound.
pub const GATE: i64 = 500;

/// An idempotency key carried by an ingest: a downstream request or a webhook
/// delivery, with the digest of its payload.
#[derive(Clone, Debug)]
pub enum Replay {
    Downstream { owner: String, request: String, digest: String },
    Webhook { subscription: String, delivery: String, digest: String },
}

/// The payload digest of a replay key.
pub open spec fn replay_digest(replay: Replay) -> Seq<char> {
    match replay {
        Replay::Downstream { digest, .. } => digest@,
        Replay::Webhook { digest, .. } => digest@,
    }
}

/// The refusal for a replay whose payload differs from the accepted one.
pub open spec fn conflict_text(replay: Replay) -> Seq<char> {
    match replay {
        Replay::Downstream { .. } => "downstream request conflicts with an accepted payload"@,
        Replay::Webhook { .. } => "webhook delivery conflicts with an accepted payload"@,
    }
}

/// The payload digest of a replay key.
pub fn digest(replay: &Replay) -> (r: &String)
    ensures
        r@ == replay_digest(*replay),
{
    match replay {
        Replay::Downstream { digest, .. } => digest,
        Replay::Webhook { digest, .. } => digest,
    }
}

/// The refusal for a replay whose payload differs from the accepted one.
pub fn conflict(replay: &Replay) -> (r: &'static str)
    ensures
        r@ == conflict_text(*replay),
{
    match replay {
        Replay::Downstream { .. } => "downstream request conflicts with an accepted payload",
        Replay::Webhook { .. } => "webhook delivery conflicts with an accepted payload",
    }
}

/// The text of an over-budget refusal.
pub open spec fn reason_text(total: i64, bytes: i64) -> Seq<char> {
    "strand context is over budget ("@ + int_text(total as int) + " estimated bytes, budget "@
        + int_text(bytes as int) + ")"@
}

/// The text of an over-budget refusal.
pub fn reason(total: i64, bytes: i64) -> (r: String)
    ensures
        r@ == reason_text(total, bytes),
{
    let a = joined("strand context is over budget (", i64_text(total).as_str());
    let b = joined(a.as_str(), " estimated bytes, budget ");
    let c = joined(b.as_str(), i64_text(bytes).as_str());
    joined(c.as_str(), ")")
}

/// The text of a full-inbox refusal.
pub open spec fn full_text(pending: i64) -> Seq<char> {
    "strand inbox is full ("@ + int_text(pending as int) + " pending, gate "@ + int_text(
        GATE as int,
    ) + ")"@
}

/// The text of a full-inbox refusal.
pub fn inbox_full(pending: i64) -> (r: String)
    ensures
        r@ == full_text(pending),
{
    let a = joined("strand inbox is full (", i64_text(pending).as_str());
    let b = joined(a.as_str(), " pending, gate ");
    let c = joined(b.as_str(), i64_text(GATE).as_str());
    joined(c.as_str(), ")")
}

/// Whether one more entry may be queued on a strand holding `pending`.
pub fn capacity(pending: i64) -> (r: Result<(), String>)
    ensures
        pending < GATE ==> r is Ok,
        pending >= GATE ==> (r matches Err(e) && e@ == full_text(pending)),
{
    if pending < GATE {
        Ok(())
    } else {
        Err(inbox_full(pending))
    }
}

/// The record kept for an accepted replay key.
#[derive(Clone, Debug)]
pub struct Prior {
    pub accepted: String,
    pub strand: String,
    pub inbox: String,
}

/// An estimate of a provider input against its byte budget.
#[derive(Clone, Copy, Debug, PartialEq, Eq, Structural)]
pub struct Estimate {
    pub total: i64,
    pub budget: i64,
}

/// Whether an admission estimate exceeds its budget.
pub open spec fn over(a: Option<Estimate>) -> bool {
    a matches Some(e) && e.total > e.budget
}

/// What ingest reads about a strand before deciding.
#[derive(Clone, Debug)]
pub struct IntakeFacts {
    /// The record stored for the ingest's replay key, if any.
    pub prior: Option<Prior>,
    /// A strand-drive incident is active (the driver needs recovery).
    pub drive_hold: bool,
    /// A context-budget incident is active.
    pub context_hold: bool,
    /// With an admission budget: the estimate with the candidate added.
    pub admission: Option<Estimate>,
    /// Entries queued on the strand.
    pub pending: i64,
}

/// What ingest does.
#[derive(Clone, Debug)]
pub enum IntakeDecision {
    /// The key was accepted before with this payload: answer with that receipt.
    Replayed { strand: String, inbox: String },
    /// The key was accepted before with another payload.
    Conflict(String),
    /// Refused: the strand's driver needs recovery (its incident is reopened
    /// by `operation`).
    DriveHeld { operation: String },
    /// Refused: the strand is over its context budget (its incident repeats,
    /// by `operation`).
    ContextHeld { operation: String },
    /// Refused: the candidate would put the strand over budget; the reason,
    /// and the code and operation of the context-budget incident opened.
    OverBudget { reason: String, code: String, operation: String },
    /// Refused: the inbox is at its limit; the message, and the operation
    /// of the incident opened.
    InboxFull { reason: String, operation: String },
    /// Queue the entry.
    Accept,
}

/// The decision of ingest: a replay key already accepted is
/// answered from its record, or refused when the payload differs; then, when
/// holds are enforced, an active drive or context-budget incident refuses;
/// then an admission budget that the candidate would exceed refuses; then a
/// full inbox refuses; otherwise the entry is accepted.
pub fn intake(replay: &Option<Replay>, enforce: bool, facts: &IntakeFacts) -> (r: IntakeDecision)
    ensures
        replay is Some && facts.prior is Some ==> replay_answer(replay->0, facts.prior->0, r),
        !(replay is Some && facts.prior is Some) ==> if enforce && facts.drive_hold {
            r matches IntakeDecision::DriveHeld { operation } && operation@ == "ingest_active_guard"@
        } else if enforce && facts.context_hold {
            r matches IntakeDecision::ContextHeld { operation } && operation@
                == "ingest_active_guard"@
        } else if over(facts.admission) {
            r matches IntakeDecision::OverBudget { reason, code, operation } && reason@
                == reason_text(facts.admission->0.total, facts.admission->0.budget) && code@
                == "candidate_input_exceeds_budget"@ && operation@ == "ingest_admission"@
        } else if facts.pending >= GATE {
            r matches IntakeDecision::InboxFull { reason, operation } && reason@ == full_text(
                facts.pending,
            ) && operation@ == "ingest_admission"@
        } else {
            r is Accept
        },
        r is Accept ==> facts.pending < GATE && !over(facts.admission) && (enforce
            ==> !facts.drive_hold && !facts.context_hold),
{
    if let Some(k) = replay {
        if let Some(p) = &facts.prior {
            if crate::text::str_eq(p.accepted.as_str(), digest(k).as_str()) {
                return IntakeDecision::Replayed { strand: p.strand.clone(), inbox: p.inbox.clone() };
            }
            return IntakeDecision::Conflict(owned(conflict(k)));
        }
    }
    if enforce && facts.drive_hold {
        return IntakeDecision::DriveHeld { operation: owned("ingest_active_guard") };
    }
    if enforce && facts.context_hold {
        return IntakeDecision::ContextHeld { operation: owned("ingest_active_guard") };
    }
    if let Some(e) = facts.admission {
        if e.total > e.budget {
            return IntakeDecision::OverBudget {
                reason: reason(e.total, e.budget),
                code: owned("candidate_input_exceeds_budget"),
                operation: owned("ingest_admission"),
            };
        }
    }
    if facts.pending >= GATE {
        return IntakeDecision::InboxFull {
            reason: inbox_full(facts.pending),
            operation: owned("ingest_admission"),
        };
    }
    IntakeDecision::Accept
}

/// What starting a turn with a budget reads about a strand.
#[derive(Clone, Debug)]
pub struct LaunchFacts {
    /// The running turn of the strand, if any.
    pub running: Option<String>,
    /// The strand's inbox holds no provider item.
    pub idle_inbox: bool,
    /// Recovery was asked for and the strand holds failed receipts.
    pub scarred: bool,
    /// A context-budget incident is active.
    pub context_hold: bool,
    /// With an admission budget: the estimate with everything pending drained.
    pub admission: Option<Estimate>,
}

/// What starting a turn with a budget does.
#[derive(Clone, Debug)]
pub enum LaunchDecision {
    /// A turn is already running: report it.
    Running(String),
    /// Nothing to do.
    Idle,
    /// Held by the active context-budget incident (it repeats, by
    /// `operation`).
    Held { operation: String },
    /// Held: draining would exceed the budget; the reason, and the code and
    /// operation of the context-budget incident opened.
    OverBudget { reason: String, code: String, operation: String },
    /// Drain the inbox into a new turn.
    Drain,
}

/// Whether a launch drains the inbox into a new turn: no turn runs, there is
/// work (or failed receipts to recover from), no context incident holds, and
/// the drain stays within the admission budget.
pub open spec fn launch_drains(facts: LaunchFacts) -> bool {
    facts.running is None && !(facts.idle_inbox && !facts.scarred) && !facts.context_hold
        && !over(facts.admission)
}

/// The decision before draining a strand into a new turn: a running turn wins; an
/// empty inbox of a strand without failed receipts to recover is idle; an
/// active context incident holds; a drain that would exceed the admission
/// budget holds; otherwise the inbox is drained.
pub fn launch(facts: &LaunchFacts) -> (r: LaunchDecision)
    ensures
        facts.running matches Some(t) ==> (r matches LaunchDecision::Running(u) && u@ == t@),
        facts.running is None ==> if facts.idle_inbox && !facts.scarred {
            r is Idle
        } else if facts.context_hold {
            r matches LaunchDecision::Held { operation } && operation@ == "pending_active_guard"@
        } else if over(facts.admission) {
            r matches LaunchDecision::OverBudget { reason, code, operation } && reason@
                == reason_text(facts.admission->0.total, facts.admission->0.budget) && code@
                == "pending_drain_would_exceed_budget"@ && operation@ == "pending_drain_admission"@
        } else {
            r is Drain
        },
        (r is Drain) == launch_drains(*facts),
{
    if let Some(t) = &facts.running {
        return LaunchDecision::Running(t.clone());
    }
    if facts.idle_inbox && !facts.scarred {
        return LaunchDecision::Idle;
    }
    if facts.context_hold {
        return LaunchDecision::Held { operation: owned("pending_active_guard") };
    }
    if let Some(e) = facts.admission {
        if e.total > e.budget {
            return LaunchDecision::OverBudget {
                reason: reason(e.total, e.budget),
                code: owned("pending_drain_would_exceed_budget"),
                operation: owned("pending_drain_admission"),
            };
        }
    }
    LaunchDecision::Drain
}

/// After draining: a turn starts when something was drained, or when the
/// strand is being recovered from failed receipts.
pub fn starts_after_drain(drained: usize, scarred: bool) -> (r: bool)
    ensures
        r == (drained > 0 || scarred),
{
    drained > 0 || scarred
}

/// How ingest answers a replay key for which a record is stored: the same
/// payload gets the recorded receipt, another payload a conflict.
pub open spec fn replay_answer(replay: Replay, prior: Prior, r: IntakeDecision) -> bool {
    if prior.accepted@ == replay_digest(replay) {
        r matches IntakeDecision::Replayed { strand, inbox } && strand@ == prior.strand@ && inbox@
            == prior.inbox@
    } else {
        r matches IntakeDecision::Conflict(m) && m@ == conflict_text(replay)
    }
}

/// The record stored for a replay key once its payload is accepted on
/// `strand` as inbox entry `inbox`.
pub fn prior_of(replay: &Replay, strand: &str, inbox: &str) -> (r: Prior)
    ensures
        r.accepted@ == replay_digest(*replay),
        r.strand@ == strand@,
        r.inbox@ == inbox@,
{
    Prior { accepted: digest(replay).clone(), strand: owned(strand), inbox: owned(inbox) }
}

/// Ingest is idempotent per replay key: once a payload is accepted under a
/// key and its record stored, the same payload under that key is answered
/// with the same receipt, and another payload is refused as a conflict.
pub proof fn replays_answer_with_the_first_receipt(
    first: Replay,
    strand: Seq<char>,
    inbox: Seq<char>,
    prior: Prior,
    again: Replay,
    r: IntakeDecision,
)
    requires
        prior.accepted@ == replay_digest(first),
        prior.strand@ == strand,
        prior.inbox@ == inbox,
        replay_answer(again, prior, r),
    ensures
        replay_digest(again) == replay_digest(first) ==> (r matches IntakeDecision::Replayed {
            strand: s,
            inbox: i,
        } && s@ == strand && i@ == inbox),
        replay_digest(again) != replay_digest(first) ==> (r matches IntakeDecision::Conflict(m)
            && m@ == conflict_text(again)),
{
}

/// A replay key is compared by its payload digest, never by its request or
/// delivery id: re-sending a downstream request or a webhook delivery with the
/// payload digest that was accepted is answered with the recorded strand and
/// inbox entry, and any other payload digest under that key is refused as a
/// conflict of its kind.
pub proof fn replay_keys_compare_payload_digests(
    owner: String,
    request: String,
    subscription: String,
    delivery: String,
    digest: String,
    prior: Prior,
    r: IntakeDecision,
    w: IntakeDecision,
)
    requires
        replay_answer(Replay::Downstream { owner, request, digest }, prior, r),
        replay_answer(Replay::Webhook { subscription, delivery, digest }, prior, w),
    ensures
        prior.accepted@ == digest@ ==> (r matches IntakeDecision::Replayed { strand, inbox }
            && strand@ == prior.strand@ && inbox@ == prior.inbox@),
        prior.accepted@ != digest@ ==> (r matches IntakeDecision::Conflict(m) && m@
            == "downstream request conflicts with an accepted payload"@),
        prior.accepted@ == digest@ ==> (w matches IntakeDecision::Replayed { strand, inbox }
            && strand@ == prior.strand@ && inbox@ == prior.inbox@),
        prior.accepted@ != digest@ ==> (w matches IntakeDecision::Conflict(m) && m@
            == "webhook delivery conflicts with an accepted payload"@),
{
}

} // verus!
