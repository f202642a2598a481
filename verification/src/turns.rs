use vstd::prelude::*;

use crate::codec::{EffectTransitionReason, TurnStatus};
use crate::intake::{launch_drains, LaunchFacts};
use crate::json::{json_string_text, string_text};
use crate::records::Completion;
use crate::text::{blank, is_blank, joined, joined3, owned};

verus! {

/// The reasons and detail with which a turn left running is reconciled:
/// the effect reasons for effects not yet dispatched and for those in
/// flight, and the error text of the failed turn.
#[derive(Clone, Debug)]
pub struct StopReasons {
    pub before: EffectTransitionReason,
    pub during: EffectTransitionReason,
    pub detail: String,
}

/// How a running turn is reconciled: one stopped on purpose (with the
/// stored text of its stop cause) reports the stop; any other was cut off by
/// a restart.
pub open spec fn stop_spec(cause: Option<Seq<char>>) -> (
    EffectTransitionReason,
    EffectTransitionReason,
    Seq<char>,
) {
    match cause {
        Some(c) => (
            EffectTransitionReason::TurnStoppedBeforeDispatch,
            EffectTransitionReason::TurnStoppedDuringDispatch,
            "interrupted by "@ + c,
        ),
        None => (
            EffectTransitionReason::RestartBeforeDispatch,
            EffectTransitionReason::RestartDuringDispatch,
            "interrupted by restart"@,
        ),
    }
}

/// The reasons and error text for reconciling a turn left running, given
/// the stored text of its stop cause, if it was stopped on purpose.
pub fn stop_reasons(cause: Option<&str>) -> (r: StopReasons)
    ensures
        ({
            let s = stop_spec(
                match cause {
                    Some(c) => Some(c@),
                    None => None,
                },
            );
            r.before == s.0 && r.during == s.1 && r.detail@ == s.2
        }),
{
    match cause {
        Some(c) => StopReasons {
            before: EffectTransitionReason::TurnStoppedBeforeDispatch,
            during: EffectTransitionReason::TurnStoppedDuringDispatch,
            detail: joined("interrupted by ", c),
        },
        None => StopReasons {
            before: EffectTransitionReason::RestartBeforeDispatch,
            during: EffectTransitionReason::RestartDuringDispatch,
            detail: owned("interrupted by restart"),
        },
    }
}

/// The system notice left in a strand after a stopped turn.
pub open spec fn interruption_spec(turn: Seq<char>, cause: Seq<char>) -> Seq<char> {
    "<system_message>\nThe previous turn ("@ + turn + ") was interrupted by "@ + cause
        + ". Its partial output and external effects may be incomplete; inspect durable effect state before retrying.\n</system_message>"@
}

pub fn interruption_text(turn: &str, cause: &str) -> (r: String)
    ensures
        r@ == interruption_spec(turn@, cause@),
{
    let head = joined3("<system_message>\nThe previous turn (", turn, ") was interrupted by ");
    let body = joined(head.as_str(), cause);
    body.concat(
        ". Its partial output and external effects may be incomplete; inspect durable effect state before retrying.\n</system_message>",
    )
}

/// Whether a completed turn's reply goes out to a labelled strand: the
/// strand has an external label and the reply holds text.
pub fn reply_due(label: &Option<String>, reply: &Option<String>) -> (r: bool)
    ensures
        r == (label is Some && reply is Some && !blank(reply->0@)),
{
    match (label, reply) {
        (Some(_), Some(text)) => !is_blank(text.as_str()),
        _ => false,
    }
}

/// The position a strand has seen after a completed turn: the one the
/// completion reports, else the one it had.
pub fn seen_after(sequence: Option<i64>, seen: i64) -> (r: i64)
    ensures
        r == (match sequence {
            Some(s) => s,
            None => seen,
        }),
{
    match sequence {
        Some(s) => s,
        None => seen,
    }
}

/// The key of a strand-scoped incident of kind `code`: `CODE:strand:ID`.
pub fn incident_key(code: &str, strand_id: &str) -> (r: String)
    ensures
        r@ == code@ + ":strand:"@ + strand_id@,
{
    joined3(code, ":strand:", strand_id)
}

/// The key of a strand's provider-turn-failure incident, whose kind is `code`.
pub fn provider_incident_key(code: &str, strand_id: &str) -> (r: String)
    ensures
        r@ == code@ + ":strand:"@ + strand_id@,
{
    incident_key(code, strand_id)
}

/// The key of a strand's runtime-turn-failure incident, whose kind is `code`.
pub fn runtime_incident_key(code: &str, strand_id: &str) -> (r: String)
    ensures
        r@ == code@ + ":strand:"@ + strand_id@,
{
    incident_key(code, strand_id)
}

/// The effect reasons with which a failed turn's effects are reconciled:
/// those not yet dispatched, and those in flight.
pub fn failed_reasons() -> (r: (EffectTransitionReason, EffectTransitionReason))
    ensures
        r.0 == EffectTransitionReason::TurnFailedBeforeDispatch,
        r.1 == EffectTransitionReason::TurnFailedDuringDispatch,
{
    (EffectTransitionReason::TurnFailedBeforeDispatch, EffectTransitionReason::TurnFailedDuringDispatch)
}

/// The message of a provider failure at `stage`.
pub fn provider_failure_message(stage: &str) -> (r: String)
    ensures
        r@ == "provider "@ + stage@ + " failed"@,
{
    joined3("provider ", stage, " failed")
}

/// Where the log of a turn is found.
pub fn trace_ref(turn: &str) -> (r: String)
    ensures
        r@ == "log://turn/"@ + turn@,
{
    joined("log://turn/", turn)
}

/// The evidence an effect settled by a tool result records.
pub fn reply_evidence(reply: &str) -> (r: String)
    ensures
        r@ == "tool_result:"@ + reply@,
{
    joined("tool_result:", reply)
}

/// The position a strand has seen after a failed turn is sealed: it never
/// goes back.
pub fn sealed_seen(before: i64, seen: i64) -> (r: i64)
    ensures
        r == (if before > seen {
            before
        } else {
            seen
        }),
        r >= before,
{
    if before > seen {
        before
    } else {
        seen
    }
}

/// Whether a tool call keeps provider replay material: when the provider
/// gave a raw item, an item id or a response id.
pub fn replay_kept(item: bool, mark: bool, response: bool) -> (r: bool)
    ensures
        r == (item || mark || response),
{
    item || mark || response
}

/// The provider state a strand keeps after a completed turn whose provider
/// gave response id `response`: the JSON object with the provider, the
/// opaque response id and the state's schema version, as serde_json writes
/// it (members in key order, no spaces).
pub open spec fn provider_state_text(provider: Seq<char>, response: Seq<char>) -> Seq<char> {
    "{\"opaque\":{\"response_id\":"@ + json_string_text(response) + "},\"provider\":"@
        + json_string_text(provider) + ",\"schema_version\":\"santi-v1\"}"@
}

/// The provider state written on completion: none without a response id.
pub fn provider_state(provider: &str, response: &Option<String>) -> (r: Option<String>)
    ensures
        match response {
            None => r is None,
            Some(x) => r matches Some(t) && t@ == provider_state_text(provider@, x@),
        },
{
    match response {
        None => None,
        Some(x) => {
            let head = joined("{\"opaque\":{\"response_id\":", string_text(x.as_str()).as_str());
            let mid = joined3(head.as_str(), "},\"provider\":", string_text(provider).as_str());
            Some(joined(mid.as_str(), ",\"schema_version\":\"santi-v1\"}"))
        },
    }
}

/// The kinds of the strand incidents that a completed turn resolves.
#[derive(Clone, Debug)]
pub struct TurnIncidentCodes {
    pub provider: String,
    pub runtime: String,
    pub budget: String,
}

/// An incident to resolve: its key and what resolved it.
#[derive(Clone, Debug)]
pub struct Resolution {
    pub key: String,
    pub resolved_by: String,
}

/// What completing a turn writes: the position the strand has seen, its
/// provider state, the incidents resolved, and whether a reply event goes
/// out.
#[derive(Clone, Debug)]
pub struct Finish {
    pub last_seen: i64,
    pub provider_state: Option<String>,
    pub resolutions: Vec<Resolution>,
    pub event_due: bool,
}

/// Completing turn `completion` of strand `strand`, which had seen `seen`,
/// has label `label` and answered with `reply`: the strand's provider,
/// runtime and execution-budget failure incidents are resolved, in that
/// order.
pub fn finish_plan(
    completion: &Completion,
    strand: &str,
    seen: i64,
    label: &Option<String>,
    reply: &Option<String>,
    codes: &TurnIncidentCodes,
) -> (r: Finish)
    ensures
        r.last_seen == (match completion.sequence {
            Some(s) => s,
            None => seen,
        }),
        match completion.response {
            None => r.provider_state is None,
            Some(x) => r.provider_state matches Some(t) && t@ == provider_state_text(
                completion.provider@,
                x@,
            ),
        },
        r.event_due == (label is Some && reply is Some && !blank(reply->0@)),
        r.resolutions@.len() == 3,
        r.resolutions@[0].key@ == codes.provider@ + ":strand:"@ + strand@,
        r.resolutions@[0].resolved_by@ == "provider.turn_succeeded"@,
        r.resolutions@[1].key@ == codes.runtime@ + ":strand:"@ + strand@,
        r.resolutions@[1].resolved_by@ == "runtime.turn_succeeded"@,
        r.resolutions@[2].key@ == codes.budget@ + ":strand:"@ + strand@,
        r.resolutions@[2].resolved_by@ == "execution_budget.turn_succeeded"@,
{
    let resolutions = vec![
        Resolution {
            key: incident_key(codes.provider.as_str(), strand),
            resolved_by: owned("provider.turn_succeeded"),
        },
        Resolution {
            key: incident_key(codes.runtime.as_str(), strand),
            resolved_by: owned("runtime.turn_succeeded"),
        },
        Resolution {
            key: incident_key(codes.budget.as_str(), strand),
            resolved_by: owned("execution_budget.turn_succeeded"),
        },
    ];
    Finish {
        last_seen: seen_after(completion.sequence, seen),
        provider_state: provider_state(completion.provider, &completion.response),
        resolutions,
        event_due: reply_due(label, reply),
    }
}

/// The failure text, effect reasons and strand notice of an interrupted turn.
#[derive(Clone, Debug)]
pub struct Interruption {
    pub detail: String,
    pub reasons: StopReasons,
    pub notice: String,
}

/// What interrupting a turn does once the stop is recorded: a turn that was
/// still running fails with `interrupted by CAUSE`, its open effects are
/// reconciled with the stopped-turn reasons, and the interruption notice is
/// written into its strand; a turn that had already ended is left as it is
/// (`None`).
pub fn interruption(turn: &str, cause: &str, was_running: bool) -> (r: Option<Interruption>)
    ensures
        !was_running ==> r is None,
        was_running ==> (r matches Some(x) && x.detail@ == "interrupted by "@ + cause@
            && x.reasons.before == EffectTransitionReason::TurnStoppedBeforeDispatch
            && x.reasons.during == EffectTransitionReason::TurnStoppedDuringDispatch
            && x.reasons.detail@ == x.detail@ && x.notice@ == interruption_spec(turn@, cause@)),
{
    if !was_running {
        return None;
    }
    let reasons = stop_reasons(Some(cause));
    Some(Interruption { detail: joined("interrupted by ", cause), reasons, notice: interruption_text(turn, cause) })
}

/// How many of a strand's turns are running.
pub open spec fn running_count(statuses: Seq<TurnStatus>) -> nat
    decreases statuses.len(),
{
    if statuses.len() == 0 {
        0
    } else {
        running_count(statuses.drop_last()) + if statuses.last() is Running {
            1nat
        } else {
            0nat
        }
    }
}

/// A strand's turns after an attempt to start one: a running turn is added
/// when the launch drains the inbox and a turn starts after the drain.
pub open spec fn after_start(statuses: Seq<TurnStatus>, facts: LaunchFacts, drained: usize) -> Seq<
    TurnStatus,
> {
    if launch_drains(facts) && (drained > 0 || facts.scarred) {
        statuses.push(TurnStatus::Running)
    } else {
        statuses
    }
}

/// A strand never runs two turns: where the facts report the strand's
/// running turn as the store holds it, an attempt to start a turn leaves at
/// most one running; a running turn leaves the strand as it was, and a
/// started turn is then the only one running.
pub proof fn one_running_turn_per_strand(
    statuses: Seq<TurnStatus>,
    facts: LaunchFacts,
    drained: usize,
)
    requires
        running_count(statuses) <= 1,
        (facts.running is None) == (running_count(statuses) == 0),
    ensures
        running_count(after_start(statuses, facts, drained)) <= 1,
        facts.running is Some ==> after_start(statuses, facts, drained) == statuses,
        launch_drains(facts) && (drained > 0 || facts.scarred) ==> running_count(
            after_start(statuses, facts, drained),
        ) == 1,
{
    if launch_drains(facts) && (drained > 0 || facts.scarred) {
        assert(statuses.push(TurnStatus::Running).drop_last() =~= statuses);
    }
}

proof fn lemma_running_count_update(statuses: Seq<TurnStatus>, i: int, to: TurnStatus)
    requires
        0 <= i < statuses.len(),
    ensures
        running_count(statuses.update(i, to)) + (if statuses[i] is Running {
            1int
        } else {
            0int
        }) == running_count(statuses) + (if to is Running {
            1int
        } else {
            0int
        }),
    decreases statuses.len(),
{
    let u = statuses.update(i, to);
    if i == statuses.len() - 1 {
        assert(u.drop_last() =~= statuses.drop_last());
    } else {
        assert(u.drop_last() =~= statuses.drop_last().update(i, to));
        lemma_running_count_update(statuses.drop_last(), i, to);
    }
}

/// Ending a turn frees its strand: when the turn at `i` completes or fails,
/// a strand that ran at most one turn runs one fewer if that turn was
/// running, and none is left running in its place.
pub proof fn ending_a_turn_frees_the_strand(statuses: Seq<TurnStatus>, i: int, to: TurnStatus)
    requires
        running_count(statuses) <= 1,
        0 <= i < statuses.len(),
        !(to is Running),
    ensures
        running_count(statuses.update(i, to)) <= 1,
        statuses[i] is Running ==> running_count(statuses.update(i, to)) == 0,
        !(statuses[i] is Running) ==> running_count(statuses.update(i, to)) == running_count(
            statuses,
        ),
{
    lemma_running_count_update(statuses, i, to);
}

/// The positions of the running turns among `statuses`, in order.
pub open spec fn running_positions(statuses: Seq<TurnStatus>) -> Seq<int>
    decreases statuses.len(),
{
    if statuses.len() == 0 {
        Seq::empty()
    } else {
        let rest = running_positions(statuses.drop_last());
        if statuses.last() is Running {
            rest.push(statuses.len() - 1)
        } else {
            rest
        }
    }
}

/// The turns after a restart: every turn left running has failed.
pub open spec fn after_restart(statuses: Seq<TurnStatus>) -> Seq<TurnStatus> {
    statuses.map_values(
        |s: TurnStatus|
            if s is Running {
                TurnStatus::Failed
            } else {
                s
            },
    )
}

/// A restart leaves no turn running: each turn that was running has failed,
/// every other keeps its status, and the orphans found are exactly as many
/// as the turns that were running.
pub proof fn restart_leaves_no_running_turn(statuses: Seq<TurnStatus>)
    ensures
        running_count(after_restart(statuses)) == 0,
        running_positions(statuses).len() == running_count(statuses),
        forall|i: int|
            0 <= i < statuses.len() ==> (#[trigger] after_restart(statuses)[i] == if statuses[i] is Running {
                TurnStatus::Failed
            } else {
                statuses[i]
            }),
        forall|k: int|
            0 <= k < running_positions(statuses).len() ==> {
                let p = #[trigger] running_positions(statuses)[k];
                0 <= p < statuses.len() && statuses[p] is Running
            },
    decreases statuses.len(),
{
    if statuses.len() > 0 {
        let rest = statuses.drop_last();
        restart_leaves_no_running_turn(rest);
        assert(after_restart(statuses).drop_last() =~= after_restart(rest));
    }
}

/// The statuses of a list of turns, each given with its strand.
pub open spec fn statuses_of(turns: Seq<(String, String, TurnStatus)>) -> Seq<TurnStatus> {
    turns.map_values(|t: (String, String, TurnStatus)| t.2)
}

/// What a restart does to one orphaned turn: the turn fails with `detail`,
/// and the runtime incident `incident` of its strand is opened.
#[derive(Clone, Debug)]
pub struct Orphan {
    pub turn: String,
    pub incident: String,
    pub detail: String,
}

/// Whether `o` is what a restart does to the turn `t` (id, strand, status).
pub open spec fn orphan_of(o: Orphan, t: (String, String, TurnStatus), code: Seq<char>) -> bool {
    o.turn@ == t.0@ && o.incident@ == code + ":strand:"@ + t.1@ && o.detail@
        == "interrupted by restart"@
}

/// What a restart does to a store's turns (each with its strand id): every
/// turn still running, in order, fails as interrupted by the restart, and
/// the runtime incident of kind `runtime_code` of its strand is opened.
pub fn restart_plan(turns: &Vec<(String, String, TurnStatus)>, runtime_code: &str) -> (r: Vec<Orphan>)
    ensures
        r@.len() == running_positions(statuses_of(turns@)).len(),
        forall|k: int|
            0 <= k < r@.len() ==> orphan_of(
                #[trigger] r@[k],
                turns@[running_positions(statuses_of(turns@))[k]],
                runtime_code@,
            ),
{
    let mut plan: Vec<Orphan> = Vec::new();
    let mut i: usize = 0;
    while i < turns.len()
        invariant
            i <= turns@.len(),
            plan@.len() == running_positions(statuses_of(turns@.subrange(0, i as int))).len(),
            forall|k: int|
                0 <= k < plan@.len() ==> orphan_of(
                    #[trigger] plan@[k],
                    turns@[running_positions(statuses_of(turns@.subrange(0, i as int)))[k]],
                    runtime_code@,
                ),
            forall|k: int|
                0 <= k < running_positions(statuses_of(turns@.subrange(0, i as int))).len() ==> {
                    let p = #[trigger] running_positions(statuses_of(turns@.subrange(0, i as int)))[k];
                    0 <= p < i
                },
        decreases turns.len() - i,
    {
        let ghost before = statuses_of(turns@.subrange(0, i as int));
        let ghost after = statuses_of(turns@.subrange(0, i + 1));
        assert(after.drop_last() =~= before);
        assert(after.last() == turns@[i as int].2);
        proof {
            restart_leaves_no_running_turn(before);
        }
        let t = &turns[i];
        if t.2 == TurnStatus::Running {
            let reasons = stop_reasons(None);
            plan.push(
                Orphan {
                    turn: t.0.clone(),
                    incident: runtime_incident_key(runtime_code, t.1.as_str()),
                    detail: reasons.detail,
                },
            );
        }
        i = i + 1;
    }
    assert(turns@.subrange(0, turns@.len() as int) =~= turns@);
    plan
}

} // verus!
