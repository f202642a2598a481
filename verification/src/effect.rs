use vstd::prelude::*;

use crate::codec::{EffectState, EffectTransitionReason};
use crate::records::Transition;
use crate::text::{owned, trim_spec, trimmed};

verus! {

/// A move of one effect: its new state, the reason recorded with it, whether
/// the effect is settled by it (`settled_at` is set), and whether it opens
/// the dispatch window (`dispatched_at` is set).
#[derive(Clone, Copy, Debug, PartialEq, Eq, Structural)]
pub struct Shift {
    pub state: EffectState,
    pub reason: EffectTransitionReason,
    pub settles: bool,
    pub dispatches: bool,
}

/// States from which no effect ever moves again.
pub open spec fn terminal(state: EffectState) -> bool {
    match state {
        EffectState::Confirmed | EffectState::NotDispatched | EffectState::ResolvedApplied
        | EffectState::ResolvedNotApplied => true,
        _ => false,
    }
}

/// The edges of the effect lifecycle.
pub open spec fn effect_edge(from: EffectState, to: EffectState) -> bool {
    match (from, to) {
        (EffectState::Prepared, EffectState::Dispatching) => true,
        (EffectState::Prepared, EffectState::NotDispatched) => true,
        (EffectState::Dispatching, EffectState::Confirmed) => true,
        (EffectState::Dispatching, EffectState::NotDispatched) => true,
        (EffectState::Dispatching, EffectState::Unknown) => true,
        (EffectState::Unknown, EffectState::ResolvedApplied) => true,
        (EffectState::Unknown, EffectState::ResolvedNotApplied) => true,
        _ => false,
    }
}

/// The move that opening the dispatch window makes, if the effect may take it.
pub open spec fn dispatch_next(current: EffectState) -> Option<Shift> {
    if current == EffectState::Prepared {
        Some(
            Shift {
                state: EffectState::Dispatching,
                reason: EffectTransitionReason::DispatchWindowOpened,
                settles: false,
                dispatches: true,
            },
        )
    } else {
        None
    }
}

/// Opening the dispatch window: only a prepared effect moves, to `Dispatching`.
pub fn dispatch(current: EffectState) -> (r: Result<Shift, String>)
    ensures
        dispatch_next(current) matches Some(s) ==> r == Ok::<Shift, String>(s),
        dispatch_next(current) is None ==> (r matches Err(e) && e@
            == "effect is not prepared for dispatch"@),
{
    match current {
        EffectState::Prepared => Ok(
            Shift {
                state: EffectState::Dispatching,
                reason: EffectTransitionReason::DispatchWindowOpened,
                settles: false,
                dispatches: true,
            },
        ),
        _ => Err(owned("effect is not prepared for dispatch")),
    }
}

/// The move that recording a tool result makes: `Confirmed` needs a
/// dispatching effect, `NotDispatched` a prepared or dispatching one, and the
/// effect must be bound to the tool call; any other target is refused.
pub open spec fn settle_next(
    target: EffectState,
    current: EffectState,
    bound: Option<Seq<char>>,
    call: Seq<char>,
) -> Option<Shift> {
    let allowed = match target {
        EffectState::Confirmed => current == EffectState::Dispatching,
        EffectState::NotDispatched => current == EffectState::Prepared || current
            == EffectState::Dispatching,
        _ => false,
    };
    if allowed && bound == Some(call) {
        Some(
            Shift {
                state: target,
                reason: if target == EffectState::Confirmed {
                    EffectTransitionReason::ResultPersisted
                } else {
                    EffectTransitionReason::DispatchRejected
                },
                settles: true,
                dispatches: false,
            },
        )
    } else {
        None
    }
}

/// Whether `target` is a state that a tool result may settle an effect in.
pub open spec fn settling_target(target: EffectState) -> bool {
    target == EffectState::Confirmed || target == EffectState::NotDispatched
}

/// Recording a tool result against an effect.
pub fn settlement(
    target: EffectState,
    current: EffectState,
    bound: &Option<String>,
    call: &str,
) -> (r: Result<Shift, String>)
    ensures
        !settling_target(target) ==> (r matches Err(e) && e@
            == "invalid terminal effect state for a tool result"@),
        settling_target(target) ==> match settle_next(
            target,
            current,
            crate::receipt::opt_view(*bound),
            call@,
        ) {
            Some(s) => r == Ok::<Shift, String>(s),
            None => r matches Err(e) && e@ == "effect/tool-call state mismatch"@,
        },
{
    let reason = match target {
        EffectState::Confirmed => EffectTransitionReason::ResultPersisted,
        EffectState::NotDispatched => EffectTransitionReason::DispatchRejected,
        _ => {
            return Err(owned("invalid terminal effect state for a tool result"));
        },
    };
    let allowed = match target {
        EffectState::Confirmed => current == EffectState::Dispatching,
        _ => current == EffectState::Prepared || current == EffectState::Dispatching,
    };
    let same = match bound {
        Some(b) => crate::text::str_eq(b.as_str(), call),
        None => false,
    };
    if !allowed || !same {
        return Err(owned("effect/tool-call state mismatch"));
    }
    Ok(Shift { state: target, reason, settles: true, dispatches: false })
}

/// The move that a failed result capture makes.
pub open spec fn unknown_next(reason: EffectTransitionReason, current: EffectState) -> Option<
    Shift,
> {
    if reason == EffectTransitionReason::ResultCaptureFailed && current
        == EffectState::Dispatching {
        Some(Shift { state: EffectState::Unknown, reason, settles: false, dispatches: false })
    } else {
        None
    }
}

/// Marking a dispatching effect unknown: only a failed
/// result capture may do it, and only to a dispatching effect.
pub fn mark_unknown(reason: EffectTransitionReason, current: EffectState) -> (r: Result<
    Shift,
    String,
>)
    ensures
        reason != EffectTransitionReason::ResultCaptureFailed ==> (r matches Err(e) && e@
            == "invalid live unknown-effect reason"@),
        reason == EffectTransitionReason::ResultCaptureFailed ==> match unknown_next(
            reason,
            current,
        ) {
            Some(s) => r == Ok::<Shift, String>(s),
            None => r matches Err(e) && e@ == "effect is not dispatching"@,
        },
{
    if reason != EffectTransitionReason::ResultCaptureFailed {
        return Err(owned("invalid live unknown-effect reason"));
    }
    if current != EffectState::Dispatching {
        return Err(owned("effect is not dispatching"));
    }
    Ok(Shift { state: EffectState::Unknown, reason, settles: false, dispatches: false })
}

/// What an operator decided about an effect whose outcome is unknown.
#[derive(Clone, Copy, Debug, PartialEq, Eq, Structural)]
pub enum EffectResolutionOutcome {
    Applied,
    NotApplied,
}

/// The move that an operator resolution makes.
pub open spec fn resolve_next(outcome: EffectResolutionOutcome, current: EffectState) -> Option<
    Shift,
> {
    if current == EffectState::Unknown {
        Some(
            match outcome {
                EffectResolutionOutcome::Applied => Shift {
                    state: EffectState::ResolvedApplied,
                    reason: EffectTransitionReason::OperatorResolvedApplied,
                    settles: true,
                    dispatches: false,
                },
                EffectResolutionOutcome::NotApplied => Shift {
                    state: EffectState::ResolvedNotApplied,
                    reason: EffectTransitionReason::OperatorResolvedNotApplied,
                    settles: true,
                    dispatches: false,
                },
            },
        )
    } else {
        None
    }
}

/// An operator's resolution of an effect. The evidence is
/// trimmed and must not be empty; an effect that does not exist gives
/// `Ok(None)`; only an unknown effect can be resolved. On success the move and
/// the trimmed evidence are returned.
pub fn resolution(
    outcome: EffectResolutionOutcome,
    evidence: &str,
    current: Option<EffectState>,
) -> (r: Result<Option<(Shift, String)>, String>)
    ensures
        trim_spec(evidence@).len() == 0 ==> (r matches Err(e) && e@
            == "effect resolution evidence must not be empty"@),
        trim_spec(evidence@).len() > 0 ==> match current {
            None => r == Ok::<Option<(Shift, String)>, String>(None),
            Some(c) => match resolve_next(outcome, c) {
                Some(s) => (r matches Ok(Some(p)) && p.0 == s && p.1@ == trim_spec(evidence@)),
                None => r matches Err(e) && e@ == "only an unknown effect can be resolved"@,
            },
        },
{
    let kept = trimmed(evidence);
    if kept.as_str().unicode_len() == 0 {
        return Err(owned("effect resolution evidence must not be empty"));
    }
    let state = match current {
        None => {
            return Ok(None);
        },
        Some(s) => s,
    };
    if state != EffectState::Unknown {
        return Err(owned("only an unknown effect can be resolved"));
    }
    let shift = match outcome {
        EffectResolutionOutcome::Applied => Shift {
            state: EffectState::ResolvedApplied,
            reason: EffectTransitionReason::OperatorResolvedApplied,
            settles: true,
            dispatches: false,
        },
        EffectResolutionOutcome::NotApplied => Shift {
            state: EffectState::ResolvedNotApplied,
            reason: EffectTransitionReason::OperatorResolvedNotApplied,
            settles: true,
            dispatches: false,
        },
    };
    Ok(Some((shift, kept)))
}

/// The move that ending a turn makes to one of its open effects: a prepared
/// effect was never dispatched (settled), a dispatching one has an unknown
/// outcome (left open); any other effect is untouched.
pub open spec fn reconcile_next(
    current: EffectState,
    before: EffectTransitionReason,
    during: EffectTransitionReason,
) -> Option<Shift> {
    if current == EffectState::Prepared {
        Some(
            Shift {
                state: EffectState::NotDispatched,
                reason: before,
                settles: true,
                dispatches: false,
            },
        )
    } else if current == EffectState::Dispatching {
        Some(Shift { state: EffectState::Unknown, reason: during, settles: false, dispatches: false })
    } else {
        None
    }
}

/// One open effect of a turn being reconciled.
pub fn reconcile_effect(
    current: EffectState,
    before: EffectTransitionReason,
    during: EffectTransitionReason,
) -> (r: Option<Shift>)
    ensures
        r == reconcile_next(current, before, during),
{
    match current {
        EffectState::Prepared => Some(
            Shift {
                state: EffectState::NotDispatched,
                reason: before,
                settles: true,
                dispatches: false,
            },
        ),
        EffectState::Dispatching => Some(
            Shift { state: EffectState::Unknown, reason: during, settles: false, dispatches: false },
        ),
        _ => None,
    }
}

/// The moves that ending a turn makes to the listed effects, in order: each
/// listed effect with a move, paired with its id.
pub open spec fn reconciled(
    open: Seq<(Seq<char>, EffectState)>,
    before: EffectTransitionReason,
    during: EffectTransitionReason,
) -> Seq<(Seq<char>, Shift)>
    decreases open.len(),
{
    if open.len() == 0 {
        Seq::empty()
    } else {
        let rest = reconciled(open.drop_last(), before, during);
        match reconcile_next(open.last().1, before, during) {
            Some(s) => rest.push((open.last().0, s)),
            None => rest,
        }
    }
}

pub open spec fn open_view(open: Seq<(String, EffectState)>) -> Seq<(Seq<char>, EffectState)> {
    open.map_values(|p: (String, EffectState)| (p.0@, p.1))
}

pub open spec fn moves_view(moves: Seq<(String, Shift)>) -> Seq<(Seq<char>, Shift)> {
    moves.map_values(|p: (String, Shift)| (p.0@, p.1))
}

/// The moves that ending a turn makes to its effects:
/// for each listed effect in order, its id and its move, skipping effects
/// that are neither prepared nor dispatching.
pub fn reconcile_effects(
    open: &Vec<(String, EffectState)>,
    before: EffectTransitionReason,
    during: EffectTransitionReason,
) -> (r: Vec<(String, Shift)>)
    ensures
        moves_view(r@) == reconciled(open_view(open@), before, during),
{
    let mut out: Vec<(String, Shift)> = Vec::new();
    let mut i: usize = 0;
    while i < open.len()
        invariant
            i <= open.len(),
            moves_view(out@) == reconciled(open_view(open@).take(i as int), before, during),
        decreases open.len() - i,
    {
        assert(open_view(open@).take(i + 1).drop_last() =~= open_view(open@).take(i as int));
        if let Some(shift) = reconcile_effect(open[i].1, before, during) {
            let ghost prev = out@;
            out.push((open[i].0.clone(), shift));
            assert(moves_view(out@) =~= moves_view(prev).push((open@[i as int].0@, shift)));
        }
        i = i + 1;
    }
    assert(open_view(open@).take(open.len() as int) =~= open_view(open@));
    out
}

/// Every move that the lifecycle functions make follows an edge of the
/// lifecycle, and settles the effect exactly when it ends in a terminal state.
pub proof fn lifecycle_moves_follow_edges(
    current: EffectState,
    target: EffectState,
    bound: Option<Seq<char>>,
    call: Seq<char>,
    reason: EffectTransitionReason,
    outcome: EffectResolutionOutcome,
    before: EffectTransitionReason,
    during: EffectTransitionReason,
)
    ensures
        dispatch_next(current) matches Some(s) ==> effect_edge(current, s.state) && s.settles
            == terminal(s.state),
        settle_next(target, current, bound, call) matches Some(s) ==> effect_edge(current, s.state)
            && s.settles == terminal(s.state),
        unknown_next(reason, current) matches Some(s) ==> effect_edge(current, s.state) && s.settles
            == terminal(s.state),
        resolve_next(outcome, current) matches Some(s) ==> effect_edge(current, s.state)
            && s.settles == terminal(s.state),
        reconcile_next(current, before, during) matches Some(s) ==> effect_edge(current, s.state)
            && s.settles == terminal(s.state),
{
}

/// A settled effect never moves again: no lifecycle function offers a move
/// out of a terminal state.
pub proof fn terminal_states_are_final(
    current: EffectState,
    target: EffectState,
    bound: Option<Seq<char>>,
    call: Seq<char>,
    reason: EffectTransitionReason,
    outcome: EffectResolutionOutcome,
    before: EffectTransitionReason,
    during: EffectTransitionReason,
)
    requires
        terminal(current),
    ensures
        dispatch_next(current) is None,
        settle_next(target, current, bound, call) is None,
        unknown_next(reason, current) is None,
        resolve_next(outcome, current) is None,
        reconcile_next(current, before, during) is None,
{
}

/// The first move an effect records: prepared, because its intent was
/// persisted.
pub fn intent<'a>(time: &'a str) -> (r: Transition<'a>)
    ensures
        r.state == EffectState::Prepared,
        r.reason == EffectTransitionReason::IntentPersisted,
        r.evidence is None,
        r.time@ == time@,
{
    Transition {
        state: EffectState::Prepared,
        reason: EffectTransitionReason::IntentPersisted,
        evidence: None,
        time,
    }
}

/// The record of a move at `time`, with its evidence.
pub fn recorded<'a>(shift: Shift, evidence: Option<&'a str>, time: &'a str) -> (r: Transition<'a>)
    ensures
        r.state == shift.state,
        r.reason == shift.reason,
        r.evidence == evidence,
        r.time@ == time@,
{
    Transition { state: shift.state, reason: shift.reason, evidence, time }
}

} // verus!
