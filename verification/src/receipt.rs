use vstd::prelude::*;

use crate::order::{sorted_union, strictly_sorted, views};
use crate::text::{joined, str_eq};

verus! {

broadcast use vstd::string::group_string_axioms;

/// Where an accepted inbox entry stands on its way through the driver.
#[derive(Clone, Copy, Debug, PartialEq, Eq, Structural)]
pub enum ReceiptState {
    Accepted,
    MechanicallyRecovered,
    Driving,
    TurnFailed,
    Completed,
}

/// The stored text of a receipt state.
pub open spec fn receipt_label(state: ReceiptState) -> Seq<char> {
    match state {
        ReceiptState::Accepted => "accepted"@,
        ReceiptState::MechanicallyRecovered => "mechanically_recovered"@,
        ReceiptState::Driving => "driving"@,
        ReceiptState::TurnFailed => "turn_failed"@,
        ReceiptState::Completed => "completed"@,
    }
}

/// The state that stored text names, if any.
pub open spec fn receipt_parse(text: Seq<char>) -> Option<ReceiptState> {
    if text == "accepted"@ {
        Some(ReceiptState::Accepted)
    } else if text == "mechanically_recovered"@ {
        Some(ReceiptState::MechanicallyRecovered)
    } else if text == "driving"@ {
        Some(ReceiptState::Driving)
    } else if text == "turn_failed"@ {
        Some(ReceiptState::TurnFailed)
    } else if text == "completed"@ {
        Some(ReceiptState::Completed)
    } else {
        None
    }
}

/// The stored text of a receipt state.
pub fn receipt_state_db(state: &ReceiptState) -> (r: &'static str)
    ensures
        r@ == receipt_label(*state),
{
    match state {
        ReceiptState::Accepted => "accepted",
        ReceiptState::MechanicallyRecovered => "mechanically_recovered",
        ReceiptState::Driving => "driving",
        ReceiptState::TurnFailed => "turn_failed",
        ReceiptState::Completed => "completed",
    }
}

/// Reads a stored receipt state; unknown text is an error naming it.
pub fn receipt_state_from_db(state: &str) -> (r: Result<ReceiptState, String>)
    ensures
        receipt_parse(state@) matches Some(s) ==> r == Ok::<ReceiptState, String>(s),
        receipt_parse(state@) is None ==> (r matches Err(e) && e@ == "unknown receipt state: "@
            + state@),
{
    if str_eq(state, "accepted") {
        Ok(ReceiptState::Accepted)
    } else if str_eq(state, "mechanically_recovered") {
        Ok(ReceiptState::MechanicallyRecovered)
    } else if str_eq(state, "driving") {
        Ok(ReceiptState::Driving)
    } else if str_eq(state, "turn_failed") {
        Ok(ReceiptState::TurnFailed)
    } else if str_eq(state, "completed") {
        Ok(ReceiptState::Completed)
    } else {
        Err(joined("unknown receipt state: ", state))
    }
}

/// Reading back the stored text of a receipt state gives the state.
pub proof fn receipt_round_trip(state: ReceiptState)
    ensures
        receipt_parse(receipt_label(state)) == Some(state),
{
    reveal_strlit("accepted");
    reveal_strlit("mechanically_recovered");
    reveal_strlit("driving");
    reveal_strlit("turn_failed");
    reveal_strlit("completed");
    assert("accepted"@.len() == 8);
    assert("mechanically_recovered"@.len() == 22);
    assert("driving"@.len() == 7);
    assert("turn_failed"@.len() == 11);
    assert("completed"@.len() == 9);
}

/// The moves a receipt may make: accepted work is driven (possibly after a
/// mechanical recovery), a driven receipt ends with its turn, and a failed
/// one is driven again by the next turn of its strand.
pub open spec fn receipt_move(from: ReceiptState, to: ReceiptState) -> bool {
    match (from, to) {
        (ReceiptState::Accepted, ReceiptState::MechanicallyRecovered) => true,
        (ReceiptState::Accepted, ReceiptState::Driving) => true,
        (ReceiptState::MechanicallyRecovered, ReceiptState::Driving) => true,
        (ReceiptState::TurnFailed, ReceiptState::Driving) => true,
        (ReceiptState::Driving, ReceiptState::TurnFailed) => true,
        (ReceiptState::Driving, ReceiptState::Completed) => true,
        (ReceiptState::MechanicallyRecovered, ReceiptState::TurnFailed) => true,
        (ReceiptState::MechanicallyRecovered, ReceiptState::Completed) => true,
        _ => false,
    }
}

/// Whether a receipt held by a turn moves when that turn ends.
pub fn settles_with_turn(state: ReceiptState) -> (r: bool)
    ensures
        r == (state == ReceiptState::Driving || state == ReceiptState::MechanicallyRecovered),
{
    match state {
        ReceiptState::Driving | ReceiptState::MechanicallyRecovered => true,
        _ => false,
    }
}

/// One receipt update: the new state and the transition row recorded with it.
#[derive(Clone, Debug)]
pub struct ReceiptStep {
    pub inbox: String,
    pub state: ReceiptState,
    pub turn: Option<String>,
    pub incident: Option<String>,
}

/// The view of a receipt step: inbox id, state, turn id and incident id.
pub open spec fn step_view(s: ReceiptStep) -> (Seq<char>, ReceiptState, Option<Seq<char>>, Option<Seq<char>>) {
    (s.inbox@, s.state, opt_view(s.turn), opt_view(s.incident))
}

pub open spec fn opt_view(o: Option<String>) -> Option<Seq<char>> {
    match o {
        Some(s) => Some(s@),
        None => None,
    }
}

fn clone_opt(o: &Option<String>) -> (r: Option<String>)
    ensures
        opt_view(r) == opt_view(*o),
{
    match o {
        Some(s) => Some(s.clone()),
        None => None,
    }
}

/// The receipt updates that starting a turn makes: when a drive incident was
/// recovered, each drained entry is first marked mechanically recovered;
/// then every drained entry and every earlier failed receipt of the strand
/// (each once, in sorted order) is driven by the turn.
pub fn begin_turn_steps(
    turn: &str,
    drained: &Vec<String>,
    failed: &Vec<String>,
    recovered: &Option<String>,
) -> (r: (Vec<ReceiptStep>, Vec<String>))
    ensures
        strictly_sorted(views(r.1@)),
        views(r.1@).to_set() == views(drained@).to_set() + views(failed@).to_set(),
        r.0@.len() == (if recovered is Some { drained@.len() } else { 0 }) + r.1@.len(),
        forall|k: int|
            0 <= k < r.0@.len() ==> {
                let pre = if recovered is Some { drained@.len() as int } else { 0 };
                &&& step_view(#[trigger] r.0@[k]).2 == Some(turn@)
                &&& step_view(r.0@[k]).3 == opt_view(*recovered)
                &&& k < pre ==> r.0@[k].inbox@ == drained@[k]@ && r.0@[k].state
                    == ReceiptState::MechanicallyRecovered
                &&& k >= pre ==> r.0@[k].inbox@ == r.1@[k - pre]@ && r.0@[k].state
                    == ReceiptState::Driving
            },
{
    let ids = sorted_union(drained, failed);
    let mut steps: Vec<ReceiptStep> = Vec::new();
    let ghost pre: int = if recovered is Some { drained@.len() as int } else { 0 };
    if recovered.is_some() {
        let mut i: usize = 0;
        while i < drained.len()
            invariant
                recovered is Some,
                pre == drained@.len(),
                i <= drained.len(),
                steps@.len() == i,
                forall|k: int|
                    0 <= k < i ==> {
                        &&& step_view(#[trigger] steps@[k]).2 == Some(turn@)
                        &&& step_view(steps@[k]).3 == opt_view(*recovered)
                        &&& steps@[k].inbox@ == drained@[k]@
                        &&& steps@[k].state == ReceiptState::MechanicallyRecovered
                    },
            decreases drained.len() - i,
        {
            steps.push(
                ReceiptStep {
                    inbox: drained[i].clone(),
                    state: ReceiptState::MechanicallyRecovered,
                    turn: Some(turn.to_owned()),
                    incident: clone_opt(recovered),
                },
            );
            i = i + 1;
        }
    }
    let mut j: usize = 0;
    while j < ids.len()
        invariant
            j <= ids.len(),
            steps@.len() == pre + j,
            pre == (if recovered is Some { drained@.len() as int } else { 0 }),
            forall|k: int|
                0 <= k < steps@.len() ==> {
                    &&& step_view(#[trigger] steps@[k]).2 == Some(turn@)
                    &&& step_view(steps@[k]).3 == opt_view(*recovered)
                    &&& k < pre ==> steps@[k].inbox@ == drained@[k]@ && steps@[k].state
                        == ReceiptState::MechanicallyRecovered
                    &&& k >= pre ==> steps@[k].inbox@ == ids@[k - pre]@ && steps@[k].state
                        == ReceiptState::Driving
                },
        decreases ids.len() - j,
    {
        steps.push(
            ReceiptStep {
                inbox: ids[j].clone(),
                state: ReceiptState::Driving,
                turn: Some(turn.to_owned()),
                incident: clone_opt(recovered),
            },
        );
        j = j + 1;
    }
    (steps, ids)
}

/// The receipt updates that ending a turn makes: every receipt the turn
/// drove moves to `state` (`TurnFailed` or `Completed`), with the turn and
/// the incident, if any, recorded.
pub fn end_turn_steps(
    turn: &str,
    held: &Vec<String>,
    state: ReceiptState,
    incident: &Option<String>,
) -> (r: Vec<ReceiptStep>)
    ensures
        r@.len() == held@.len(),
        forall|k: int|
            0 <= k < r@.len() ==> step_view(#[trigger] r@[k]) == (
                held@[k]@,
                state,
                Some(turn@),
                opt_view(*incident),
            ),
{
    let mut steps: Vec<ReceiptStep> = Vec::new();
    let mut i: usize = 0;
    while i < held.len()
        invariant
            i <= held.len(),
            steps@.len() == i,
            forall|k: int|
                0 <= k < i ==> step_view(#[trigger] steps@[k]) == (
                    held@[k]@,
                    state,
                    Some(turn@),
                    opt_view(*incident),
                ),
        decreases held.len() - i,
    {
        steps.push(
            ReceiptStep {
                inbox: held[i].clone(),
                state,
                turn: Some(turn.to_owned()),
                incident: clone_opt(incident),
            },
        );
        i = i + 1;
    }
    steps
}

/// The states of a receipt's transitions as stored, decoded in order; the
/// first unknown state refuses the whole list.
pub fn decode_states(raw: &Vec<String>) -> (r: Result<Vec<ReceiptState>, String>)
    ensures
        (forall|i: int| 0 <= i < raw@.len() ==> receipt_parse(#[trigger] raw@[i]@) is Some) ==> (r matches Ok(v)
            && v@.len() == raw@.len() && forall|i: int|
            0 <= i < raw@.len() ==> Some(#[trigger] v@[i]) == receipt_parse(raw@[i]@)),
        r is Err ==> exists|i: int| 0 <= i < raw@.len() && receipt_parse(#[trigger] raw@[i]@) is None,
{
    let mut out: Vec<ReceiptState> = Vec::new();
    let mut i: usize = 0;
    while i < raw.len()
        invariant
            i <= raw@.len(),
            out@.len() == i,
            forall|j: int| 0 <= j < i ==> Some(#[trigger] out@[j]) == receipt_parse(raw@[j]@),
        decreases raw.len() - i,
    {
        match receipt_state_from_db(raw[i].as_str()) {
            Ok(s) => out.push(s),
            Err(e) => {
                assert(receipt_parse(raw@[i as int]@) is None);
                return Err(e);
            },
        }
        i = i + 1;
    }
    Ok(out)
}

/// Receipts only move forward: nothing returns a receipt to accepted, a
/// completed receipt never moves again, and every receipt a turn holds may
/// end with that turn, failed or completed.
pub proof fn receipts_move_forward(from: ReceiptState, to: ReceiptState)
    ensures
        !receipt_move(from, ReceiptState::Accepted),
        !receipt_move(ReceiptState::Completed, to),
        (from == ReceiptState::Driving || from == ReceiptState::MechanicallyRecovered) && (to
            == ReceiptState::TurnFailed || to == ReceiptState::Completed) ==> receipt_move(from, to),
{
}

} // verus!
