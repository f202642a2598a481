use vstd::prelude::*;

use crate::compact::Seated;
use crate::num::{i64_text, int_text};
use crate::text::{joined, owned};

verus! {

/// What a fork reads of its parent strand.
#[derive(Clone, Debug)]
pub struct Parent {
    pub id: String,
    pub soul: String,
    /// The next spine position of the parent.
    pub next: i64,
    /// The last position the parent's provider has seen.
    pub seen: i64,
}

/// A fork child to create: it starts right after the fork point, has seen at
/// most the fork point, and takes the parent's compacts that lie at or before
/// the fork point (by their positions in the list given).
#[derive(Clone, Debug)]
pub struct ForkPlan {
    pub parent: String,
    pub soul: String,
    pub fork_point: i64,
    pub next_seq: i64,
    pub last_seen: i64,
    pub compacts: Vec<usize>,
}

/// A parent compact comes along when both its boundaries sit at or before
/// the fork point.
pub open spec fn carried(c: Seated, fork: i64) -> bool {
    c.start is Some && c.end is Some && c.start->0 <= fork && c.end->0 <= fork
}

/// The positions of the compacts that come along, in order.
pub open spec fn carried_of(compacts: Seq<Seated>, fork: i64, n: int) -> Seq<int>
    decreases n,
{
    if n <= 0 {
        Seq::empty()
    } else {
        let rest = carried_of(compacts, fork, n - 1);
        if carried(compacts[n - 1], fork) {
            rest.push(n - 1)
        } else {
            rest
        }
    }
}

/// The refusal of a fork point past the parent's last entry.
pub open spec fn past_text(fork: i64, last: int) -> Seq<char> {
    "fork_point "@ + int_text(fork as int) + " is past parent end "@ + int_text(last)
}

/// Plans a fork of `parent` at spine position `fork`: the position must not
/// be negative, the parent must exist, and the position must not lie past
/// the parent's last entry. `compacts` are the parent's compacts with the
/// positions of their boundaries.
pub fn fork_plan(parent: &Option<Parent>, fork: i64, compacts: &Vec<Seated>) -> (r: Result<
    ForkPlan,
    String,
>)
    requires
        parent matches Some(p) ==> p.next > i64::MIN,
    ensures
        fork < 0 ==> (r matches Err(e) && e@ == "fork_point must be >= 0"@),
        fork >= 0 ==> match parent {
            None => r matches Err(e) && e@ == "parent strand not found"@,
            Some(p) => if fork > p.next - 1 {
                r matches Err(e) && e@ == past_text(fork, p.next - 1)
            } else {
                r matches Ok(plan) && plan.parent@ == p.id@ && plan.soul@ == p.soul@
                    && plan.fork_point == fork && plan.next_seq == fork + 1 && plan.last_seen == (
                if p.seen < fork {
                    p.seen
                } else {
                    fork
                }) && plan.compacts@.map_values(|i: usize| i as int) == carried_of(
                    compacts@,
                    fork,
                    compacts@.len() as int,
                )
            },
        },
{
    if fork < 0 {
        return Err(owned("fork_point must be >= 0"));
    }
    let p = match parent {
        Some(p) => p,
        None => return Err(owned("parent strand not found")),
    };
    let last = p.next - 1;
    if fork > last {
        let head = joined("fork_point ", i64_text(fork).as_str());
        let tail = joined(" is past parent end ", i64_text(last).as_str());
        return Err(joined(head.as_str(), tail.as_str()));
    }
    let mut kept: Vec<usize> = Vec::new();
    let mut i: usize = 0;
    while i < compacts.len()
        invariant
            i <= compacts@.len(),
            kept@.map_values(|k: usize| k as int) == carried_of(compacts@, fork, i as int),
        decreases compacts.len() - i,
    {
        let c = &compacts[i];
        let take = match (c.start, c.end) {
            (Some(s), Some(e)) => s <= fork && e <= fork,
            _ => false,
        };
        if take {
            kept.push(i);
        }
        assert(kept@.map_values(|k: usize| k as int) =~= carried_of(compacts@, fork, i + 1));
        i = i + 1;
    }
    Ok(
        ForkPlan {
            parent: p.id.clone(),
            soul: p.soul.clone(),
            fork_point: fork,
            next_seq: fork + 1,
            last_seen: if p.seen < fork {
                p.seen
            } else {
                fork
            },
            compacts: kept,
        },
    )
}

/// Whether a fork child may be deleted: it must exist (`None` when it does
/// not), be a fork, and have run no turns.
pub fn fork_child_deletable(has_parent: Option<bool>, turns: i64) -> (r: Result<(), String>)
    ensures
        has_parent is None ==> (r matches Err(e) && e@ == "fork child not found"@),
        has_parent == Some(false) ==> (r matches Err(e) && e@
            == "refusing to delete a non-fork strand"@),
        has_parent == Some(true) && turns > 0 ==> (r matches Err(e) && e@
            == "refusing to delete a fork child that has turns"@),
        has_parent == Some(true) && turns <= 0 ==> r is Ok,
{
    match has_parent {
        None => Err(owned("fork child not found")),
        Some(false) => Err(owned("refusing to delete a non-fork strand")),
        Some(true) => if turns > 0 {
            Err(owned("refusing to delete a fork child that has turns"))
        } else {
            Ok(())
        },
    }
}

/// A fork never reaches past its fork point: the child continues right after
/// it, has seen no more than it, and every compact it takes lies at or
/// before it.
pub proof fn forks_stay_before_their_point(compacts: Seq<Seated>, fork: i64, n: int)
    requires
        0 <= n <= compacts.len(),
    ensures
        forall|k: int|
            0 <= k < carried_of(compacts, fork, n).len() ==> {
                let i = #[trigger] carried_of(compacts, fork, n)[k];
                &&& 0 <= i < n
                &&& compacts[i].start->0 <= fork
                &&& compacts[i].end->0 <= fork
            },
    decreases n,
{
    if n > 0 {
        forks_stay_before_their_point(compacts, fork, n - 1);
    }
}

/// A fork carries exactly the parent's compacts that lie at or before the
/// fork point: among the first `n`, a compact is carried when, and only
/// when, both its boundaries are seated at or before the fork point, and the
/// carried positions keep the parent's order, each once.
pub proof fn forks_carry_every_compact_before_their_point(compacts: Seq<Seated>, fork: i64, n: int)
    requires
        0 <= n <= compacts.len(),
    ensures
        forall|i: int|
            0 <= i < n ==> (carried_of(compacts, fork, n).contains(i) <==> (
            compacts[i].start is Some && compacts[i].start->0 <= fork && compacts[i].end is Some
                && compacts[i].end->0 <= fork)),
        forall|a: int, b: int|
            0 <= a < b < carried_of(compacts, fork, n).len() ==> carried_of(compacts, fork, n)[a]
                < carried_of(compacts, fork, n)[b],
    decreases n,
{
    if n > 0 {
        forks_carry_every_compact_before_their_point(compacts, fork, n - 1);
        forks_stay_before_their_point(compacts, fork, n - 1);
        let rest = carried_of(compacts, fork, n - 1);
        assert forall|i: int| 0 <= i < n implies (carried_of(compacts, fork, n).contains(i) <==> (
        compacts[i].start is Some && compacts[i].start->0 <= fork && compacts[i].end is Some
            && compacts[i].end->0 <= fork)) by {
            if carried(compacts[n - 1], fork) {
                assert(carried_of(compacts, fork, n) == rest.push(n - 1));
                if i == n - 1 {
                    assert(rest.push(n - 1)[rest.len() as int] == n - 1);
                } else {
                    if rest.push(n - 1).contains(i) {
                        let k = choose|k: int| 0 <= k < rest.push(n - 1).len() && #[trigger] rest.push(n - 1)[k] == i;
                        assert(k < rest.len());
                        assert(rest[k] == i);
                    }
                    if rest.contains(i) {
                        let k = choose|k: int| 0 <= k < rest.len() && #[trigger] rest[k] == i;
                        assert(rest.push(n - 1)[k] == i);
                    }
                }
            } else {
                if i == n - 1 {
                    if rest.contains(i) {
                        let k = choose|k: int| 0 <= k < rest.len() && #[trigger] rest[k] == i;
                        assert(0 <= rest[k] < n - 1);
                    }
                }
            }
        }
    }
}

} // verus!
