use vstd::prelude::*;

use crate::json::{json_str_member, str_member};
use crate::order::str_eq_string;
use crate::receipt::opt_view;
use crate::text::{joined, owned, prefixed, starts_with, str_eq};

verus! {

/// The schema version this store expects.
pub const SCHEMA_VERSION: u32 = 25;

/// One in-place migration step between adjacent schema versions.
#[derive(Clone, Copy, Debug, PartialEq, Eq, Structural)]
pub enum Step {
    /// Adds enqueue provenance columns to the inbox.
    V21ToV22,
    /// Adds compact metadata and the strand block table.
    V22ToV23,
    /// Turns strand blocks into error incidents.
    V23ToV24,
    /// Adds inbox receipts and backfills them.
    V24ToV25,
}

/// What opening a store at a schema version does.
#[derive(Clone, Debug, PartialEq, Eq)]
pub enum Migration {
    /// The schema is current.
    Current,
    /// The schema is migrated in place, step by step.
    Steps(Vec<Step>),
    /// The schema is unknown: the runtime workspace is dropped and rebuilt.
    Rebuild,
}

/// The steps that bring a schema at `version` up to date in place; `None`
/// when no such chain is known.
pub open spec fn chain(version: u32) -> Option<Seq<Step>> {
    if version == 21 {
        Some(seq![Step::V21ToV22, Step::V22ToV23, Step::V23ToV24, Step::V24ToV25])
    } else if version == 22 {
        Some(seq![Step::V22ToV23, Step::V23ToV24, Step::V24ToV25])
    } else if version == 23 {
        Some(seq![Step::V23ToV24, Step::V24ToV25])
    } else if version == 24 {
        Some(seq![Step::V24ToV25])
    } else {
        None
    }
}

/// The version a schema has after one step.
pub open spec fn after(step: Step) -> u32 {
    match step {
        Step::V21ToV22 => 22,
        Step::V22ToV23 => 23,
        Step::V23ToV24 => 24,
        Step::V24ToV25 => 25,
    }
}

/// The version a step starts from.
pub open spec fn before(step: Step) -> u32 {
    match step {
        Step::V21ToV22 => 21,
        Step::V22ToV23 => 22,
        Step::V23ToV24 => 23,
        Step::V24ToV25 => 24,
    }
}

/// What opening a store at `version` does: known older versions migrate in
/// place, the current one is kept, any other is rebuilt.
pub fn migration_plan(version: u32) -> (r: Migration)
    ensures
        version == SCHEMA_VERSION ==> r == Migration::Current,
        version != SCHEMA_VERSION && chain(version) is Some ==> (r matches Migration::Steps(s) && s@
            == chain(version)->0),
        version != SCHEMA_VERSION && chain(version) is None ==> r == Migration::Rebuild,
{
    if version == 21 {
        Migration::Steps(vec![Step::V21ToV22, Step::V22ToV23, Step::V23ToV24, Step::V24ToV25])
    } else if version == 22 {
        Migration::Steps(vec![Step::V22ToV23, Step::V23ToV24, Step::V24ToV25])
    } else if version == 23 {
        Migration::Steps(vec![Step::V23ToV24, Step::V24ToV25])
    } else if version == 24 {
        Migration::Steps(vec![Step::V24ToV25])
    } else if version == SCHEMA_VERSION {
        Migration::Current
    } else {
        Migration::Rebuild
    }
}

/// Every known migration chain starts at the stored version, climbs one
/// version per step and ends at the current schema version.
pub proof fn chains_reach_the_current_schema(version: u32)
    requires
        chain(version) is Some,
    ensures
        ({
            let s = chain(version)->0;
            &&& s.len() > 0
            &&& before(s[0]) == version
            &&& after(s.last()) == SCHEMA_VERSION
            &&& forall|i: int| 0 <= i < s.len() - 1 ==> after(#[trigger] s[i]) == before(s[i + 1])
        }),
{
}

/// Every older schema this store has known (from version 21 up to the
/// current one) migrates in place: its chain starts at the stored version,
/// takes one step per version, in order, up to the current schema; any
/// version before 21 or after the current one has no chain and is rebuilt.
pub proof fn older_schemas_migrate_in_place(version: u32)
    ensures
        21 <= version < SCHEMA_VERSION ==> ({
            &&& chain(version) is Some
            &&& chain(version)->0.len() == SCHEMA_VERSION - version
            &&& forall|i: int|
                0 <= i < chain(version)->0.len() ==> before(#[trigger] chain(version)->0[i])
                    == version + i && after(chain(version)->0[i]) == version + i + 1
        }),
        version < 21 || version >= SCHEMA_VERSION ==> chain(version) is None,
{
}

/// A v23 strand block, as far as its move to an error incident reads it.
#[derive(Clone, Debug)]
pub struct Block {
    pub id: String,
    pub strand_id: String,
    pub status: String,
    pub reason_code: String,
    /// The block's metadata, as stored JSON text.
    pub metadata: Option<String>,
    /// How many rejected deliveries the block caused, when that table exists.
    pub rejections: Option<i64>,
}

/// The error incident a v23 strand block becomes.
#[derive(Clone, Debug)]
pub struct Incident {
    /// Derived from the block id; `None` where a fresh id is to be drawn.
    pub id: Option<String>,
    pub incident_key: String,
    pub status: String,
    pub operation: String,
    pub occurrences: i64,
    pub revision: i64,
}

/// The incident id kept from a block id: `inc_` and what follows `blk_`.
pub open spec fn kept_id(block: Seq<char>) -> Option<Seq<char>> {
    if prefixed(block, "blk_"@) {
        Some("inc_"@ + block.skip(4))
    } else {
        None
    }
}

/// The incident of a v23 strand block: active blocks stay active at revision
/// one, every other block is resolved at revision two; the operation is the
/// `phase` string of the block's metadata, else its reason; it counts at least one occurrence.
pub fn incident_of(block: &Block) -> (r: Incident)
    ensures
        opt_view(r.id) == kept_id(block.id@),
        r.incident_key@ == "context.budget.exceeded:strand:"@ + block.strand_id@,
        block.status@ == "active"@ ==> r.status@ == "active"@ && r.revision == 1,
        block.status@ != "active"@ ==> r.status@ == "resolved"@ && r.revision == 2,
        r.operation@ == (match block.metadata {
            Some(m) => match json_str_member(m@, "phase"@) {
                Some(p) => p,
                None => block.reason_code@,
            },
            None => block.reason_code@,
        }),
        r.occurrences == (match block.rejections {
            Some(n) => if n < 1 {
                1
            } else {
                n
            },
            None => 1,
        }),
{
    let active = str_eq(block.status.as_str(), "active");
    let id = if starts_with(block.id.as_str(), "blk_") {
        let chars = crate::text::chars_of(block.id.as_str());
        proof {
            reveal_strlit("blk_");
            assert("blk_"@.len() == 4);
        }
        let mut tail: Vec<char> = Vec::new();
        assert(tail@ =~= chars@.subrange(4, 4));
        let mut i: usize = 4;
        while i < chars.len()
            invariant
                4 <= i <= chars@.len(),
                tail@ == chars@.subrange(4, i as int),
            decreases chars.len() - i,
        {
            tail.push(chars[i]);
            i = i + 1;
            assert(tail@ =~= chars@.subrange(4, i as int));
        }
        let suffix = crate::text::string_of(&tail);
        assert(suffix@ =~= block.id@.skip(4));
        Some(joined("inc_", suffix.as_str()))
    } else {
        None
    };
    let phase = match &block.metadata {
        Some(m) => str_member(m.as_str(), "phase"),
        None => None,
    };
    let operation = match phase {
        Some(p) => p,
        None => block.reason_code.clone(),
    };
    let occurrences = match block.rejections {
        Some(n) => if n < 1 {
            1
        } else {
            n
        },
        None => 1,
    };
    Incident {
        id,
        incident_key: joined("context.budget.exceeded:strand:", block.strand_id.as_str()),
        status: if active {
            owned("active")
        } else {
            owned("resolved")
        },
        operation,
        occurrences,
        revision: if active {
            1
        } else {
            2
        },
    }
}

/// An inbox drain recorded by a v24 message event: the entry drained, the
/// turn that committed it, and when it was accepted.
#[derive(Clone, Debug)]
pub struct Drain {
    pub inbox_id: String,
    pub turn_id: String,
    pub accepted_at: String,
}

/// What a v24 message event payload records, when it records an inbox drain:
/// its `kind` is `inbox_drain` and it names the entry and the committing
/// turn; the acceptance time is `enqueued_at`, else `drained_at`, else the
/// epoch.
pub open spec fn drain_spec(payload: Seq<char>) -> Option<(Seq<char>, Seq<char>, Seq<char>)> {
    if json_str_member(payload, "kind"@) != Some("inbox_drain"@) {
        None
    } else if json_str_member(payload, "inbox_id"@) is None {
        None
    } else if json_str_member(payload, "committing_turn_id"@) is None {
        None
    } else {
        Some(
            (
                json_str_member(payload, "inbox_id"@)->0,
                json_str_member(payload, "committing_turn_id"@)->0,
                if json_str_member(payload, "enqueued_at"@) is Some {
                    json_str_member(payload, "enqueued_at"@)->0
                } else if json_str_member(payload, "drained_at"@) is Some {
                    json_str_member(payload, "drained_at"@)->0
                } else {
                    "1970-01-01T00:00:00Z"@
                },
            ),
        )
    }
}

/// Reads an inbox drain from a v24 message event payload.
pub fn drain_of(payload: &str) -> (r: Option<Drain>)
    ensures
        match drain_spec(payload@) {
            None => r is None,
            Some(d) => r matches Some(x) && x.inbox_id@ == d.0 && x.turn_id@ == d.1
                && x.accepted_at@ == d.2,
        },
{
    let kind = str_member(payload, "kind");
    let is_drain = match &kind {
        Some(k) => str_eq(k.as_str(), "inbox_drain"),
        None => false,
    };
    if !is_drain {
        return None;
    }
    let inbox_id = str_member(payload, "inbox_id")?;
    let turn_id = str_member(payload, "committing_turn_id")?;
    let accepted_at = match str_member(payload, "enqueued_at") {
        Some(t) => t,
        None => match str_member(payload, "drained_at") {
            Some(t) => t,
            None => owned("1970-01-01T00:00:00Z"),
        },
    };
    Some(Drain { inbox_id, turn_id, accepted_at })
}

/// The turns of a list, each once, in the order they first appear.
pub open spec fn first_seen(turns: Seq<Seq<char>>) -> Seq<Seq<char>>
    decreases turns.len(),
{
    if turns.len() == 0 {
        Seq::empty()
    } else {
        let earlier = first_seen(turns.drop_last());
        if earlier.contains(turns.last()) {
            earlier
        } else {
            earlier.push(turns.last())
        }
    }
}

/// The positions in a list that hold `turn`, in order.
pub open spec fn positions(turns: Seq<Seq<char>>, turn: Seq<char>) -> Seq<int>
    decreases turns.len(),
{
    if turns.len() == 0 {
        Seq::empty()
    } else {
        let earlier = positions(turns.drop_last(), turn);
        if turns.last() == turn {
            earlier.push(turns.len() - 1)
        } else {
            earlier
        }
    }
}

/// The drains of one turn: the turn, and the positions of its drains in the
/// list they were read from.
#[derive(Clone, Debug)]
pub struct DrainGroup {
    pub turn_id: String,
    pub members: Vec<usize>,
}

pub open spec fn turn_views(drains: Seq<Drain>) -> Seq<Seq<char>> {
    drains.map_values(|d: Drain| d.turn_id@)
}

pub open spec fn index_view(v: Seq<usize>) -> Seq<int> {
    v.map_values(|i: usize| i as int)
}

proof fn lemma_first_seen_contains(turns: Seq<Seq<char>>, t: Seq<char>)
    ensures
        first_seen(turns).contains(t) <==> turns.contains(t),
        first_seen(turns).no_duplicates(),
    decreases turns.len(),
{
    if turns.len() > 0 {
        let d = turns.drop_last();
        let l = turns.last();
        let e = first_seen(d);
        lemma_first_seen_contains(d, t);
        lemma_first_seen_contains(d, l);
        assert(turns =~= d.push(l));
        assert(turns.contains(t) <==> d.contains(t) || l == t) by {
            if turns.contains(t) && !d.contains(t) {
                let i = choose|i: int| 0 <= i < turns.len() && turns[i] == t;
                if i < d.len() {
                    assert(d[i] == t);
                }
            }
            if d.contains(t) {
                let i = choose|i: int| 0 <= i < d.len() && d[i] == t;
                assert(turns[i] == t);
            }
            if l == t {
                assert(turns[turns.len() - 1] == t);
            }
        }
        if !e.contains(l) {
            let f = e.push(l);
            assert(f.contains(t) <==> e.contains(t) || l == t) by {
                if f.contains(t) && !e.contains(t) {
                    let i = choose|i: int| 0 <= i < f.len() && f[i] == t;
                    if i < e.len() {
                        assert(e[i] == t);
                    }
                }
                if e.contains(t) {
                    let i = choose|i: int| 0 <= i < e.len() && e[i] == t;
                    assert(f[i] == t);
                }
                if l == t {
                    assert(f[e.len() as int] == t);
                }
            }
            assert forall|a: int, b: int| 0 <= a < f.len() && 0 <= b < f.len() && a != b implies f[a]
                != f[b] by {
                if a == e.len() {
                    assert(f[b] == e[b]);
                } else if b == e.len() {
                    assert(f[a] == e[a]);
                }
            }
        }
    }
}

proof fn lemma_positions_step(turns: Seq<Seq<char>>, x: Seq<char>)
    requires
        turns.len() > 0,
    ensures
        positions(turns, x) == if turns.last() == x {
            positions(turns.drop_last(), x).push(turns.len() - 1)
        } else {
            positions(turns.drop_last(), x)
        },
{
}

fn find_turn(turns: &Vec<String>, turn: &String) -> (g: usize)
    ensures
        g <= turns@.len(),
        g < turns@.len() ==> turns@[g as int]@ == turn@,
        forall|h: int| 0 <= h < g ==> #[trigger] turns@[h]@ != turn@,
{
    let mut g: usize = 0;
    while g < turns.len()
        invariant
            g <= turns@.len(),
            forall|h: int| 0 <= h < g ==> #[trigger] turns@[h]@ != turn@,
        decreases turns.len() - g,
    {
        if str_eq_string(&turns[g], turn) {
            return g;
        }
        g = g + 1;
    }
    g
}

/// Groups the drains of a v24 store by the turn that committed them: one
/// group per turn, in the order the turns first appear, each listing the
/// positions of its drains in order.
pub fn drain_groups(drains: &Vec<Drain>) -> (r: Vec<DrainGroup>)
    ensures
        r@.len() == first_seen(turn_views(drains@)).len(),
        forall|g: int|
            0 <= g < r@.len() ==> #[trigger] r@[g].turn_id@ == first_seen(turn_views(drains@))[g]
                && index_view(r@[g].members@) == positions(turn_views(drains@), r@[g].turn_id@),
{
    let ghost all = turn_views(drains@);
    let mut turns: Vec<String> = Vec::new();
    let mut members: Vec<Vec<usize>> = Vec::new();
    let mut i: usize = 0;
    while i < drains.len()
        invariant
            i <= drains@.len(),
            all == turn_views(drains@),
            turns@.len() == members@.len(),
            crate::order::views(turns@) == first_seen(all.subrange(0, i as int)),
            forall|g: int|
                0 <= g < members@.len() ==> index_view(#[trigger] members@[g]@) == positions(
                    all.subrange(0, i as int),
                    turns@[g]@,
                ),
        decreases drains.len() - i,
    {
        let ghost pre = all.subrange(0, i as int);
        let ghost next = all.subrange(0, i + 1);
        proof {
            assert(next.drop_last() =~= pre);
            assert(next.last() == drains@[i as int].turn_id@);
        }
        let turn = &drains[i].turn_id;
        let g = find_turn(&turns, turn);
        let ghost old_turns = turns@;
        let ghost old_members = members@;
        proof {
            lemma_first_seen_contains(pre, turn@);
            assert(crate::order::views(old_turns).no_duplicates());
        }
        if g < turns.len() {
            let mut m = members[g].clone();
            m.push(i);
            members.set(g, m);
            proof {
                assert(crate::order::views(old_turns)[g as int] == turn@);
                assert(first_seen(pre).contains(turn@));
                assert(turns@ == old_turns);
                assert forall|h: int| 0 <= h < members@.len() implies index_view(
                    #[trigger] members@[h]@,
                ) == positions(next, turns@[h]@) by {
                    lemma_positions_step(next, turns@[h]@);
                    if h == g {
                        assert(index_view(members@[h]@) =~= index_view(old_members[h]@).push(
                            i as int,
                        ));
                    } else {
                        assert(crate::order::views(old_turns)[h] != crate::order::views(
                            old_turns,
                        )[g as int]);
                        assert(members@[h] == old_members[h]);
                    }
                }
            }
        } else {
            turns.push(turn.clone());
            members.push(vec![i]);
            proof {
                assert(!first_seen(pre).contains(turn@)) by {
                    if first_seen(pre).contains(turn@) {
                        let h = choose|h: int|
                            0 <= h < first_seen(pre).len() && first_seen(pre)[h] == turn@;
                        assert(crate::order::views(old_turns)[h] == old_turns[h]@);
                    }
                }
                lemma_positions_absent(pre, turn@);
                assert forall|h: int| 0 <= h < members@.len() implies index_view(
                    #[trigger] members@[h]@,
                ) == positions(next, turns@[h]@) by {
                    lemma_positions_step(next, turns@[h]@);
                    if h == old_members.len() {
                        assert(index_view(members@[h]@) =~= seq![i as int]);
                        assert(positions(pre, turn@) =~= Seq::<int>::empty());
                        assert(positions(next, turn@) =~= seq![i as int]);
                    } else {
                        assert(members@[h] == old_members[h]);
                        assert(turns@[h] == old_turns[h]);
                    }
                }
            }
        }
        proof {
            assert(crate::order::views(turns@) =~= first_seen(next));
        }
        i = i + 1;
    }
    let mut out: Vec<DrainGroup> = Vec::new();
    let mut k: usize = 0;
    assert(all.subrange(0, drains@.len() as int) =~= all);
    while k < turns.len()
        invariant
            k <= turns@.len(),
            turns@.len() == members@.len(),
            out@.len() == k,
            crate::order::views(turns@) == first_seen(all),
            all == turn_views(drains@),
            forall|g: int|
                0 <= g < members@.len() ==> index_view(#[trigger] members@[g]@) == positions(
                    all,
                    turns@[g]@,
                ),
            forall|g: int|
                0 <= g < k ==> #[trigger] out@[g].turn_id@ == turns@[g]@ && out@[g].members@
                    == members@[g]@,
        decreases turns.len() - k,
    {
        out.push(DrainGroup { turn_id: turns[k].clone(), members: members[k].clone() });
        k = k + 1;
    }
    proof {
        assert forall|g: int| 0 <= g < out@.len() implies #[trigger] out@[g].turn_id@ == first_seen(
            turn_views(drains@),
        )[g] && index_view(out@[g].members@) == positions(turn_views(drains@), out@[g].turn_id@) by {
            assert(crate::order::views(turns@)[g] == turns@[g]@);
        }
    }
    out
}

proof fn lemma_positions_absent(turns: Seq<Seq<char>>, t: Seq<char>)
    requires
        !turns.contains(t),
    ensures
        positions(turns, t) == Seq::<int>::empty(),
    decreases turns.len(),
{
    if turns.len() > 0 {
        assert(turns.last() != t) by {
            if turns.last() == t {
                assert(turns[turns.len() - 1] == t);
            }
        }
        assert forall|i: int| 0 <= i < turns.drop_last().len() implies turns.drop_last()[i] != t by {
            assert(turns.drop_last()[i] == turns[i]);
        }
        lemma_positions_absent(turns.drop_last(), t);
    }
}

/// How a drained receipt ends, given its turn's status and finish time:
/// a finished completed turn completes it, a finished failed turn fails it.
#[derive(Clone, Debug, PartialEq, Eq)]
pub enum DrainEnd {
    Completed(String),
    Failed(String),
    Open,
}

pub fn drain_end(status: &str, finished_at: &Option<String>) -> (r: DrainEnd)
    ensures
        match finished_at {
            None => r == DrainEnd::Open,
            Some(at) => if status@ == "completed"@ {
                r matches DrainEnd::Completed(x) && x@ == at@
            } else if status@ == "failed"@ {
                r matches DrainEnd::Failed(x) && x@ == at@
            } else {
                r == DrainEnd::Open
            },
        },
{
    match finished_at {
        None => DrainEnd::Open,
        Some(at) => if str_eq(status, "completed") {
            DrainEnd::Completed(at.clone())
        } else if str_eq(status, "failed") {
            DrainEnd::Failed(at.clone())
        } else {
            DrainEnd::Open
        },
    }
}

/// Where a receipt rebuilt from a v24 message event was reconstructed from.
pub fn event_source(event_id: &str) -> (r: String)
    ensures
        r@ == "v24:message_event:"@ + event_id@,
{
    joined("v24:message_event:", event_id)
}

/// Where a receipt rebuilt from a pending v24 inbox entry was reconstructed
/// from.
pub fn inbox_source(inbox_id: &str) -> (r: String)
    ensures
        r@ == "v24:strand_inbox:"@ + inbox_id@,
{
    joined("v24:strand_inbox:", inbox_id)
}

} // verus!
