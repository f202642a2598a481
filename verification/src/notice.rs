use vstd::prelude::*;

use crate::intake::{GATE, full_text, inbox_full};
use crate::json::{json_array_text, json_strings, parse_strings, strings_text};
use crate::order::{sorted_union, strictly_sorted, views};
use crate::receipt::opt_view;
use crate::text::{owned, str_eq};

verus! {

/// The coalescing slot that a strand keeps for one notice key.
#[derive(Clone, Debug)]
pub struct Slot {
    pub revision: i64,
    pub digest: String,
    /// The queued inbox entry the slot points at, while it is still pending.
    pub inbox: Option<String>,
}

/// What offering a notice does.
#[derive(Clone, Debug)]
pub enum Stow {
    /// Nothing changes; the entry the slot points at, if any, is reported.
    Keep(Option<String>),
    /// The pending entry is rewritten in place with the newer notice.
    Update(String),
    /// A new entry is queued.
    Insert,
}

/// The outcome of offering a notice, over plain values.
pub enum StowOutcome {
    Keep(Option<Seq<char>>),
    Update(Seq<char>),
    Insert,
    Refuse(Seq<char>),
}

/// A slot over plain values: revision, digest and pending entry.
pub struct SlotView {
    pub revision: int,
    pub digest: Seq<char>,
    pub inbox: Option<Seq<char>>,
}

/// The view of a slot.
pub open spec fn slot_view(s: Slot) -> SlotView {
    SlotView { revision: s.revision as int, digest: s.digest@, inbox: opt_view(s.inbox) }
}

pub open spec fn held_view(h: Option<Slot>) -> Option<SlotView> {
    match h {
        Some(s) => Some(slot_view(s)),
        None => None,
    }
}

/// Offering notice revision `revision` with payload digest `digest` to a
/// slot: an older revision changes nothing; the same revision changes
/// nothing when its payload is the same and is refused when it differs; a
/// newer revision (or a first one) rewrites the pending entry when there is
/// one, else queues a new entry if the inbox has room.
pub open spec fn stow_spec(
    held: Option<SlotView>,
    revision: int,
    digest: Seq<char>,
    pending: int,
) -> StowOutcome {
    if revision > i64::MAX {
        StowOutcome::Refuse("inbox notice revision is out of range"@)
    } else if held is Some && revision < held->0.revision {
        StowOutcome::Keep(held->0.inbox)
    } else if held is Some && revision == held->0.revision {
        if held->0.digest == digest {
            StowOutcome::Keep(held->0.inbox)
        } else {
            StowOutcome::Refuse("inbox notice revision conflicts with its accepted payload"@)
        }
    } else if held is Some && held->0.inbox is Some {
        StowOutcome::Update(held->0.inbox->0)
    } else if pending < GATE {
        StowOutcome::Insert
    } else {
        StowOutcome::Refuse(full_text(pending as i64))
    }
}

pub open spec fn stow_matches(r: Result<Stow, String>, o: StowOutcome) -> bool {
    match o {
        StowOutcome::Keep(i) => r matches Ok(Stow::Keep(j)) && opt_view(j) == i,
        StowOutcome::Update(i) => r matches Ok(Stow::Update(j)) && j@ == i,
        StowOutcome::Insert => r matches Ok(Stow::Insert),
        StowOutcome::Refuse(m) => r matches Err(e) && e@ == m,
    }
}

fn clone_opt(o: &Option<String>) -> (r: Option<String>)
    ensures
        opt_view(r) == opt_view(*o),
{
    match o {
        Some(s) => Some(s.clone()),
        None => None,
    }
}

/// The decision of `stow` for a coalescing notice; `pending` is the number of
/// entries queued on the strand.
pub fn stow(held: &Option<Slot>, revision: u64, digest: &str, pending: i64) -> (r: Result<
    Stow,
    String,
>)
    ensures
        stow_matches(r, stow_spec(held_view(*held), revision as int, digest@, pending as int)),
{
    if revision > 9223372036854775807u64 {
        return Err(owned("inbox notice revision is out of range"));
    }
    let revision = revision as i64;
    if let Some(h) = held {
        if revision < h.revision {
            return Ok(Stow::Keep(clone_opt(&h.inbox)));
        }
        if revision == h.revision {
            if !str_eq(h.digest.as_str(), digest) {
                return Err(owned("inbox notice revision conflicts with its accepted payload"));
            }
            return Ok(Stow::Keep(clone_opt(&h.inbox)));
        }
        if let Some(i) = &h.inbox {
            return Ok(Stow::Update(i.clone()));
        }
    }
    if pending < GATE {
        Ok(Stow::Insert)
    } else {
        Err(inbox_full(pending))
    }
}

/// The slot after an offer that changed something: the new revision and
/// digest, pointing at `inbox` (the rewritten or the new entry).
pub open spec fn slot_after(
    revision: int,
    digest: Seq<char>,
    inbox: Seq<char>,
) -> SlotView {
    SlotView { revision, digest, inbox: Some(inbox) }
}

/// Offering the same notice again changes nothing and reports the same entry;
/// and no offer lowers a slot's revision.
pub proof fn notices_are_idempotent_and_monotone(
    held: Option<SlotView>,
    revision: int,
    digest: Seq<char>,
    pending: int,
    inbox: Seq<char>,
    again: int,
)
    requires
        0 <= revision <= i64::MAX,
    ensures
        stow_spec(held, revision, digest, pending) matches StowOutcome::Update(i) ==> held is Some
            && revision > held->0.revision,
        stow_spec(held, revision, digest, pending) is Insert ==> held is None || revision
            > held->0.revision,
        stow_spec(Some(slot_after(revision, digest, inbox)), revision, digest, again)
            == StowOutcome::Keep(Some(inbox)),
{
}

/// The causes of a rewritten notice: those stored with the entry (a JSON
/// array, when present) joined with the incoming ones, each once and sorted,
/// written back as a JSON array.
pub fn merged(raw: &Option<String>, incoming: &Vec<String>) -> (r: Result<String, String>)
    ensures
        raw matches Some(t) && json_strings(t@) is None ==> r is Err,
        r matches Ok(text) ==> exists|causes: Seq<Seq<char>>|
            strictly_sorted(causes) && text@ == json_array_text(causes) && causes.to_set()
                == (match raw {
                Some(t) => json_strings(t@)->0.to_set(),
                None => Set::<Seq<char>>::empty(),
            }) + views(incoming@).to_set(),
        raw is None || json_strings(raw->0@) is Some ==> r is Ok,
{
    let stored: Vec<String> = match raw {
        Some(t) => parse_strings(t.as_str())?,
        None => Vec::new(),
    };
    proof {
        if raw is None {
            assert(views(stored@).to_set() =~= Set::<Seq<char>>::empty());
        }
    }
    let all = sorted_union(&stored, incoming);
    let text = strings_text(&all);
    assert(strictly_sorted(views(all@)));
    Ok(text)
}

/// The revisions a job-attention notice carries: the next attention revision
/// (`base + 1`) must be the notice's revision; all three numbers must fit the
/// store's signed columns. Returns base, next and tick as stored.
pub fn attention_revisions(base: u64, notice: u64, tick: u64) -> (r: Result<(i64, i64, i64), String>)
    ensures
        base == u64::MAX ==> (r matches Err(e) && e@ == "job attention revision is out of range"@),
        base < u64::MAX && notice != base + 1 ==> (r matches Err(e) && e@
            == "job attention and inbox revisions do not agree"@),
        base < u64::MAX && notice == base + 1 ==> if base + 1 > i64::MAX {
            r matches Err(e) && e@ == "job attention revision is out of range"@
        } else if tick > i64::MAX {
            r matches Err(e) && e@ == "job reminder tick is out of range"@
        } else {
            r == Ok::<(i64, i64, i64), String>((base as i64, (base + 1) as i64, tick as i64))
        },
{
    if base == u64::MAX {
        return Err(owned("job attention revision is out of range"));
    }
    let next = base + 1;
    if notice != next {
        return Err(owned("job attention and inbox revisions do not agree"));
    }
    if next > 9223372036854775807u64 {
        return Err(owned("job attention revision is out of range"));
    }
    if tick > 9223372036854775807u64 {
        return Err(owned("job reminder tick is out of range"));
    }
    Ok((base as i64, next as i64, tick as i64))
}

/// Whether a job's stored attention revision takes the update (`Ok(true)`),
/// was already advanced (`Ok(false)`), or shows a gap.
pub fn attention_applies(current: i64, base: i64) -> (r: Result<bool, String>)
    ensures
        current < base ==> (r matches Err(e) && e@ == "job attention revision has a gap"@),
        current >= base ==> r == Ok::<bool, String>(current == base),
{
    if current < base {
        return Err(owned("job attention revision has a gap"));
    }
    Ok(current == base)
}

} // verus!
