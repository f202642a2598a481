use vstd::prelude::*;

use crate::codec::{ActorType, MessageKind, MessageState, StrandTargetType, strand_target_type_parse};
use crate::json::{shown_spec, value_text};
use crate::text::{chars_of, contains_chars, joined, joined3, occurs, owned, str_eq, trim_spec, trimmed};

verus! {

/// Which end of a compact range a boundary message is.
#[derive(Clone, Copy, Debug, PartialEq, Eq, Structural)]
pub enum End {
    From,
    To,
}

pub open spec fn end_label(end: End) -> Seq<char> {
    match end {
        End::From => "from"@,
        End::To => "to"@,
    }
}

/// What a compact boundary message is: its author, kind and state.
#[derive(Clone, Copy, Debug, PartialEq, Eq, Structural)]
pub struct Boundary {
    pub actor: ActorType,
    pub kind: MessageKind,
    pub state: MessageState,
}

/// A message is user or assistant speech when the soul spoke it (the
/// assistant), or when it came in from the world as text (the user); a
/// runtime notice is neither.
pub open spec fn conversational(b: Boundary) -> bool {
    b.actor == ActorType::Soul || (b.actor == ActorType::System && b.kind == MessageKind::Text)
}

/// Why a boundary cannot anchor a compact (`None` when it can): it must exist
/// and be a fixed user or assistant message.
pub open spec fn boundary_error(end: End, b: Option<Boundary>) -> Option<Seq<char>> {
    match b {
        None => Some("compact "@ + end_label(end) + " message not found"@),
        Some(x) => if conversational(x) && x.state == MessageState::Fixed {
            None
        } else {
            Some("compact "@ + end_label(end) + " boundary must be a fixed user/assistant message"@)
        },
    }
}

/// An existing compact of the strand, with the spine positions of its two
/// boundary messages (`None` where a boundary is not in the strand).
#[derive(Clone, Debug)]
pub struct Seated {
    pub id: String,
    pub start: Option<i64>,
    pub end: Option<i64>,
}

/// A range of spine positions, both ends included.
#[derive(Clone, Copy, Debug, PartialEq, Eq, Structural)]
pub struct Span {
    pub start_seq: i64,
    pub end_seq: i64,
}

/// A planned compact: its range and the existing compacts it absorbs.
#[derive(Clone, Debug)]
pub struct Plan {
    pub span: Span,
    pub absorbed: Vec<String>,
}

/// An existing compact whose boundaries both sit in the strand.
pub open spec fn seated(c: Seated) -> bool {
    c.start is Some && c.end is Some
}

/// Whether a seated compact lies wholly outside `[start, end]`.
pub open spec fn apart(c: Seated, start: int, end: int) -> bool {
    c.end->0 < start || c.start->0 > end
}

/// Whether a seated compact lies wholly inside `[start, end]`.
pub open spec fn inside(c: Seated, start: int, end: int) -> bool {
    start <= c.start->0 && c.end->0 <= end
}

/// A seated compact that neither lies apart from nor inside `[start, end]`.
pub open spec fn straddles(c: Seated, start: int, end: int) -> bool {
    seated(c) && !apart(c, start, end) && !inside(c, start, end)
}

/// The ids of the seated compacts that a new compact over `[start, end]`
/// covers and overlaps, in order.
pub open spec fn covered(existing: Seq<Seated>, start: int, end: int) -> Seq<Seq<char>>
    decreases existing.len(),
{
    if existing.len() == 0 {
        Seq::empty()
    } else {
        let c = existing.last();
        let rest = covered(existing.drop_last(), start, end);
        if seated(c) && !apart(c, start, end) && inside(c, start, end) {
            rest.push(c.id@)
        } else {
            rest
        }
    }
}

/// The plan of a compact over the messages `from` and `to`, over plain
/// values: `(start, end, absorbed)` or the reason it is refused.
pub open spec fn plan_spec(
    from: Option<Boundary>,
    to: Option<Boundary>,
    start: Option<i64>,
    end: Option<i64>,
    existing: Seq<Seated>,
) -> Result<(int, int, Seq<Seq<char>>), Seq<char>> {
    if boundary_error(End::From, from) is Some {
        Err(boundary_error(End::From, from)->0)
    } else if boundary_error(End::To, to) is Some {
        Err(boundary_error(End::To, to)->0)
    } else if start is None {
        Err("compact from message not in this strand"@)
    } else if end is None {
        Err("compact to message not in this strand"@)
    } else if start->0 > end->0 {
        Err("compact from must not be after to"@)
    } else if exists|i: int|
        0 <= i < existing.len() && straddles(#[trigger] existing[i], start->0 as int, end->0 as int) {
        Err("compact range partially overlaps an existing compact"@)
    } else {
        Ok((start->0 as int, end->0 as int, covered(existing, start->0 as int, end->0 as int)))
    }
}

pub open spec fn plan_matches(
    r: Result<Plan, String>,
    p: Result<(int, int, Seq<Seq<char>>), Seq<char>>,
) -> bool {
    match p {
        Ok(x) => r matches Ok(plan) && plan.span.start_seq == x.0 && plan.span.end_seq == x.1
            && crate::order::views(plan.absorbed@) == x.2,
        Err(m) => r matches Err(e) && e@ == m,
    }
}

fn boundary_check(end: End, b: &Option<Boundary>) -> (r: Result<(), String>)
    ensures
        match boundary_error(end, *b) {
            None => r is Ok,
            Some(m) => r matches Err(e) && e@ == m,
        },
{
    let label = match end {
        End::From => "from",
        End::To => "to",
    };
    match b {
        None => Err(joined3("compact ", label, " message not found")),
        Some(x) => {
            let soul = match x.actor {
                ActorType::Soul => true,
                _ => false,
            };
            let system_text = match (x.actor, x.kind) {
                (ActorType::System, MessageKind::Text) => true,
                _ => false,
            };
            let fixed = match x.state {
                MessageState::Fixed => true,
                _ => false,
            };
            if (soul || system_text) && fixed {
                Ok(())
            } else {
                Err(joined3("compact ", label, " boundary must be a fixed user/assistant message"))
            }
        },
    }
}

/// Plans a compact over the messages `from` and `to` of a strand: both must
/// be fixed user or assistant messages seated in the strand, `from` not after `to`;
/// an existing compact must lie apart from the range or inside it, and those
/// inside are absorbed. `start` and `end` are the positions of the two
/// boundaries in the strand.
pub fn planned(
    from: &Option<Boundary>,
    to: &Option<Boundary>,
    start: Option<i64>,
    end: Option<i64>,
    existing: &Vec<Seated>,
) -> (r: Result<Plan, String>)
    ensures
        plan_matches(r, plan_spec(*from, *to, start, end, existing@)),
{
    boundary_check(End::From, from)?;
    boundary_check(End::To, to)?;
    let s = match start {
        Some(s) => s,
        None => return Err(owned("compact from message not in this strand")),
    };
    let e = match end {
        Some(e) => e,
        None => return Err(owned("compact to message not in this strand")),
    };
    if s > e {
        return Err(owned("compact from must not be after to"));
    }
    let mut absorbed: Vec<String> = Vec::new();
    let mut i: usize = 0;
    while i < existing.len()
        invariant
            s <= e,
            start == Some(s),
            end == Some(e),
            boundary_error(End::From, *from) is None,
            boundary_error(End::To, *to) is None,
            i <= existing@.len(),
            forall|j: int| 0 <= j < i ==> !straddles(#[trigger] existing@[j], s as int, e as int),
            crate::order::views(absorbed@) == covered(existing@.subrange(0, i as int), s as int, e as int),
        decreases existing.len() - i,
    {
        let c = &existing[i];
        proof {
            let sub = existing@.subrange(0, i + 1);
            assert(sub.drop_last() =~= existing@.subrange(0, i as int));
            assert(sub.last() == existing@[i as int]);
        }
        match (c.start, c.end) {
            (Some(es), Some(ee)) => {
                if ee < s || es > e {
                } else if s <= es && ee <= e {
                    absorbed.push(c.id.clone());
                    assert(crate::order::views(absorbed@) =~= crate::order::views(
                        absorbed@.drop_last(),
                    ).push(c.id@));
                } else {
                    assert(straddles(existing@[i as int], s as int, e as int));
                    assert(exists|j: int|
                        0 <= j < existing@.len() && straddles(
                            #[trigger] existing@[j],
                            start->0 as int,
                            end->0 as int,
                        ));
                    return Err(owned("compact range partially overlaps an existing compact"));
                }
            },
            _ => {},
        }
        i = i + 1;
    }
    assert(existing@.subrange(0, existing@.len() as int) =~= existing@);
    Ok(Plan { span: Span { start_seq: s, end_seq: e }, absorbed })
}

proof fn lemma_covered(existing: Seq<Seated>, start: int, end: int, i: int)
    requires
        0 <= i < existing.len(),
        seated(existing[i]),
        inside(existing[i], start, end),
        !apart(existing[i], start, end),
    ensures
        covered(existing, start, end).contains(existing[i].id@),
    decreases existing.len(),
{
    let rest = covered(existing.drop_last(), start, end);
    if i == existing.len() - 1 {
        assert(covered(existing, start, end) == rest.push(existing[i].id@));
        assert(covered(existing, start, end)[rest.len() as int] == existing[i].id@);
    } else {
        assert(existing.drop_last()[i] == existing[i]);
        lemma_covered(existing.drop_last(), start, end, i);
        let k = choose|k: int| 0 <= k < rest.len() && rest[k] == existing[i].id@;
        let all = covered(existing, start, end);
        assert(all == rest || all == rest.push(existing.last().id@));
        assert(all[k] == existing[i].id@);
    }
}

/// A planned compact never partly overlaps an existing one: every existing
/// compact seated in the strand either lies apart from the new range or
/// inside it, and each one inside is absorbed.
pub proof fn plans_are_disjoint_or_covering(
    from: Option<Boundary>,
    to: Option<Boundary>,
    start: Option<i64>,
    end: Option<i64>,
    existing: Seq<Seated>,
)
    requires
        plan_spec(from, to, start, end, existing) is Ok,
    ensures
        ({
            let p = plan_spec(from, to, start, end, existing)->Ok_0;
            &&& forall|i: int|
                0 <= i < existing.len() && seated(#[trigger] existing[i]) ==> apart(
                    existing[i],
                    p.0,
                    p.1,
                ) || inside(existing[i], p.0, p.1)
            &&& forall|i: int|
                0 <= i < existing.len() && seated(#[trigger] existing[i]) && !apart(
                    existing[i],
                    p.0,
                    p.1,
                ) ==> p.2.contains(existing[i].id@)
        }),
{
    let p = plan_spec(from, to, start, end, existing)->Ok_0;
    assert forall|i: int|
        0 <= i < existing.len() && seated(#[trigger] existing[i]) && !apart(
            existing[i],
            p.0,
            p.1,
        ) implies p.2.contains(existing[i].id@) by {
        assert(!straddles(existing[i], p.0, p.1));
        lemma_covered(existing, p.0, p.1, i);
    }
    assert forall|i: int|
        0 <= i < existing.len() && seated(#[trigger] existing[i]) implies apart(
            existing[i],
            p.0,
            p.1,
        ) || inside(existing[i], p.0, p.1) by {
        assert(!straddles(existing[i], p.0, p.1));
    }
}

/// The kind of spine entry named by stored text; unknown text reads as a
/// message.
pub fn targeted(value: &str) -> (r: StrandTargetType)
    ensures
        r == strand_target_type_parse(value@),
{
    if str_eq(value, "compact") {
        StrandTargetType::Compact
    } else if str_eq(value, "thinking") {
        StrandTargetType::Thinking
    } else if str_eq(value, "tool_call") {
        StrandTargetType::ToolCall
    } else if str_eq(value, "tool_result") {
        StrandTargetType::ToolResult
    } else {
        StrandTargetType::Message
    }
}

/// The kind of spine entry named by stored text (the same reading as
/// `targeted`).
pub fn parse_target_type(value: &str) -> (r: StrandTargetType)
    ensures
        r == strand_target_type_parse(value@),
{
    targeted(value)
}

/// How many entries a page skips: `page_index * page_size`, saturating, and
/// none when either is not positive.
pub open spec fn page_skip(page_index: i64, page_size: i64) -> int {
    if page_index <= 0 || page_size <= 0 {
        0
    } else if page_index * page_size > i64::MAX {
        i64::MAX as int
    } else {
        page_index * page_size
    }
}

/// How many entries a page holds at most.
pub open spec fn page_take(page_size: i64) -> int {
    if page_size <= 0 {
        0
    } else {
        page_size as int
    }
}

pub open spec fn clip(n: int, len: int) -> int {
    if n < len {
        n
    } else {
        len
    }
}

/// The page of `entries` at `page_index` for pages of `page_size` entries.
pub fn paged<T>(entries: Vec<T>, page_index: i64, page_size: i64) -> (r: Vec<T>)
    ensures
        r@ == entries@.subrange(
            clip(page_skip(page_index, page_size), entries@.len() as int),
            clip(
                page_skip(page_index, page_size) + page_take(page_size),
                entries@.len() as int,
            ),
        ),
{
    let mut entries = entries;
    let len = entries.len();
    let skip: u128 = if page_index <= 0 || page_size <= 0 {
        0
    } else {
        match page_index.checked_mul(page_size) {
            Some(product) => product as u128,
            None => 9223372036854775807u128,
        }
    };
    let take: u128 = if page_size <= 0 {
        0
    } else {
        page_size as u128
    };
    if skip >= len as u128 {
        let ghost old = entries@;
        entries.truncate(0);
        assert(entries@ =~= old.subrange(len as int, len as int));
        return entries;
    }
    let ghost whole = entries@;
    let mut rest = entries.split_off(skip as usize);
    assert(rest@ =~= whole.subrange(skip as int, len as int));
    if take < (len as u128) - skip {
        rest.truncate(take as usize);
    }
    assert(rest@ =~= whole.subrange(
        clip(skip as int, len as int),
        clip(skip + take, len as int),
    ));
    rest
}

/// The lowercase form of a text, by Unicode case mapping, as `str::to_lowercase`
/// computes it.
pub uninterp spec fn lowercase(text: Seq<char>) -> Seq<char>;

/// `str::to_lowercase`. Its result is named by `lowercase`: a function of the
/// text alone.
#[verifier::external_body]
pub(crate) fn lowered(text: &str) -> (r: String)
    ensures
        r@ == lowercase(text@),
{
    text.to_lowercase()
}

/// The search term of a compact query: the keyword trimmed and lowercased,
/// and none when it is absent or blank.
pub open spec fn needle_of(keyword: Option<Seq<char>>) -> Option<Seq<char>> {
    match keyword {
        None => None,
        Some(k) => if trim_spec(k).len() == 0 {
            None
        } else {
            Some(lowercase(trim_spec(k)))
        },
    }
}

/// The search term of a compact query.
pub fn needle(keyword: Option<&str>) -> (r: Option<String>)
    ensures
        crate::receipt::opt_view(r) == needle_of(match keyword {
            None => None,
            Some(k) => Some(k@),
        }),
{
    match keyword {
        None => None,
        Some(k) => {
            let t = trimmed(k);
            if t.as_str().unicode_len() == 0 {
                None
            } else {
                Some(lowered(t.as_str()))
            }
        },
    }
}

/// Whether an entry's text passes the search: always without a term, else
/// when its lowercase form contains the term.
pub fn kept(needle: &Option<String>, text: &str) -> (r: bool)
    ensures
        r == match needle {
            None => true,
            Some(n) => occurs(lowercase(text@), n@),
        },
{
    match needle {
        None => true,
        Some(n) => {
            let low = lowered(text);
            let hay = chars_of(low.as_str());
            let pat = chars_of(n.as_str());
            contains_chars(&hay, &pat)
        },
    }
}

/// A tool call on the spine: its tool and its arguments as stored JSON text.
#[derive(Clone, Debug)]
pub struct CallFacts {
    pub tool: String,
    pub arguments: String,
}

/// A tool result on the spine: its output as stored JSON text and its error.
#[derive(Clone, Debug)]
pub struct ReplyFacts {
    pub output: Option<String>,
    pub error: Option<String>,
}

/// What a spine entry points at, as the store finds it (`None` where the
/// target is gone).
#[derive(Clone, Debug)]
pub enum Target {
    /// A message and the plain text of its content.
    Message(Option<String>),
    ToolCall(Option<CallFacts>),
    ToolResult(Option<ReplyFacts>),
    /// A thinking span and its summary.
    Thinking(Option<Option<String>>),
    Other,
}

/// The plain-text view of a spine entry: a message's text; `[tool_call NAME]
/// ARGS`; `[tool_result] OUTPUT`, `[tool_result error] ERROR` or
/// `[tool_result]`; `[thinking] SUMMARY`; empty where the target or its text
/// is missing. JSON values show as their display text. `None` when a tool
/// call's stored arguments are not JSON; a stored tool output that is not
/// JSON reads as no output, so the error text, or the bare tag, stands.
pub open spec fn entry_spec(target: Target) -> Option<Seq<char>> {
    match target {
        Target::Message(m) => Some(
            match m {
                Some(t) => t@,
                None => Seq::empty(),
            },
        ),
        Target::ToolCall(None) => Some(Seq::empty()),
        Target::ToolCall(Some(c)) => match shown_spec(c.arguments@) {
            Some(v) => Some("[tool_call "@ + c.tool@ + "] "@ + v),
            None => None,
        },
        Target::ToolResult(None) => Some(Seq::empty()),
        Target::ToolResult(Some(x)) => Some(
            if x.output is Some && shown_spec(x.output->0@) is Some {
                "[tool_result] "@ + shown_spec(x.output->0@)->0
            } else if x.error is Some {
                "[tool_result error] "@ + x.error->0@
            } else {
                "[tool_result]"@
            },
        ),
        Target::Thinking(Some(Some(summary))) => Some("[thinking] "@ + summary@),
        Target::Thinking(_) => Some(Seq::empty()),
        Target::Other => Some(Seq::empty()),
    }
}

/// The plain-text view of a spine entry, for compact queries.
pub fn entry(target: &Target) -> (r: Option<String>)
    ensures
        crate::receipt::opt_view(r) == entry_spec(*target),
{
    match target {
        Target::Message(m) => match m {
            Some(t) => Some(t.clone()),
            None => Some(String::new()),
        },
        Target::ToolCall(None) => Some(String::new()),
        Target::ToolCall(Some(c)) => match value_text(c.arguments.as_str()) {
            Some(v) => {
                let head = joined3("[tool_call ", c.tool.as_str(), "] ");
                Some(head.concat(v.as_str()))
            },
            None => None,
        },
        Target::ToolResult(None) => Some(String::new()),
        Target::ToolResult(Some(x)) => {
            let shown = match &x.output {
                Some(o) => value_text(o.as_str()),
                None => None,
            };
            match shown {
                Some(v) => Some(joined("[tool_result] ", v.as_str())),
                None => match &x.error {
                    Some(e) => Some(joined("[tool_result error] ", e.as_str())),
                    None => Some(owned("[tool_result]")),
                },
            }
        },
        Target::Thinking(Some(Some(summary))) => Some(joined("[thinking] ", summary.as_str())),
        Target::Thinking(_) => Some(String::new()),
        Target::Other => Some(String::new()),
    }
}

/// One entry of a compact query: its spine position and kind, what it
/// points at, and its plain-text view.
#[derive(Clone, Debug)]
pub struct QueryEntry {
    pub seq: i64,
    pub kind: StrandTargetType,
    pub target: String,
    pub text: String,
}

/// A page of a compact query: how many entries pass the search, and the
/// page of them asked for.
#[derive(Clone, Debug)]
pub struct QueryPage {
    pub total: usize,
    pub entries: Vec<QueryEntry>,
}

/// Whether an entry's text passes a search term.
pub open spec fn passes(needle: Option<Seq<char>>, text: Seq<char>) -> bool {
    match needle {
        None => true,
        Some(n) => occurs(lowercase(text), n),
    }
}

/// The entries whose text passes the search term, in order.
pub open spec fn found(entries: Seq<QueryEntry>, needle: Option<Seq<char>>) -> Seq<QueryEntry>
    decreases entries.len(),
{
    if entries.len() == 0 {
        Seq::empty()
    } else {
        let rest = found(entries.drop_last(), needle);
        if passes(needle, entries.last().text@) {
            rest.push(entries.last())
        } else {
            rest
        }
    }
}

fn copy_entry(e: &QueryEntry) -> (r: QueryEntry)
    ensures
        r == *e,
{
    QueryEntry { seq: e.seq, kind: e.kind, target: e.target.clone(), text: e.text.clone() }
}

/// The answer of a compact query over the entries a compact covers, in
/// spine order: the entries that pass the keyword's search term are counted,
/// and the page at `page_index` of them is returned.
pub fn query_page(entries: &Vec<QueryEntry>, keyword: Option<&str>, page_index: i64, page_size: i64) -> (r:
    QueryPage)
    ensures
        ({
            let f = found(
                entries@,
                needle_of(
                    match keyword {
                        None => None,
                        Some(k) => Some(k@),
                    },
                ),
            );
            &&& r.total == f.len()
            &&& r.entries@ == f.subrange(
                clip(page_skip(page_index, page_size), f.len() as int),
                clip(page_skip(page_index, page_size) + page_take(page_size), f.len() as int),
            )
        }),
{
    let term = needle(keyword);
    let ghost n = crate::receipt::opt_view(term);
    let mut kept_entries: Vec<QueryEntry> = Vec::new();
    let mut i: usize = 0;
    while i < entries.len()
        invariant
            i <= entries@.len(),
            n == crate::receipt::opt_view(term),
            kept_entries@ == found(entries@.subrange(0, i as int), n),
        decreases entries.len() - i,
    {
        proof {
            let sub = entries@.subrange(0, i + 1);
            assert(sub.drop_last() =~= entries@.subrange(0, i as int));
            assert(sub.last() == entries@[i as int]);
        }
        if kept(&term, entries[i].text.as_str()) {
            kept_entries.push(copy_entry(&entries[i]));
        }
        i = i + 1;
    }
    assert(entries@.subrange(0, entries@.len() as int) =~= entries@);
    let total = kept_entries.len();
    QueryPage { total, entries: paged(kept_entries, page_index, page_size) }
}

/// A compact query's search finds the term anywhere in an entry's lowercase
/// text: every entry found has the term at some position of its lowercase
/// text, every entry with the term somewhere is found, and without a term
/// every entry is found, in order.
pub proof fn search_finds_the_term_anywhere(entries: Seq<QueryEntry>, n: Seq<char>)
    ensures
        forall|k: int|
            #![trigger found(entries, Some(n))[k]]
            0 <= k < found(entries, Some(n)).len() ==> exists|i: int|
                #![trigger lowercase(found(entries, Some(n))[k].text@).subrange(i, i + n.len())]
                0 <= i && i + n.len() <= lowercase(found(entries, Some(n))[k].text@).len()
                    && lowercase(found(entries, Some(n))[k].text@).subrange(i, i + n.len()) == n,
        forall|j: int, i: int|
            0 <= j < entries.len() && 0 <= i && i + n.len() <= lowercase(
                (#[trigger] entries[j]).text@,
            ).len() && #[trigger] lowercase(entries[j].text@).subrange(i, i + n.len()) == n
                ==> found(entries, Some(n)).contains(entries[j]),
        found(entries, None) == entries,
    decreases entries.len(),
{
    if entries.len() > 0 {
        let rest = entries.drop_last();
        search_finds_the_term_anywhere(rest, n);
        let last = entries.last();
        let f = found(entries, Some(n));
        let fr = found(rest, Some(n));
        assert forall|k: int| #![trigger f[k]] 0 <= k < f.len() implies exists|i: int|
            #![trigger lowercase(f[k].text@).subrange(i, i + n.len())]
            0 <= i && i + n.len() <= lowercase(f[k].text@).len() && lowercase(f[k].text@).subrange(
                i,
                i + n.len(),
            ) == n by {
            if k < fr.len() {
                assert(f[k] == fr[k]);
            } else {
                assert(f[k] == last);
                assert(passes(Some(n), last.text@));
            }
        }
        assert forall|j: int, i: int|
            0 <= j < entries.len() && 0 <= i && i + n.len() <= lowercase(
                (#[trigger] entries[j]).text@,
            ).len() && #[trigger] lowercase(entries[j].text@).subrange(i, i + n.len()) == n
            implies f.contains(entries[j]) by {
            if j < rest.len() {
                assert(entries[j] == rest[j]);
                assert(fr.contains(rest[j]));
                let q = choose|q: int| 0 <= q < fr.len() && fr[q] == rest[j];
                if passes(Some(n), last.text@) {
                    assert(f[q] == fr[q]);
                }
            } else {
                assert(entries[j] == last);
                assert(passes(Some(n), last.text@));
                assert(f[fr.len() as int] == last);
            }
        }
        assert(found(entries, None) =~= entries) by {
            assert(found(rest, None) =~= rest);
            assert(entries =~= rest.push(last));
        }
    } else {
        assert(found(entries, None) =~= entries);
    }
}

} // verus!
