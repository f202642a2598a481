use vstd::prelude::*;

use crate::codec::{ActorType, MessageKind};
use crate::compact::Span;
use crate::text::{blank, is_blank, joined, owned, str_eq};

verus! {

/// Whether a compact range covers a spine position.
pub open spec fn covers(o: Span, seq: int) -> bool {
    o.start_seq <= seq <= o.end_seq
}

/// The index of the first range in `overlay` that covers `seq`, or the
/// number of ranges when none does.
pub open spec fn cover_index(overlay: Seq<Span>, seq: int) -> int
    decreases overlay.len(),
{
    if overlay.len() == 0 {
        0
    } else if covers(overlay[0], seq) {
        0
    } else {
        1 + cover_index(overlay.drop_first(), seq)
    }
}

/// One item of the assembled view: the summary of a compact, or a spine
/// entry shown as it is.
#[derive(Clone, Copy, Debug, PartialEq, Eq, Structural)]
pub enum Placement {
    /// The summary of the compact at this index of the overlay.
    Summary(usize),
    /// The spine entry at this index.
    Row(usize),
}

/// What spine entry `i` contributes to the assembled view: an entry that no
/// compact covers shows as itself; an entry that a compact covers is hidden,
/// and the compact's summary shows in place of the first entry it covers.
pub open spec fn placed(overlay: Seq<Span>, seqs: Seq<i64>, i: int) -> Seq<Placement> {
    let k = cover_index(overlay, seqs[i] as int);
    if k < overlay.len() {
        if exists|j: int| 0 <= j < i && cover_index(overlay, seqs[j] as int) == k {
            Seq::empty()
        } else {
            seq![Placement::Summary(k as usize)]
        }
    } else {
        seq![Placement::Row(i as usize)]
    }
}

/// The assembled view of the first `n` spine entries.
pub open spec fn woven(overlay: Seq<Span>, seqs: Seq<i64>, n: int) -> Seq<Placement>
    decreases n,
{
    if n <= 0 {
        Seq::empty()
    } else {
        woven(overlay, seqs, n - 1) + placed(overlay, seqs, n - 1)
    }
}

proof fn lemma_cover_index(overlay: Seq<Span>, seq: int, k: int)
    requires
        0 <= k <= overlay.len(),
        forall|j: int| 0 <= j < k ==> !covers(#[trigger] overlay[j], seq),
        k == overlay.len() || covers(overlay[k], seq),
    ensures
        cover_index(overlay, seq) == k,
    decreases overlay.len(),
{
    if overlay.len() > 0 && k > 0 {
        assert(!covers(overlay[0], seq));
        assert forall|j: int| 0 <= j < k - 1 implies !covers(#[trigger] overlay.drop_first()[j], seq) by {
            assert(overlay.drop_first()[j] == overlay[j + 1]);
        }
        if k < overlay.len() {
            assert(overlay.drop_first()[k - 1] == overlay[k]);
        }
        lemma_cover_index(overlay.drop_first(), seq, k - 1);
    }
}

fn cover_of(overlay: &Vec<Span>, seq: i64) -> (k: usize)
    ensures
        k == cover_index(overlay@, seq as int),
{
    let mut k: usize = 0;
    while k < overlay.len()
        invariant
            k <= overlay@.len(),
            forall|j: int| 0 <= j < k ==> !covers(#[trigger] overlay@[j], seq as int),
        decreases overlay.len() - k,
    {
        if overlay[k].start_seq <= seq && seq <= overlay[k].end_seq {
            proof {
                lemma_cover_index(overlay@, seq as int, k as int);
            }
            return k;
        }
        k = k + 1;
    }
    proof {
        lemma_cover_index(overlay@, seq as int, k as int);
    }
    k
}

/// Merges a strand's spine with its compact overlay: `seqs` are the
/// positions of the spine entries in order, `overlay` the ranges of the
/// compacts. Each compact stands for the entries it covers, as one summary
/// in place of the first of them; the spine itself is left as it is.
pub fn weave(overlay: &Vec<Span>, seqs: &Vec<i64>) -> (r: Vec<Placement>)
    ensures
        r@ == woven(overlay@, seqs@, seqs@.len() as int),
{
    let mut out: Vec<Placement> = Vec::new();
    let mut emitted: Vec<bool> = Vec::new();
    let mut e: usize = 0;
    while e < overlay.len()
        invariant
            e <= overlay@.len(),
            emitted@.len() == e,
            forall|k: int| 0 <= k < e ==> !#[trigger] emitted@[k],
        decreases overlay.len() - e,
    {
        emitted.push(false);
        e = e + 1;
    }
    let mut i: usize = 0;
    while i < seqs.len()
        invariant
            i <= seqs@.len(),
            emitted@.len() == overlay@.len(),
            forall|k: int|
                0 <= k < overlay@.len() ==> (#[trigger] emitted@[k] <==> exists|j: int|
                    0 <= j < i && cover_index(overlay@, seqs@[j] as int) == k),
            out@ == woven(overlay@, seqs@, i as int),
        decreases seqs.len() - i,
    {
        let k = cover_of(overlay, seqs[i]);
        if k < overlay.len() {
            if !emitted[k] {
                out.push(Placement::Summary(k));
                emitted.set(k, true);
            }
        } else {
            out.push(Placement::Row(i));
        }
        proof {
            assert forall|q: int|
                0 <= q < overlay@.len() implies (#[trigger] emitted@[q] <==> exists|j: int|
                0 <= j < i + 1 && cover_index(overlay@, seqs@[j] as int) == q) by {
                if q == k {
                    assert(cover_index(overlay@, seqs@[i as int] as int) == q);
                } else {
                    if exists|j: int| 0 <= j < i + 1 && cover_index(overlay@, seqs@[j] as int) == q {
                        let j = choose|j: int|
                            0 <= j < i + 1 && cover_index(overlay@, seqs@[j] as int) == q;
                        assert(j < i);
                    }
                }
            }
        }
        i = i + 1;
    }
    out
}

proof fn lemma_woven_rows(overlay: Seq<Span>, seqs: Seq<i64>, n: int, i: int)
    requires
        0 <= n <= seqs.len(),
        seqs.len() <= usize::MAX,
        0 <= i <= usize::MAX,
    ensures
        woven(overlay, seqs, n).contains(Placement::Row(i as usize)) <==> (0 <= i < n
            && cover_index(overlay, seqs[i] as int) >= overlay.len()),
    decreases n,
{
    if n > 0 {
        lemma_woven_rows(overlay, seqs, n - 1, i);
        let w = woven(overlay, seqs, n - 1);
        let p = placed(overlay, seqs, n - 1);
        let x = Placement::Row(i as usize);
        assert(woven(overlay, seqs, n) == w + p);
        assert((w + p).contains(x) <==> w.contains(x) || p.contains(x)) by {
            if (w + p).contains(x) {
                let q = choose|q: int| 0 <= q < (w + p).len() && (w + p)[q] == x;
                if q < w.len() {
                    assert(w[q] == x);
                } else {
                    assert(p[q - w.len()] == x);
                }
            }
            if w.contains(x) {
                let q = choose|q: int| 0 <= q < w.len() && w[q] == x;
                assert((w + p)[q] == x);
            }
            if p.contains(x) {
                let q = choose|q: int| 0 <= q < p.len() && p[q] == x;
                assert((w + p)[w.len() + q] == x);
            }
        }
        if p.contains(x) {
            let q = choose|q: int| 0 <= q < p.len() && p[q] == x;
            assert(p[q] == x);
            assert(cover_index(overlay, seqs[n - 1] as int) >= overlay.len());
            assert(p[q] == Placement::Row((n - 1) as usize));
            assert(i == n - 1);
        }
        if 0 <= i && i == n - 1 && cover_index(overlay, seqs[i] as int) >= overlay.len() {
            assert(p[0] == x);
        }
    }
}

proof fn lemma_cover_bounds(overlay: Seq<Span>, seq: int)
    ensures
        0 <= cover_index(overlay, seq) <= overlay.len(),
    decreases overlay.len(),
{
    if overlay.len() > 0 && !covers(overlay[0], seq) {
        lemma_cover_bounds(overlay.drop_first(), seq);
    }
}

proof fn lemma_woven_summaries(overlay: Seq<Span>, seqs: Seq<i64>, n: int, k: int)
    requires
        0 <= n <= seqs.len(),
        0 <= k < overlay.len(),
        overlay.len() <= usize::MAX,
    ensures
        woven(overlay, seqs, n).contains(Placement::Summary(k as usize)) ==> exists|j: int|
            0 <= j < n && cover_index(overlay, seqs[j] as int) == k,
        forall|a: int, b: int|
            0 <= a < b < woven(overlay, seqs, n).len() && woven(overlay, seqs, n)[a]
                == Placement::Summary(k as usize) ==> woven(overlay, seqs, n)[b]
                != Placement::Summary(k as usize),
    decreases n,
{
    if n > 0 {
        lemma_woven_summaries(overlay, seqs, n - 1, k);
        let w = woven(overlay, seqs, n - 1);
        let p = placed(overlay, seqs, n - 1);
        let x = Placement::Summary(k as usize);
        let all = woven(overlay, seqs, n);
        assert(all == w + p);
        if all.contains(x) {
            let q = choose|q: int| 0 <= q < all.len() && all[q] == x;
            if q < w.len() {
                assert(w[q] == x);
                assert(w.contains(x));
            } else {
                assert(p[q - w.len()] == x);
                let c = cover_index(overlay, seqs[n - 1] as int);
                lemma_cover_bounds(overlay, seqs[n - 1] as int);
                assert(c < overlay.len());
                assert(p[q - w.len()] == Placement::Summary(c as usize));
                assert(cover_index(overlay, seqs[n - 1] as int) == k);
            }
        }
        assert forall|a: int, b: int|
            0 <= a < b < all.len() && all[a] == x implies all[b] != x by {
            if b >= w.len() && all[b] == x {
                assert(p[b - w.len()] == x);
                if a < w.len() {
                    assert(w[a] == x);
                    assert(w.contains(x));
                    let c = cover_index(overlay, seqs[n - 1] as int);
                    lemma_cover_bounds(overlay, seqs[n - 1] as int);
                    assert(c < overlay.len());
                    assert(p[b - w.len()] == Placement::Summary(c as usize));
                    assert(cover_index(overlay, seqs[n - 1] as int) == k);
                    assert(exists|j: int| 0 <= j < n - 1 && cover_index(overlay, seqs[j] as int) == k);
                } else {
                    assert(p.len() <= 1);
                }
            } else if b < w.len() {
                assert(w[a] == x);
            }
        }
    }
}

/// The assembled view hides only what a compact covers: a spine entry shows
/// as itself exactly when no compact covers it; and the summary of each
/// compact shows at most once, and only when the compact covers an entry.
pub proof fn views_hide_only_what_compacts_cover(overlay: Seq<Span>, seqs: Seq<i64>, i: int, k: int)
    requires
        overlay.len() <= usize::MAX,
        seqs.len() <= usize::MAX,
        0 <= i <= usize::MAX,
        0 <= k < overlay.len(),
    ensures
        woven(overlay, seqs, seqs.len() as int).contains(Placement::Row(i as usize)) <==> (0 <= i
            < seqs.len() && cover_index(overlay, seqs[i] as int) >= overlay.len()),
        woven(overlay, seqs, seqs.len() as int).contains(Placement::Summary(k as usize))
            ==> exists|j: int| 0 <= j < seqs.len() && cover_index(overlay, seqs[j] as int) == k,
        forall|a: int, b: int|
            0 <= a < b < woven(overlay, seqs, seqs.len() as int).len() && woven(
                overlay,
                seqs,
                seqs.len() as int,
            )[a] == Placement::Summary(k as usize) ==> woven(overlay, seqs, seqs.len() as int)[b]
                != Placement::Summary(k as usize),
{
    lemma_woven_rows(overlay, seqs, seqs.len() as int, i);
    lemma_woven_summaries(overlay, seqs, seqs.len() as int, k);
}

/// Where an overlay range comes from.
#[derive(Clone, Copy, Debug, PartialEq, Eq, Structural)]
pub enum Layer {
    /// The stored compact at this position.
    Compact(usize),
    /// The compact being previewed.
    Preview,
}

/// The overlay of an assembled view: ranges and where each comes from.
#[derive(Clone, Debug)]
pub struct Overlay {
    pub spans: Vec<Span>,
    pub layers: Vec<Layer>,
}

/// A compact being previewed: its range and the stored compacts it absorbs.
#[derive(Clone, Debug)]
pub struct Preview {
    pub span: Span,
    pub absorbed: Vec<String>,
}

/// Whether a stored compact is absorbed by the preview.
pub open spec fn absorbed_by(preview: Option<Preview>, id: Seq<char>) -> bool {
    preview matches Some(p) && crate::order::views(p.absorbed@).contains(id)
}

/// The stored compacts that show: seated in the strand and not absorbed by
/// the preview, in order.
pub open spec fn shown(compacts: Seq<crate::compact::Seated>, preview: Option<Preview>, n: int) -> Seq<int>
    decreases n,
{
    if n <= 0 {
        Seq::empty()
    } else {
        let rest = shown(compacts, preview, n - 1);
        let c = compacts[n - 1];
        if c.start is Some && c.end is Some && !absorbed_by(preview, c.id@) {
            rest.push(n - 1)
        } else {
            rest
        }
    }
}

fn absorbed_has(absorbed: &Vec<String>, id: &String) -> (r: bool)
    ensures
        r == crate::order::views(absorbed@).contains(id@),
{
    let mut i: usize = 0;
    while i < absorbed.len()
        invariant
            i <= absorbed@.len(),
            forall|j: int| 0 <= j < i ==> (#[trigger] absorbed@[j])@ != id@,
        decreases absorbed.len() - i,
    {
        if crate::order::str_eq_string(&absorbed[i], id) {
            assert(crate::order::views(absorbed@)[i as int] == id@);
            return true;
        }
        i = i + 1;
    }
    proof {
        if crate::order::views(absorbed@).contains(id@) {
            let j = choose|j: int|
                0 <= j < crate::order::views(absorbed@).len() && crate::order::views(absorbed@)[j]
                    == id@;
            assert(absorbed@[j]@ == id@);
        }
    }
    false
}

/// The overlay of a strand's view: its stored compacts that sit in the
/// strand and that the preview does not absorb, in order, then the preview.
pub fn overlays(compacts: &Vec<crate::compact::Seated>, preview: &Option<Preview>) -> (r: Overlay)
    ensures
        r.spans@.len() == r.layers@.len(),
        ({
            let s = shown(compacts@, *preview, compacts@.len() as int);
            &&& r.layers@.len() == s.len() + (if preview is Some {
                1int
            } else {
                0
            })
            &&& forall|k: int|
                0 <= k < s.len() ==> #[trigger] r.layers@[k] == Layer::Compact(s[k] as usize)
                    && r.spans@[k] == (Span {
                    start_seq: compacts@[s[k]].start->0,
                    end_seq: compacts@[s[k]].end->0,
                })
            &&& preview matches Some(p) ==> r.layers@[s.len() as int] == Layer::Preview
                && r.spans@[s.len() as int] == p.span
        }),
{
    let mut spans: Vec<Span> = Vec::new();
    let mut layers: Vec<Layer> = Vec::new();
    let mut i: usize = 0;
    while i < compacts.len()
        invariant
            i <= compacts@.len(),
            spans@.len() == layers@.len(),
            layers@.len() == shown(compacts@, *preview, i as int).len(),
            forall|k: int|
                0 <= k < layers@.len() ==> #[trigger] layers@[k] == Layer::Compact(
                    shown(compacts@, *preview, i as int)[k] as usize,
                ) && spans@[k] == (Span {
                    start_seq: compacts@[shown(compacts@, *preview, i as int)[k]].start->0,
                    end_seq: compacts@[shown(compacts@, *preview, i as int)[k]].end->0,
                }),
        decreases compacts.len() - i,
    {
        let c = &compacts[i];
        let hidden = match preview {
            Some(p) => absorbed_has(&p.absorbed, &c.id),
            None => false,
        };
        match (c.start, c.end) {
            (Some(a), Some(b)) => {
                if !hidden {
                    spans.push(Span { start_seq: a, end_seq: b });
                    layers.push(Layer::Compact(i));
                }
            },
            _ => {},
        }
        i = i + 1;
    }
    match preview {
        Some(p) => {
            spans.push(p.span);
            layers.push(Layer::Preview);
        },
        None => {},
    }
    Overlay { spans, layers }
}

/// How many entries a stored compact collapses when its metadata does not
/// say: the width of its range, saturating.
pub fn collapsed_count(start_seq: i64, end_seq: i64) -> (r: i64)
    ensures
        r == ({
            let d = if end_seq - start_seq > i64::MAX {
                i64::MAX as int
            } else if end_seq - start_seq < i64::MIN {
                i64::MIN as int
            } else {
                end_seq - start_seq
            };
            if d + 1 > i64::MAX {
                i64::MAX as int
            } else {
                d + 1
            }
        }),
{
    let wide: i128 = end_seq as i128 - start_seq as i128;
    let d: i64 = if wide > 9223372036854775807i128 {
        9223372036854775807i64
    } else if wide < -9223372036854775808i128 {
        -9223372036854775808i64
    } else {
        wide as i64
    };
    if d == 9223372036854775807i64 {
        d
    } else {
        d + 1
    }
}

/// The provider role a message speaks in: the soul is the assistant,
/// world-inbound text is the user, runtime notices are the system.
pub open spec fn role_of(actor: ActorType, kind: MessageKind) -> Seq<char> {
    match (actor, kind) {
        (ActorType::Soul, _) => "assistant"@,
        (ActorType::System, MessageKind::Text) => "user"@,
        (ActorType::System, MessageKind::SantiSystem) => "system"@,
    }
}

/// A message as the provider reads it.
#[derive(Clone, Debug)]
pub struct ProviderMessage {
    pub role: String,
    pub content: String,
}

/// The provider item of a message: its role and text, and none for a
/// message without text.
pub fn message_to_provider_item(actor: ActorType, kind: MessageKind, content: &str) -> (r: Option<
    ProviderMessage,
>)
    ensures
        blank(content@) ==> r is None,
        !blank(content@) ==> (r matches Some(m) && m.role@ == role_of(actor, kind) && m.content@
            == content@),
{
    if is_blank(content) {
        return None;
    }
    let role = match (actor, kind) {
        (ActorType::Soul, _) => "assistant",
        (ActorType::System, MessageKind::Text) => "user",
        (ActorType::System, MessageKind::SantiSystem) => "system",
    };
    Some(ProviderMessage { role: owned(role), content: owned(content) })
}

/// The reasoning a thinking span shows the provider: its summary, when it
/// has text.
pub fn reasoning_of(summary: &Option<String>) -> (r: Option<String>)
    ensures
        match summary {
            Some(t) => if blank(t@) {
                r is None
            } else {
                r matches Some(x) && x@ == t@
            },
            None => r is None,
        },
{
    match summary {
        Some(t) => if is_blank(t.as_str()) {
            None
        } else {
            Some(t.clone())
        },
        None => None,
    }
}

/// The metadata schema of a compact written as a manual capsule.
pub open spec fn capsule_schema() -> Seq<char> {
    "santi.compact_capsule.v1"@
}

/// What a compact's metadata declares for the header shown to the provider;
/// `None` where it declares nothing (or nothing of the right type).
#[derive(Clone, Debug)]
pub struct Declared {
    pub schema: Option<String>,
    pub operation: Option<String>,
    pub declared_source: Option<String>,
    pub source_trust: Option<String>,
    pub reason: Option<String>,
    pub risk: Option<String>,
    pub queryability: Option<String>,
    pub originals_query: Option<String>,
    pub start_seq: Option<i64>,
    pub end_seq: Option<i64>,
    pub collapsed: Option<i64>,
}

/// The header fields of a compact shown to the provider, but for its
/// covered message range and its context estimate, which are copied as
/// stored.
#[derive(Clone, Debug)]
pub struct HeaderFields {
    pub operation: String,
    pub declared_source: String,
    pub source_trust: String,
    pub start_seq: i64,
    pub end_seq: i64,
    pub collapsed: i64,
    pub reason: String,
    pub risk: String,
    pub queryability: String,
    pub originals_query: String,
}

/// A declared text, else `fallback`.
pub open spec fn or_text(value: Option<String>, fallback: Seq<char>) -> Seq<char> {
    match value {
        Some(s) => s@,
        None => fallback,
    }
}

/// A declared number, else `fallback`.
pub open spec fn or_number(value: Option<i64>, fallback: i64) -> i64 {
    match value {
        Some(n) => n,
        None => fallback,
    }
}

/// Whether the metadata marks a manual capsule.
pub open spec fn is_capsule(d: Declared) -> bool {
    d.schema matches Some(s) && s@ == capsule_schema()
}

fn or_default(value: &Option<String>, fallback: &str) -> (r: String)
    ensures
        r@ == or_text(*value, fallback@),
{
    match value {
        Some(s) => s.clone(),
        None => owned(fallback),
    }
}

/// The header fields of compact `compact_id`: what its metadata declares,
/// else the defaults. A capsule defaults to operation `manual_capsule` and
/// trust `caller_declared`, any other compact to `compact_projection` and
/// `not_declared`; the covered positions and collapsed count default to the
/// compact's seated range; the originals query defaults to the command that
/// lists them.
pub fn header_fields(compact_id: &str, declared: &Declared, start_seq: i64, end_seq: i64, collapsed: i64) -> (r:
    HeaderFields)
    ensures
        r.operation@ == or_text(
            declared.operation,
            if is_capsule(*declared) {
                "manual_capsule"@
            } else {
                "compact_projection"@
            },
        ),
        r.declared_source@ == or_text(declared.declared_source, "not_declared"@),
        r.source_trust@ == or_text(
            declared.source_trust,
            if is_capsule(*declared) {
                "caller_declared"@
            } else {
                "not_declared"@
            },
        ),
        r.start_seq == or_number(declared.start_seq, start_seq),
        r.end_seq == or_number(declared.end_seq, end_seq),
        r.collapsed == or_number(declared.collapsed, collapsed),
        r.reason@ == or_text(declared.reason, "not_declared"@),
        r.risk@ == or_text(declared.risk, "not_declared"@),
        r.queryability@ == or_text(
            declared.queryability,
            "original spine remains queryable with compact query"@,
        ),
        r.originals_query@ == or_text(
            declared.originals_query,
            "santi compact query --compact-id "@ + compact_id@,
        ),
{
    let capsule = match &declared.schema {
        Some(s) => str_eq(s.as_str(), "santi.compact_capsule.v1"),
        None => false,
    };
    let query = match &declared.originals_query {
        Some(q) => q.clone(),
        None => joined("santi compact query --compact-id ", compact_id),
    };
    HeaderFields {
        operation: or_default(
            &declared.operation,
            if capsule {
                "manual_capsule"
            } else {
                "compact_projection"
            },
        ),
        declared_source: or_default(&declared.declared_source, "not_declared"),
        source_trust: or_default(
            &declared.source_trust,
            if capsule {
                "caller_declared"
            } else {
                "not_declared"
            },
        ),
        start_seq: match declared.start_seq {
            Some(n) => n,
            None => start_seq,
        },
        end_seq: match declared.end_seq {
            Some(n) => n,
            None => end_seq,
        },
        collapsed: match declared.collapsed {
            Some(n) => n,
            None => collapsed,
        },
        reason: or_default(&declared.reason, "not_declared"),
        risk: or_default(&declared.risk, "not_declared"),
        queryability: or_default(
            &declared.queryability,
            "original spine remains queryable with compact query",
        ),
        originals_query: query,
    }
}

} // verus!
