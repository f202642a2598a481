use vstd::prelude::*;
use vstd::utf8::{encode_utf8, is_char_boundary};

use crate::text::owned;

verus! {

broadcast use vstd::utf8::encode_utf8_valid_utf8;

/// The most bytes of failure detail kept in an incident.
pub const DETAIL_LIMIT: usize = 4096;

/// The largest character boundary of `bytes` at or below `at` (zero when
/// there is none above it).
pub open spec fn cut(bytes: Seq<u8>, at: int) -> int
    decreases at,
{
    if at <= 0 {
        0
    } else if is_char_boundary(bytes, at) {
        at
    } else {
        cut(bytes, at - 1)
    }
}

/// The bytes of a detail clipped to `limit` bytes: the whole text when it
/// fits, else as many whole characters as leave room for ` [truncated]`,
/// followed by it.
pub open spec fn clipped_bytes(detail: Seq<char>, limit: int) -> Seq<u8> {
    let b = encode_utf8(detail);
    if b.len() <= limit {
        b
    } else {
        b.subrange(0, cut(b, limit - 12)) + encode_utf8(" [truncated]"@)
    }
}

proof fn lemma_encode_concat(a: Seq<char>, b: Seq<char>)
    ensures
        encode_utf8(a + b) == encode_utf8(a) + encode_utf8(b),
    decreases a.len(),
{
    if a.len() > 0 {
        assert((a + b).drop_first() =~= a.drop_first() + b);
        assert((a + b)[0] == a[0]);
        lemma_encode_concat(a.drop_first(), b);
        assert(encode_utf8(a + b) =~= encode_utf8(a) + encode_utf8(b));
    } else {
        assert(a + b =~= b);
    }
}

fn clip_detail(detail: &str, limit: usize) -> (r: String)
    requires
        limit >= 12,
    ensures
        encode_utf8(r@) == clipped_bytes(detail@, limit as int),
{
    let bytes = detail.as_bytes();
    if bytes.len() <= limit {
        return owned(detail);
    }
    let mut end: usize = limit - 12;
    while end > 0 && !detail.is_char_boundary(end)
        invariant
            end <= limit - 12,
            cut(encode_utf8(detail@), end as int) == cut(encode_utf8(detail@), limit - 12),
        decreases end,
    {
        end = end - 1;
    }
    let (head, _) = detail.split_at(end);
    let r = owned(head).concat(" [truncated]");
    proof {
        lemma_encode_concat(head@, " [truncated]"@);
    }
    r
}

/// A drive failure's detail, clipped to `DETAIL_LIMIT` bytes.
pub fn bounded(detail: &str) -> (r: String)
    ensures
        encode_utf8(r@) == clipped_bytes(detail@, DETAIL_LIMIT as int),
{
    clip_detail(detail, DETAIL_LIMIT)
}

/// A runtime turn failure's detail, clipped to `DETAIL_LIMIT` bytes.
pub fn clipped(detail: &str) -> (r: String)
    ensures
        encode_utf8(r@) == clipped_bytes(detail@, DETAIL_LIMIT as int),
{
    clip_detail(detail, DETAIL_LIMIT)
}

/// A provider turn failure's detail, clipped to `DETAIL_LIMIT` bytes.
pub fn bounded_provider_detail(detail: &str) -> (r: String)
    ensures
        encode_utf8(r@) == clipped_bytes(detail@, DETAIL_LIMIT as int),
{
    clip_detail(detail, DETAIL_LIMIT)
}

proof fn lemma_cut(bytes: Seq<u8>, at: int)
    ensures
        0 <= cut(bytes, at),
        at >= 0 ==> cut(bytes, at) <= at,
    decreases at,
{
    if at > 0 && !is_char_boundary(bytes, at) {
        lemma_cut(bytes, at - 1);
    }
}

/// A clipped detail never holds more than its limit of bytes, and it begins
/// with the start of the unclipped detail.
pub proof fn clipped_details_fit(detail: Seq<char>, limit: int)
    requires
        limit >= 12,
    ensures
        clipped_bytes(detail, limit).len() <= limit,
        ({
            let b = encode_utf8(detail);
            let k = if b.len() <= limit {
                b.len() as int
            } else {
                cut(b, limit - 12)
            };
            clipped_bytes(detail, limit).subrange(0, k) == b.subrange(0, k)
        }),
{
    reveal_strlit(" [truncated]");
    let t = " [truncated]"@;
    assert(t.len() == 12);
    reveal_with_fuel(encode_utf8, 13);
    assert(encode_utf8(t).len() == 12);
    let b = encode_utf8(detail);
    lemma_cut(b, limit - 12);
    if b.len() > limit {
        let k = cut(b, limit - 12);
        assert(clipped_bytes(detail, limit).subrange(0, k) =~= b.subrange(0, k));
    } else {
        assert(b.subrange(0, b.len() as int) =~= b);
    }
}

} // verus!
