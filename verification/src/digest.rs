use vstd::prelude::*;
use vstd::utf8::encode_utf8;

use sha2::Digest;

use crate::text::push_char;

verus! {

/// The SHA-256 digest of a byte string, as the `sha2` crate computes it.
pub uninterp spec fn sha256_digest(data: Seq<u8>) -> Seq<u8>;

/// SHA-256 of `data` with `sha2::Sha256::digest`. The digest is named by
/// `sha256_digest`; that it is 32 bytes long is the documented output size of
/// `Sha256`.
#[verifier::external_body]
pub(crate) fn sha256(data: &[u8]) -> (r: Vec<u8>)
    ensures
        r@ == sha256_digest(data@),
        r@.len() == 32,
{
    sha2::Sha256::digest(data).to_vec()
}

/// The lowercase hexadecimal digit for `n` in `0..16`.
pub open spec fn nibble(n: int) -> char {
    if n < 10 {
        (48 + n) as char
    } else {
        (87 + n) as char
    }
}

/// Bytes written as lowercase hexadecimal, two digits per byte, high digit first.
pub open spec fn hex(bytes: Seq<u8>) -> Seq<char>
    decreases bytes.len(),
{
    if bytes.len() == 0 {
        Seq::empty()
    } else {
        hex(bytes.drop_last()) + seq![nibble(bytes.last() as int / 16), nibble(bytes.last() as int % 16)]
    }
}

fn nibble_char(n: u8) -> (c: char)
    requires
        n < 16,
    ensures
        c == nibble(n as int),
{
    if n < 10 {
        (48u8 + n) as char
    } else {
        (87u8 + n) as char
    }
}

/// The first `count` bytes of `bytes` in lowercase hexadecimal.
pub fn hex_text(bytes: &[u8], count: usize) -> (r: String)
    requires
        count <= bytes@.len(),
    ensures
        r@ == hex(bytes@.subrange(0, count as int)),
{
    let mut out = String::new();
    let mut i: usize = 0;
    while i < count
        invariant
            count <= bytes@.len(),
            i <= count,
            out@ == hex(bytes@.subrange(0, i as int)),
        decreases count - i,
    {
        let b = bytes[i];
        push_char(&mut out, nibble_char(b / 16));
        push_char(&mut out, nibble_char(b % 16));
        proof {
            let s = bytes@.subrange(0, i + 1);
            assert(s.drop_last() =~= bytes@.subrange(0, i as int));
            assert(s.last() == b);
        }
        i = i + 1;
        assert(out@ =~= hex(bytes@.subrange(0, i as int)));
    }
    out
}

/// The bytes of a string slice as a vector, after `prefix`.
pub fn bytes_after(prefix: &[u8], s: &str) -> (r: Vec<u8>)
    ensures
        r@ == prefix@ + encode_utf8(s@),
{
    let mut out: Vec<u8> = Vec::new();
    let mut i: usize = 0;
    while i < prefix.len()
        invariant
            i <= prefix@.len(),
            out@ == prefix@.subrange(0, i as int),
        decreases prefix.len() - i,
    {
        out.push(prefix[i]);
        i = i + 1;
        assert(out@ =~= prefix@.subrange(0, i as int));
    }
    let b = s.as_bytes();
    let mut j: usize = 0;
    while j < b.len()
        invariant
            j <= b@.len(),
            b@ == encode_utf8(s@),
            out@ == prefix@ + b@.subrange(0, j as int),
        decreases b.len() - j,
    {
        out.push(b[j]);
        j = j + 1;
        assert(out@ =~= prefix@ + b@.subrange(0, j as int));
    }
    assert(b@.subrange(0, b@.len() as int) =~= b@);
    out
}

} // verus!

verus! {

proof fn lemma_hex_len(bytes: Seq<u8>)
    ensures
        hex(bytes).len() == 2 * bytes.len(),
    decreases bytes.len(),
{
    if bytes.len() > 0 {
        lemma_hex_len(bytes.drop_last());
    }
}

proof fn lemma_nibble_injective(x: int, y: int)
    requires
        0 <= x < 16,
        0 <= y < 16,
        nibble(x) == nibble(y),
    ensures
        x == y,
{
    let cx = nibble(x);
    let cy = nibble(y);
    assert(cx as u32 == cy as u32);
    if x < 10 {
        assert(cx as u32 == 48 + x);
    } else {
        assert(cx as u32 == 87 + x);
    }
    if y < 10 {
        assert(cy as u32 == 48 + y);
    } else {
        assert(cy as u32 == 87 + y);
    }
}

/// Different byte strings are written as different hexadecimal texts.
pub proof fn hex_is_injective(a: Seq<u8>, b: Seq<u8>)
    requires
        hex(a) == hex(b),
    ensures
        a == b,
    decreases a.len(),
{
    lemma_hex_len(a);
    lemma_hex_len(b);
    if a.len() > 0 {
        let ha = hex(a.drop_last());
        let hb = hex(b.drop_last());
        lemma_hex_len(a.drop_last());
        lemma_hex_len(b.drop_last());
        let x = a.last();
        let y = b.last();
        let ta = seq![nibble(x as int / 16), nibble(x as int % 16)];
        let tb = seq![nibble(y as int / 16), nibble(y as int % 16)];
        assert(hex(a) == ha + ta);
        assert(hex(b) == hb + tb);
        assert((ha + ta).subrange(0, ha.len() as int) =~= ha);
        assert((hb + tb).subrange(0, hb.len() as int) =~= hb);
        assert(ha == hb);
        assert((ha + ta)[ha.len() as int] == ta[0]);
        assert((hb + tb)[hb.len() as int] == tb[0]);
        assert((ha + ta)[ha.len() as int + 1] == ta[1]);
        assert((hb + tb)[hb.len() as int + 1] == tb[1]);
        lemma_nibble_injective(x as int / 16, y as int / 16);
        lemma_nibble_injective(x as int % 16, y as int % 16);
        assert(x == y);
        hex_is_injective(a.drop_last(), b.drop_last());
        assert(a =~= a.drop_last().push(x));
        assert(b =~= b.drop_last().push(y));
    } else {
        assert(a =~= b);
    }
}

} // verus!
