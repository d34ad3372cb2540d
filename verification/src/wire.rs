//! Little-endian fields inside byte images, as CoreMIDI lays them out in
//! memory on the platforms it runs on.
use vstd::prelude::*;
use vstd::bytes::*;
use vstd::slice::slice_subrange;

verus! {

broadcast use vstd::seq_lib::group_seq_properties;

/// The little-endian `u16` stored at `o`.
pub open spec fn u16_at(s: Seq<u8>, o: int) -> u16 {
    spec_u16_from_le_bytes(s.subrange(o, o + 2))
}

/// The little-endian `u32` stored at `o`.
pub open spec fn u32_at(s: Seq<u8>, o: int) -> u32 {
    spec_u32_from_le_bytes(s.subrange(o, o + 4))
}

/// The little-endian `u64` stored at `o`.
pub open spec fn u64_at(s: Seq<u8>, o: int) -> u64 {
    spec_u64_from_le_bytes(s.subrange(o, o + 8))
}

/// `s` with the bytes of `t` written from offset `o` on.
pub open spec fn splice(s: Seq<u8>, o: int, t: Seq<u8>) -> Seq<u8> {
    s.take(o) + t + s.skip(o + t.len())
}

/// Two images agree on the half-open range `[lo, hi)`.
pub open spec fn agree(a: Seq<u8>, b: Seq<u8>, lo: int, hi: int) -> bool {
    &&& 0 <= lo <= hi
    &&& hi <= a.len()
    &&& hi <= b.len()
    &&& forall|i: int| lo <= i < hi ==> #[trigger] a[i] == b[i]
}

pub proof fn lemma_agree_subrange(a: Seq<u8>, b: Seq<u8>, lo: int, hi: int, x: int, y: int)
    requires
        agree(a, b, lo, hi),
        lo <= x <= y <= hi,
    ensures
        a.subrange(x, y) == b.subrange(x, y),
{
    assert(a.subrange(x, y) =~= b.subrange(x, y));
}

pub proof fn lemma_splice_facts(s: Seq<u8>, o: int, t: Seq<u8>)
    requires
        0 <= o,
        o + t.len() <= s.len(),
    ensures
        splice(s, o, t).len() == s.len(),
        splice(s, o, t).subrange(o, o + t.len()) == t,
        forall|i: int| 0 <= i < o ==> #[trigger] splice(s, o, t)[i] == s[i],
        forall|i: int| o + t.len() <= i < s.len() ==> #[trigger] splice(s, o, t)[i] == s[i],
{
    assert(splice(s, o, t).subrange(o, o + t.len()) =~= t);
}

/// Reads the little-endian `u16` at `o`.
pub fn read_u16(b: &[u8], o: usize) -> (v: u16)
    requires
        o + 2 <= b@.len(),
    ensures
        v == u16_at(b@, o as int),
{
    let _n = b.len();
    u16_from_le_bytes(slice_subrange(b, o, o + 2))
}

/// Reads the little-endian `u32` at `o`.
pub fn read_u32(b: &[u8], o: usize) -> (v: u32)
    requires
        o + 4 <= b@.len(),
    ensures
        v == u32_at(b@, o as int),
{
    let _n = b.len();
    u32_from_le_bytes(slice_subrange(b, o, o + 4))
}

/// Reads the little-endian `u64` at `o`.
pub fn read_u64(b: &[u8], o: usize) -> (v: u64)
    requires
        o + 8 <= b@.len(),
    ensures
        v == u64_at(b@, o as int),
{
    let _n = b.len();
    u64_from_le_bytes(slice_subrange(b, o, o + 8))
}

/// Copies `src` into `dst` from offset `o` on.
pub fn write_bytes(dst: &mut Vec<u8>, o: usize, src: &[u8])
    requires
        o + src@.len() <= old(dst)@.len(),
    ensures
        final(dst)@ == splice(old(dst)@, o as int, src@),
{
    let ghost d0 = dst@;
    let _n = dst.len();
    let mut i: usize = 0;
    while i < src.len()
        invariant
            i <= src@.len(),
            o + src@.len() <= d0.len(),
            d0.len() <= usize::MAX,
            dst@.len() == d0.len(),
            forall|k: int| 0 <= k < o ==> #[trigger] dst@[k] == d0[k],
            forall|k: int| o + src@.len() <= k < d0.len() ==> #[trigger] dst@[k] == d0[k],
            forall|k: int| o + i <= k < o + src@.len() ==> #[trigger] dst@[k] == d0[k],
            forall|k: int| o <= k < o + i ==> #[trigger] dst@[k] == src@[k - o],
        decreases src@.len() - i,
    {
        dst.set(o + i, src[i]);
        i = i + 1;
    }
    assert(dst@ =~= splice(d0, o as int, src@));
}

/// Stores `x` little-endian at `o`.
pub fn write_u16(dst: &mut Vec<u8>, o: usize, x: u16)
    requires
        o + 2 <= old(dst)@.len(),
    ensures
        final(dst)@ == splice(old(dst)@, o as int, spec_u16_to_le_bytes(x)),
        spec_u16_to_le_bytes(x).len() == 2,
        u16_at(final(dst)@, o as int) == x,
{
    proof { lemma_auto_spec_u16_to_from_le_bytes(); }
    let b = u16_to_le_bytes(x);
    write_bytes(dst, o, b.as_slice());
    proof { lemma_splice_facts(old(dst)@, o as int, b@); }
}

/// Stores `x` little-endian at `o`.
pub fn write_u32(dst: &mut Vec<u8>, o: usize, x: u32)
    requires
        o + 4 <= old(dst)@.len(),
    ensures
        final(dst)@ == splice(old(dst)@, o as int, spec_u32_to_le_bytes(x)),
        spec_u32_to_le_bytes(x).len() == 4,
        u32_at(final(dst)@, o as int) == x,
{
    proof { lemma_auto_spec_u32_to_from_le_bytes(); }
    let b = u32_to_le_bytes(x);
    write_bytes(dst, o, b.as_slice());
    proof { lemma_splice_facts(old(dst)@, o as int, b@); }
}

/// Stores `x` little-endian at `o`.
pub fn write_u64(dst: &mut Vec<u8>, o: usize, x: u64)
    requires
        o + 8 <= old(dst)@.len(),
    ensures
        final(dst)@ == splice(old(dst)@, o as int, spec_u64_to_le_bytes(x)),
        spec_u64_to_le_bytes(x).len() == 8,
        u64_at(final(dst)@, o as int) == x,
{
    proof { lemma_auto_spec_u64_to_from_le_bytes(); }
    let b = u64_to_le_bytes(x);
    write_bytes(dst, o, b.as_slice());
    proof { lemma_splice_facts(old(dst)@, o as int, b@); }
}

} // verus!
