//! Length of the common prefix of two buffers, compared eight bytes at a
//! time, as the match finder uses it.
use vstd::prelude::*;
use vstd::std_specs::bits::u64_trailing_zeros;
use crate::bytes::{le64, read64le, spec_read64le};

verus! {

/// How many bytes past `limit` `lzma_memcmplen` may read from each buffer.
pub const LZMA_MEMCMPLEN_EXTRA: u32 = 8;

/// Byte `j` (0 = least significant) of `x`.
pub open spec fn byte_at(x: u64, j: u64) -> u64 {
    (x >> (8 * j)) & 0xff
}

proof fn lemma_le64_xor_bytes(
    a0: u8,
    a1: u8,
    a2: u8,
    a3: u8,
    a4: u8,
    a5: u8,
    a6: u8,
    a7: u8,
    b0: u8,
    b1: u8,
    b2: u8,
    b3: u8,
    b4: u8,
    b5: u8,
    b6: u8,
    b7: u8,
    x: u64,
)
    by (bit_vector)
    requires
        x == le64(a0, a1, a2, a3, a4, a5, a6, a7) ^ le64(b0, b1, b2, b3, b4, b5, b6, b7),
    ensures
        ((x >> 0u64) & 0xff == 0) <==> a0 == b0,
        ((x >> 8u64) & 0xff == 0) <==> a1 == b1,
        ((x >> 16u64) & 0xff == 0) <==> a2 == b2,
        ((x >> 24u64) & 0xff == 0) <==> a3 == b3,
        ((x >> 32u64) & 0xff == 0) <==> a4 == b4,
        ((x >> 40u64) & 0xff == 0) <==> a5 == b5,
        ((x >> 48u64) & 0xff == 0) <==> a6 == b6,
        ((x >> 56u64) & 0xff == 0) <==> a7 == b7,
{
}

/// Byte `j` of the xor of two loaded words is zero exactly where the
/// buffers agree.
proof fn lemma_xor_word_bytes(s1: Seq<u8>, s2: Seq<u8>, pos: int)
    requires
        0 <= pos,
        pos + 8 <= s1.len(),
        pos + 8 <= s2.len(),
    ensures
        forall|j: u64|
            j < 8 ==> (#[trigger] byte_at(spec_read64le(s1, pos) ^ spec_read64le(s2, pos), j) == 0
                <==> s1[pos + j] == s2[pos + j]),
{
    let x = spec_read64le(s1, pos) ^ spec_read64le(s2, pos);
    lemma_le64_xor_bytes(
        s1[pos],
        s1[pos + 1],
        s1[pos + 2],
        s1[pos + 3],
        s1[pos + 4],
        s1[pos + 5],
        s1[pos + 6],
        s1[pos + 7],
        s2[pos],
        s2[pos + 1],
        s2[pos + 2],
        s2[pos + 3],
        s2[pos + 4],
        s2[pos + 5],
        s2[pos + 6],
        s2[pos + 7],
        x,
    );
    assert forall|j: u64| j < 8 implies (#[trigger] byte_at(x, j) == 0 <==> s1[pos + j] == s2[pos
        + j]) by {
        if j == 0 {
        } else if j == 1 {
        } else if j == 2 {
        } else if j == 3 {
        } else if j == 4 {
        } else if j == 5 {
        } else if j == 6 {
        } else {
        }
    }
}

proof fn lemma_low_bytes_clear(x: u64, t: u64)
    by (bit_vector)
    requires
        t < 64,
        x << ((64 - t) as u64) == 0,
        (x >> t) & 1 == 1,
    ensures
        (x >> (8 * (t / 8))) & 0xff != 0,
        0 < t / 8 ==> (x >> 0u64) & 0xff == 0,
        1 < t / 8 ==> (x >> 8u64) & 0xff == 0,
        2 < t / 8 ==> (x >> 16u64) & 0xff == 0,
        3 < t / 8 ==> (x >> 24u64) & 0xff == 0,
        4 < t / 8 ==> (x >> 32u64) & 0xff == 0,
        5 < t / 8 ==> (x >> 40u64) & 0xff == 0,
        6 < t / 8 ==> (x >> 48u64) & 0xff == 0,
{
}

/// The lowest nonzero byte of a nonzero word is byte `trailing_zeros / 8`.
proof fn lemma_first_nonzero_byte(x: u64)
    requires
        x != 0,
    ensures
        u64_trailing_zeros(x) < 64,
        byte_at(x, (u64_trailing_zeros(x) / 8) as u64) != 0,
        forall|j: u64| j < u64_trailing_zeros(x) / 8 ==> #[trigger] byte_at(x, j) == 0,
{
    vstd::std_specs::bits::axiom_u64_trailing_zeros(x);
    let t = u64_trailing_zeros(x) as u64;
    lemma_low_bytes_clear(x, t);
    assert forall|j: u64| j < u64_trailing_zeros(x) / 8 implies #[trigger] byte_at(x, j) == 0 by {
        if j == 0 {
        } else if j == 1 {
        } else if j == 2 {
        } else if j == 3 {
        } else if j == 4 {
        } else if j == 5 {
        } else {
        }
    }
}

fn widen(x: u32) -> (r: usize)
    ensures
        r == x,
{
    x as usize
}

fn narrow(x: usize) -> (r: u32)
    requires
        x <= u32::MAX,
    ensures
        r == x,
{
    x as u32
}

/// The first position in `[start, limit)` where the buffers differ, or
/// `limit`; reads up to eight bytes past `limit`.
fn equal_prefix_end(buf1: &[u8], buf2: &[u8], start: usize, limit: usize) -> (r: usize)
    requires
        start <= limit,
        limit <= u32::MAX / 2,
        limit + 8 <= buf1@.len(),
        limit + 8 <= buf2@.len(),
    ensures
        start <= r <= limit,
        forall|i: int| start <= i < r ==> buf1@[i] == buf2@[i],
        r < limit ==> buf1@[r as int] != buf2@[r as int],
{
    let mut len = start;
    while len < limit
        invariant
            start <= len,
            len < limit + 8,
            limit <= u32::MAX / 2,
            limit + 8 <= buf1@.len(),
            limit + 8 <= buf2@.len(),
            forall|i: int| start <= i < len ==> buf1@[i] == buf2@[i],
        decreases limit + 8 - len,
    {
        let w1 = read64le(buf1, len);
        let w2 = read64le(buf2, len);
        let x: u64 = w1 ^ w2;
        proof {
            lemma_xor_word_bytes(buf1@, buf2@, len as int);
        }
        if x != 0 {
            let t: u32 = x.trailing_zeros();
            proof {
                lemma_first_nonzero_byte(x);
                assert forall|i: int| len <= i < len + t / 8 implies buf1@[i] == buf2@[i] by {
                    let j = (i - len) as u64;
                    assert(byte_at(x, j) == 0);
                }
                let j = (t / 8) as u64;
                assert(byte_at(x, j) != 0);
                assert(buf1@[len + j] != buf2@[len + j]);
            }
            let end: usize = len + (t / 8) as usize;
            if end < limit {
                return end;
            } else {
                return limit;
            }
        }
        proof {
            assert forall|i: int| len <= i < len + 8 implies buf1@[i] == buf2@[i] by {
                let j = (i - len) as u64;
                assert(byte_at(x, j) == 0) by (bit_vector)
                    requires
                        x == 0,
                ;
            }
        }
        len += 8;
    }
    limit
}

/// Returns how many bytes of `buf1` and `buf2` are equal, starting from
/// position `len` (the bytes before it are taken to match already) and
/// comparing up to position `limit`: the first position in `[len, limit)`
/// where they differ, or `limit`. Up to `LZMA_MEMCMPLEN_EXTRA` bytes past
/// `limit` are read, so both buffers must extend that far.
pub fn lzma_memcmplen(buf1: &[u8], buf2: &[u8], len: u32, limit: u32) -> (r: u32)
    requires
        len <= limit,
        limit <= u32::MAX / 2,
        limit + LZMA_MEMCMPLEN_EXTRA <= buf1@.len(),
        limit + LZMA_MEMCMPLEN_EXTRA <= buf2@.len(),
    ensures
        len <= r <= limit,
        forall|i: int| len <= i < r ==> buf1@[i] == buf2@[i],
        forall|i: int| i == r && r < limit ==> buf1@[i] != buf2@[i],
{
    let end = equal_prefix_end(buf1, buf2, widen(len), widen(limit));
    narrow(end)
}

} // verus!
