//! CRC32 (IEEE 802.3) and CRC64 (ECMA-182), both in the reflected bit order
//! that the .xz format uses, computed with a byte-indexed lookup table.
use vstd::prelude::*;

verus! {

/// The reflected CRC32 polynomial.
pub const CRC32_POLY: u32 = 0xEDB8_8320;

/// The reflected CRC64 polynomial.
pub const CRC64_POLY: u64 = 0xC96C_5795_D787_0F42;

/// One bit of the CRC32 shift register.
pub open spec fn crc32_bit(c: u32) -> u32 {
    if c & 1 == 1 {
        (c >> 1) ^ 0xEDB8_8320u32
    } else {
        c >> 1
    }
}

/// Eight bits of the CRC32 shift register.
pub open spec fn crc32_bits8(c: u32) -> u32 {
    crc32_bit(crc32_bit(crc32_bit(crc32_bit(crc32_bit(crc32_bit(crc32_bit(crc32_bit(c))))))))
}

/// The CRC32 register after feeding one byte.
pub open spec fn crc32_byte(c: u32, b: u8) -> u32 {
    crc32_bits8(c ^ (b as u32))
}

/// The CRC32 register after feeding `data`, starting from register `c`.
pub open spec fn crc32_register(c: u32, data: Seq<u8>) -> u32
    decreases data.len(),
{
    if data.len() == 0 {
        c
    } else {
        crc32_byte(crc32_register(c, data.drop_last()), data.last())
    }
}

/// The CRC32 of `data`, continuing from the previous CRC value `crc`
/// (0 for a fresh computation).
pub open spec fn spec_crc32(data: Seq<u8>, crc: u32) -> u32 {
    !crc32_register(!crc, data)
}

/// One bit of the CRC64 shift register.
pub open spec fn crc64_bit(c: u64) -> u64 {
    if c & 1 == 1 {
        (c >> 1) ^ 0xC96C_5795_D787_0F42u64
    } else {
        c >> 1
    }
}

/// Eight bits of the CRC64 shift register.
pub open spec fn crc64_bits8(c: u64) -> u64 {
    crc64_bit(crc64_bit(crc64_bit(crc64_bit(crc64_bit(crc64_bit(crc64_bit(crc64_bit(c))))))))
}

/// The CRC64 register after feeding one byte.
pub open spec fn crc64_byte(c: u64, b: u8) -> u64 {
    crc64_bits8(c ^ (b as u64))
}

/// The CRC64 register after feeding `data`, starting from register `c`.
pub open spec fn crc64_register(c: u64, data: Seq<u8>) -> u64
    decreases data.len(),
{
    if data.len() == 0 {
        c
    } else {
        crc64_byte(crc64_register(c, data.drop_last()), data.last())
    }
}

/// The CRC64 of `data`, continuing from the previous CRC value `crc`
/// (0 for a fresh computation).
pub open spec fn spec_crc64(data: Seq<u8>, crc: u64) -> u64 {
    !crc64_register(!crc, data)
}

/// Only the low byte of the register decides what eight shifts add: the
/// high bits just move down.
proof fn lemma_crc32_bits8_split(x: u32)
    ensures
        crc32_bits8(x) == crc32_bits8(x & 0xff) ^ (x >> 8),
{
    assert(crc32_bits8(x) == crc32_bits8(x & 0xff) ^ (x >> 8)) by (bit_vector);
}

proof fn lemma_crc64_bits8_split(x: u64)
    ensures
        crc64_bits8(x) == crc64_bits8(x & 0xff) ^ (x >> 8),
{
    assert(crc64_bits8(x) == crc64_bits8(x & 0xff) ^ (x >> 8)) by (bit_vector);
}

fn crc32_shift(c: u32) -> (r: u32)
    ensures
        r == crc32_bit(c),
{
    if c & 1 == 1 {
        (c >> 1) ^ CRC32_POLY
    } else {
        c >> 1
    }
}

fn crc64_shift(c: u64) -> (r: u64)
    ensures
        r == crc64_bit(c),
{
    if c & 1 == 1 {
        (c >> 1) ^ CRC64_POLY
    } else {
        c >> 1
    }
}

/// The 256-entry CRC32 lookup table: entry `i` is the register after eight
/// shifts of `i`.
pub fn crc32_table() -> (t: Vec<u32>)
    ensures
        t@.len() == 256,
        forall|i: int| 0 <= i < 256 ==> #[trigger] t@[i] == crc32_bits8(i as u32),
{
    let mut t: Vec<u32> = Vec::new();
    let mut i: u32 = 0;
    while i < 256
        invariant
            i <= 256,
            t@.len() == i,
            forall|j: int| 0 <= j < i ==> #[trigger] t@[j] == crc32_bits8(j as u32),
        decreases 256 - i,
    {
        let mut c: u32 = i;
        let mut k: u32 = 0;
        while k < 8
            invariant
                k <= 8,
                k == 0 ==> c == i,
                k == 1 ==> c == crc32_bit(i),
                k == 2 ==> c == crc32_bit(crc32_bit(i)),
                k == 3 ==> c == crc32_bit(crc32_bit(crc32_bit(i))),
                k == 4 ==> c == crc32_bit(crc32_bit(crc32_bit(crc32_bit(i)))),
                k == 5 ==> c == crc32_bit(crc32_bit(crc32_bit(crc32_bit(crc32_bit(i))))),
                k == 6 ==> c == crc32_bit(crc32_bit(crc32_bit(crc32_bit(crc32_bit(crc32_bit(i)))))),
                k == 7 ==> c == crc32_bit(
                    crc32_bit(crc32_bit(crc32_bit(crc32_bit(crc32_bit(crc32_bit(i)))))),
                ),
                k == 8 ==> c == crc32_bits8(i),
            decreases 8 - k,
        {
            c = crc32_shift(c);
            k += 1;
        }
        t.push(c);
        i += 1;
    }
    t
}

/// The 256-entry CRC64 lookup table: entry `i` is the register after eight
/// shifts of `i`.
pub fn crc64_table() -> (t: Vec<u64>)
    ensures
        t@.len() == 256,
        forall|i: int| 0 <= i < 256 ==> #[trigger] t@[i] == crc64_bits8(i as u64),
{
    let mut t: Vec<u64> = Vec::new();
    let mut i: u64 = 0;
    while i < 256
        invariant
            i <= 256,
            t@.len() == i,
            forall|j: int| 0 <= j < i ==> #[trigger] t@[j] == crc64_bits8(j as u64),
        decreases 256 - i,
    {
        let mut c: u64 = i;
        let mut k: u32 = 0;
        while k < 8
            invariant
                k <= 8,
                k == 0 ==> c == i,
                k == 1 ==> c == crc64_bit(i),
                k == 2 ==> c == crc64_bit(crc64_bit(i)),
                k == 3 ==> c == crc64_bit(crc64_bit(crc64_bit(i))),
                k == 4 ==> c == crc64_bit(crc64_bit(crc64_bit(crc64_bit(i)))),
                k == 5 ==> c == crc64_bit(crc64_bit(crc64_bit(crc64_bit(crc64_bit(i))))),
                k == 6 ==> c == crc64_bit(crc64_bit(crc64_bit(crc64_bit(crc64_bit(crc64_bit(i)))))),
                k == 7 ==> c == crc64_bit(
                    crc64_bit(crc64_bit(crc64_bit(crc64_bit(crc64_bit(crc64_bit(i)))))),
                ),
                k == 8 ==> c == crc64_bits8(i),
            decreases 8 - k,
        {
            c = crc64_shift(c);
            k += 1;
        }
        t.push(c);
        i += 1;
    }
    t
}

/// Updates a CRC32 with the bytes of `buf`: `crc` is the CRC of the data
/// before `buf` (0 when `buf` is the first part), and the result is the CRC
/// of that data followed by `buf`.
pub fn crc32_arch_optimized(buf: &[u8], crc: u32) -> (r: u32)
    ensures
        r == spec_crc32(buf@, crc),
{
    if buf.len() == 0 {
        assert(!(!crc) == crc) by (bit_vector);
        return crc;
    }
    let table = crc32_table();
    let mut c: u32 = !crc;
    let mut i: usize = 0;
    while i < buf.len()
        invariant
            i <= buf@.len(),
            table@.len() == 256,
            forall|j: int| 0 <= j < 256 ==> #[trigger] table@[j] == crc32_bits8(j as u32),
            c == crc32_register(!crc, buf@.take(i as int)),
        decreases buf@.len() - i,
    {
        let b: u8 = buf[i];
        let x: u32 = c ^ (b as u32);
        let idx: u32 = x & 0xff;
        assert(idx < 256) by (bit_vector)
            requires
                idx == x & 0xff,
        ;
        proof {
            lemma_crc32_bits8_split(x);
            assert(buf@.take(i + 1).drop_last() == buf@.take(i as int));
        }
        c = table[idx as usize] ^ (x >> 8);
        i += 1;
    }
    assert(buf@.take(buf@.len() as int) == buf@);
    !c
}

/// Updates a CRC64 with the bytes of `buf`: `crc` is the CRC of the data
/// before `buf` (0 when `buf` is the first part), and the result is the CRC
/// of that data followed by `buf`.
pub fn crc64_arch_optimized(buf: &[u8], crc: u64) -> (r: u64)
    ensures
        r == spec_crc64(buf@, crc),
{
    if buf.len() == 0 {
        assert(!(!crc) == crc) by (bit_vector);
        return crc;
    }
    let table = crc64_table();
    let mut c: u64 = !crc;
    let mut i: usize = 0;
    while i < buf.len()
        invariant
            i <= buf@.len(),
            table@.len() == 256,
            forall|j: int| 0 <= j < 256 ==> #[trigger] table@[j] == crc64_bits8(j as u64),
            c == crc64_register(!crc, buf@.take(i as int)),
        decreases buf@.len() - i,
    {
        let b: u8 = buf[i];
        let x: u64 = c ^ (b as u64);
        let idx: u64 = x & 0xff;
        assert(idx < 256) by (bit_vector)
            requires
                idx == x & 0xff,
        ;
        proof {
            lemma_crc64_bits8_split(x);
            assert(buf@.take(i + 1).drop_last() == buf@.take(i as int));
        }
        c = table[idx as usize] ^ (x >> 8);
        i += 1;
    }
    assert(buf@.take(buf@.len() as int) == buf@);
    !c
}

proof fn lemma_crc32_register_append(c: u32, a: Seq<u8>, b: Seq<u8>)
    ensures
        crc32_register(c, a + b) == crc32_register(crc32_register(c, a), b),
    decreases b.len(),
{
    if b.len() == 0 {
        assert(a + b == a);
    } else {
        lemma_crc32_register_append(c, a, b.drop_last());
        assert((a + b).drop_last() == a + b.drop_last());
        assert((a + b).last() == b.last());
    }
}

proof fn lemma_crc64_register_append(c: u64, a: Seq<u8>, b: Seq<u8>)
    ensures
        crc64_register(c, a + b) == crc64_register(crc64_register(c, a), b),
    decreases b.len(),
{
    if b.len() == 0 {
        assert(a + b == a);
    } else {
        lemma_crc64_register_append(c, a, b.drop_last());
        assert((a + b).drop_last() == a + b.drop_last());
        assert((a + b).last() == b.last());
    }
}

/// A CRC32 can be computed piecewise: the CRC of `a` followed by `b` is the
/// CRC of `b` continued from the CRC of `a`.
pub proof fn lemma_crc32_chaining(a: Seq<u8>, b: Seq<u8>, crc: u32)
    ensures
        spec_crc32(a + b, crc) == spec_crc32(b, spec_crc32(a, crc)),
{
    lemma_crc32_register_append(!crc, a, b);
    let m = crc32_register(!crc, a);
    assert(!(!m) == m) by (bit_vector);
}

/// A CRC64 can be computed piecewise: the CRC of `a` followed by `b` is the
/// CRC of `b` continued from the CRC of `a`.
pub proof fn lemma_crc64_chaining(a: Seq<u8>, b: Seq<u8>, crc: u64)
    ensures
        spec_crc64(a + b, crc) == spec_crc64(b, spec_crc64(a, crc)),
{
    lemma_crc64_register_append(!crc, a, b);
    let m = crc64_register(!crc, a);
    assert(!(!m) == m) by (bit_vector);
}

/// Feeding no bytes leaves a CRC32 unchanged.
pub proof fn lemma_crc32_empty(crc: u32)
    ensures
        spec_crc32(Seq::<u8>::empty(), crc) == crc,
{
    assert(!(!crc) == crc) by (bit_vector);
}

/// Feeding no bytes leaves a CRC64 unchanged.
pub proof fn lemma_crc64_empty(crc: u64)
    ensures
        spec_crc64(Seq::<u8>::empty(), crc) == crc,
{
    assert(!(!crc) == crc) by (bit_vector);
}

} // verus!
