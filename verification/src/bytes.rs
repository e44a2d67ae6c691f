//! Little-endian integer loads and stores on byte buffers.
use vstd::prelude::*;

verus! {

/// Two bytes read as a little-endian integer.
pub open spec fn le16(b0: u8, b1: u8) -> u16 {
    (b0 as u16) | ((b1 as u16) << 8)
}

/// Four bytes read as a little-endian integer.
pub open spec fn le32(b0: u8, b1: u8, b2: u8, b3: u8) -> u32 {
    (b0 as u32) | ((b1 as u32) << 8) | ((b2 as u32) << 16) | ((b3 as u32) << 24)
}

/// Eight bytes read as a little-endian integer.
pub open spec fn le64(b0: u8, b1: u8, b2: u8, b3: u8, b4: u8, b5: u8, b6: u8, b7: u8) -> u64 {
    (b0 as u64) | ((b1 as u64) << 8) | ((b2 as u64) << 16) | ((b3 as u64) << 24) | ((b4 as u64)
        << 32) | ((b5 as u64) << 40) | ((b6 as u64) << 48) | ((b7 as u64) << 56)
}

/// The little-endian 16-bit value stored at `pos` of `s`.
pub open spec fn spec_read16le(s: Seq<u8>, pos: int) -> u16 {
    le16(s[pos], s[pos + 1])
}

/// The little-endian 32-bit value stored at `pos` of `s`.
pub open spec fn spec_read32le(s: Seq<u8>, pos: int) -> u32 {
    le32(s[pos], s[pos + 1], s[pos + 2], s[pos + 3])
}

/// The little-endian 64-bit value stored at `pos` of `s`.
pub open spec fn spec_read64le(s: Seq<u8>, pos: int) -> u64 {
    le64(s[pos], s[pos + 1], s[pos + 2], s[pos + 3], s[pos + 4], s[pos + 5], s[pos + 6], s[pos + 7])
}

/// The four bytes of `num`, least significant first.
pub open spec fn le32_bytes(num: u32) -> Seq<u8> {
    seq![num as u8, (num >> 8) as u8, (num >> 16) as u8, (num >> 24) as u8]
}

/// Reads a little-endian 16-bit integer at `pos`.
pub fn read16le(buf: &[u8], pos: usize) -> (r: u16)
    requires
        pos + 2 <= buf@.len(),
    ensures
        r == spec_read16le(buf@, pos as int),
{
    (buf[pos] as u16) | ((buf[pos + 1] as u16) << 8)
}

/// Reads a little-endian 32-bit integer at `pos`.
pub fn read32le(buf: &[u8], pos: usize) -> (r: u32)
    requires
        pos + 4 <= buf@.len(),
    ensures
        r == spec_read32le(buf@, pos as int),
{
    (buf[pos] as u32) | ((buf[pos + 1] as u32) << 8) | ((buf[pos + 2] as u32) << 16) | ((buf[pos
        + 3] as u32) << 24)
}

/// Reads a little-endian 64-bit integer at `pos`.
pub fn read64le(buf: &[u8], pos: usize) -> (r: u64)
    requires
        pos + 8 <= buf@.len(),
    ensures
        r == spec_read64le(buf@, pos as int),
{
    (buf[pos] as u64) | ((buf[pos + 1] as u64) << 8) | ((buf[pos + 2] as u64) << 16) | ((buf[pos
        + 3] as u64) << 24) | ((buf[pos + 4] as u64) << 32) | ((buf[pos + 5] as u64) << 40) | ((
    buf[pos + 6] as u64) << 48) | ((buf[pos + 7] as u64) << 56)
}

/// Stores `num` as four little-endian bytes at `pos`, leaving every other
/// byte of `buf` as it was.
pub fn write32le(buf: &mut [u8], pos: usize, num: u32)
    requires
        pos + 4 <= old(buf)@.len(),
    ensures
        final(buf)@ == old(buf)@.take(pos as int) + le32_bytes(num) + old(buf)@.skip(pos + 4),
{
    buf[pos] = num as u8;
    buf[pos + 1] = (num >> 8) as u8;
    buf[pos + 2] = (num >> 16) as u8;
    buf[pos + 3] = (num >> 24) as u8;
    assert(buf@ == old(buf)@.take(pos as int) + le32_bytes(num) + old(buf)@.skip(pos + 4));
}

/// Reading back a stored 32-bit value gives the value.
pub proof fn lemma_le32_roundtrip(num: u32)
    ensures
        le32(le32_bytes(num)[0], le32_bytes(num)[1], le32_bytes(num)[2], le32_bytes(num)[3])
            == num,
{
    let b0 = num as u8;
    let b1 = (num >> 8) as u8;
    let b2 = (num >> 16) as u8;
    let b3 = (num >> 24) as u8;
    assert(le32(b0, b1, b2, b3) == num) by (bit_vector)
        requires
            b0 == num as u8,
            b1 == (num >> 8) as u8,
            b2 == (num >> 16) as u8,
            b3 == (num >> 24) as u8,
    ;
}

/// Reading back a 32-bit value stored with `write32le` at the same position
/// gives the value.
pub proof fn lemma_write32le_read32le(buf: Seq<u8>, pos: int, num: u32)
    requires
        0 <= pos,
        pos + 4 <= buf.len(),
    ensures
        spec_read32le(buf.take(pos) + le32_bytes(num) + buf.skip(pos + 4), pos) == num,
{
    let w = buf.take(pos) + le32_bytes(num) + buf.skip(pos + 4);
    assert(w[pos] == le32_bytes(num)[0]);
    assert(w[pos + 1] == le32_bytes(num)[1]);
    assert(w[pos + 2] == le32_bytes(num)[2]);
    assert(w[pos + 3] == le32_bytes(num)[3]);
    lemma_le32_roundtrip(num);
}

/// Copies as many bytes as both sides allow from `input[*in_pos..in_size]`
/// to `out[*out_pos..out_size]`, advances both positions by that count and
/// returns it.
pub fn lzma_bufcpy(
    input: &[u8],
    in_pos: &mut usize,
    in_size: usize,
    out: &mut [u8],
    out_pos: &mut usize,
    out_size: usize,
) -> (r: usize)
    requires
        *old(in_pos) <= in_size <= input@.len(),
        *old(out_pos) <= out_size <= old(out)@.len(),
    ensures
        r == (if in_size - *old(in_pos) < out_size - *old(out_pos) {
            in_size - *old(in_pos)
        } else {
            out_size - *old(out_pos)
        }),
        *final(in_pos) == *old(in_pos) + r,
        *final(out_pos) == *old(out_pos) + r,
        final(out)@ == old(out)@.take(*old(out_pos) as int) + input@.subrange(
            *old(in_pos) as int,
            *old(in_pos) + r,
        ) + old(out)@.skip(*old(out_pos) + r),
{
    let in_avail = in_size - *in_pos;
    let out_avail = out_size - *out_pos;
    let copy_size = if in_avail < out_avail {
        in_avail
    } else {
        out_avail
    };
    let ghost out0 = out@;
    let ghost ip = *in_pos;
    let ghost op = *out_pos;
    let mut k: usize = 0;
    while k < copy_size
        invariant
            k <= copy_size,
            copy_size <= in_size - ip,
            copy_size <= out_size - op,
            in_size <= input@.len(),
            out_size <= out0.len(),
            *in_pos == ip,
            *out_pos == op,
            out@.len() == out0.len(),
            forall|j: int| 0 <= j < op ==> out@[j] == out0[j],
            forall|j: int| op <= j < op + k ==> out@[j] == input@[ip + (j - op)],
            forall|j: int| op + k <= j < out0.len() ==> out@[j] == out0[j],
        decreases copy_size - k,
    {
        out[*out_pos + k] = input[*in_pos + k];
        k += 1;
    }
    *in_pos = *in_pos + copy_size;
    *out_pos = *out_pos + copy_size;
    assert(out@ == out0.take(op as int) + input@.subrange(ip as int, ip + copy_size) + out0.skip(
        op + copy_size,
    ));
    copy_size
}

} // verus!
