//! The CRC32 and CRC64 functions compared with a bit-at-a-time reference
//! over lengths, offsets and initial values, plus the standard check values.

use lib::crc::{crc32_arch_optimized, crc32_table, crc64_arch_optimized, crc64_table};

fn pseudo_random(seed: u64, len: usize) -> Vec<u8> {
    let mut state = seed;
    (0..len)
        .map(|_| {
            state = state.wrapping_mul(6364136223846793005).wrapping_add(1);
            (state >> 56) as u8
        })
        .collect()
}

/// Bit-at-a-time CRC32 (reflected polynomial 0xEDB88320).
fn lzma_crc32_generic(buf: &[u8], crc: u32) -> u32 {
    let mut c = !crc;
    for &b in buf {
        c ^= b as u32;
        for _ in 0..8 {
            c = if c & 1 != 0 { (c >> 1) ^ 0xEDB8_8320 } else { c >> 1 };
        }
    }
    !c
}

/// Bit-at-a-time CRC64 (reflected ECMA-182 polynomial).
fn lzma_crc64_generic(buf: &[u8], crc: u64) -> u64 {
    let mut c = !crc;
    for &b in buf {
        c ^= b as u64;
        for _ in 0..8 {
            c = if c & 1 != 0 { (c >> 1) ^ 0xC96C_5795_D787_0F42 } else { c >> 1 };
        }
    }
    !c
}

const LENGTHS: &[usize] = &[
    0, 1, 2, 3, 4, 5, 6, 7, 8, 9, 10, 11, 12, 13, 14, 15, 16, 17, 18, 19, 20, 21, 22, 23, 24, 25,
    26, 27, 28, 29, 30, 31, 32, 47, 48, 63, 64, 65, 96, 127, 128, 129, 255, 256, 1000, 4096,
];

#[test]
fn clmul_crc32_matches_generic() {
    let data = pseudo_random(32, 8192);
    for &len in LENGTHS {
        for offset in 0..8 {
            let buf = &data[offset..offset + len];
            for init in [0u32, 0xFFFF_FFFF, 0x1234_5678] {
                let expected = lzma_crc32_generic(buf, init);
                let got = crc32_arch_optimized(buf, init);
                assert_eq!(got, expected, "len={len} offset={offset} init={init:#x}");
            }
        }
    }
    // Chained updates across an odd split.
    let mid = lzma_crc32_generic(&data[..1234], 0);
    let expected = lzma_crc32_generic(&data[1234..4000], mid);
    let got = crc32_arch_optimized(&data[1234..4000], mid);
    assert_eq!(got, expected);
}

#[test]
fn clmul_crc64_matches_generic() {
    let data = pseudo_random(64, 8192);
    for &len in LENGTHS {
        for offset in 0..8 {
            let buf = &data[offset..offset + len];
            for init in [0u64, u64::MAX, 0x0123_4567_89AB_CDEF] {
                let expected = lzma_crc64_generic(buf, init);
                let got = crc64_arch_optimized(buf, init);
                assert_eq!(got, expected, "len={len} offset={offset} init={init:#x}");
            }
        }
    }
    let mid = lzma_crc64_generic(&data[..1234], 0);
    let expected = lzma_crc64_generic(&data[1234..4000], mid);
    let got = crc64_arch_optimized(&data[1234..4000], mid);
    assert_eq!(got, expected);
}

#[test]
fn crc_check_values() {
    assert_eq!(crc32_arch_optimized(b"123456789", 0), 0xCBF4_3926);
    assert_eq!(crc64_arch_optimized(b"123456789", 0), 0x995D_C9BB_DF19_39FA);
    assert_eq!(crc32_arch_optimized(b"", 0x1234_5678), 0x1234_5678);
    assert_eq!(crc64_arch_optimized(b"", 7), 7);
}

#[test]
fn crc_chaining_splits_anywhere() {
    let data = pseudo_random(5, 300);
    let whole32 = crc32_arch_optimized(&data, 0);
    let whole64 = crc64_arch_optimized(&data, 0);
    for split in [0usize, 1, 7, 8, 150, 299, 300] {
        let a32 = crc32_arch_optimized(&data[..split], 0);
        assert_eq!(crc32_arch_optimized(&data[split..], a32), whole32);
        let a64 = crc64_arch_optimized(&data[..split], 0);
        assert_eq!(crc64_arch_optimized(&data[split..], a64), whole64);
    }
}

#[test]
fn crc_tables_known_entries() {
    let t32 = crc32_table();
    assert_eq!(t32.len(), 256);
    assert_eq!(t32[0], 0);
    assert_eq!(t32[1], 0x7707_3096);
    assert_eq!(t32[255], 0x2D02_EF8D);
    let t64 = crc64_table();
    assert_eq!(t64[0], 0);
    assert_eq!(t64[1], 0xB32E_4CBE_03A7_5F6F);
}
