//! LZMA1/LZMA2 encoder options: the lc/lp/pb properties byte, the
//! compression presets, and the filter-chain entries that carry options.
use vstd::prelude::*;

verus! {

/// Return codes of the coder functions.
pub type lzma_ret = u32;

/// Variable-length integer as used for filter IDs.
pub type lzma_vli = u64;

pub const LZMA_OK: lzma_ret = 0;
pub const LZMA_STREAM_END: lzma_ret = 1;
pub const LZMA_MEM_ERROR: lzma_ret = 5;
pub const LZMA_OPTIONS_ERROR: lzma_ret = 8;
pub const LZMA_PROG_ERROR: lzma_ret = 11;

/// Value that marks an unknown size or the end of a filter chain.
pub const LZMA_VLI_UNKNOWN: lzma_vli = 0xFFFF_FFFF_FFFF_FFFF;

pub const LZMA_FILTER_LZMA1: lzma_vli = 0x4000_0000_0000_0001;
pub const LZMA_FILTER_LZMA1EXT: lzma_vli = 0x4000_0000_0000_0002;
pub const LZMA_FILTER_LZMA2: lzma_vli = 0x21;
pub const LZMA_FILTER_DELTA: lzma_vli = 0x03;
pub const LZMA_FILTER_X86: lzma_vli = 0x04;
pub const LZMA_FILTER_POWERPC: lzma_vli = 0x05;
pub const LZMA_FILTER_IA64: lzma_vli = 0x06;
pub const LZMA_FILTER_ARM: lzma_vli = 0x07;
pub const LZMA_FILTER_ARMTHUMB: lzma_vli = 0x08;
pub const LZMA_FILTER_SPARC: lzma_vli = 0x09;
pub const LZMA_FILTER_ARM64: lzma_vli = 0x0A;
pub const LZMA_FILTER_RISCV: lzma_vli = 0x0B;

/// Smallest dictionary size the LZMA encoders accept.
pub const LZMA_DICT_SIZE_MIN: u32 = 4096;

/// Largest lc, largest lp, and largest lc + lp.
pub const LZMA_LCLP_MAX: u32 = 4;

/// Largest pb.
pub const LZMA_PB_MAX: u32 = 4;

pub const LZMA_LC_DEFAULT: u32 = 3;
pub const LZMA_LP_DEFAULT: u32 = 0;
pub const LZMA_PB_DEFAULT: u32 = 2;

/// Largest valid lc/lp/pb properties byte: `(4 * 5 + 4) * 9 + 8`.
pub const LZMA_LCLPPB_MAX_BYTE: u8 = 224;

pub const LZMA_MODE_FAST: u32 = 1;
pub const LZMA_MODE_NORMAL: u32 = 2;

pub const LZMA_MF_HC3: u32 = 0x03;
pub const LZMA_MF_HC4: u32 = 0x04;
pub const LZMA_MF_BT2: u32 = 0x12;
pub const LZMA_MF_BT3: u32 = 0x13;
pub const LZMA_MF_BT4: u32 = 0x14;

/// Bits of a preset value that hold the level.
pub const LZMA_PRESET_LEVEL_MASK: u32 = 0x1F;

/// Preset flag that selects the slower "extreme" variant of a level.
pub const LZMA_PRESET_EXTREME: u32 = 0x8000_0000;

/// Options of the LZMA1 and LZMA2 encoders and decoders. The preset
/// dictionary itself stays with the caller; only its size is recorded here.
#[derive(Clone, Copy, Debug, PartialEq, Eq)]
pub struct lzma_options_lzma {
    pub dict_size: u32,
    pub preset_dict_size: u32,
    pub lc: u32,
    pub lp: u32,
    pub pb: u32,
    pub mode: u32,
    pub nice_len: u32,
    pub mf: u32,
    pub depth: u32,
    pub ext_flags: u32,
    pub ext_size_low: u32,
    pub ext_size_high: u32,
    pub reserved_int4: u32,
    pub reserved_int5: u32,
    pub reserved_int6: u32,
    pub reserved_int7: u32,
    pub reserved_int8: u32,
    pub reserved_enum1: u32,
    pub reserved_enum2: u32,
    pub reserved_enum3: u32,
    pub reserved_enum4: u32,
}

impl lzma_options_lzma {
    /// Options with every field zero.
    pub fn zeroed() -> (r: lzma_options_lzma)
        ensures
            r.dict_size == 0 && r.preset_dict_size == 0,
            r.lc == 0 && r.lp == 0 && r.pb == 0,
            r.mode == 0 && r.nice_len == 0 && r.mf == 0 && r.depth == 0,
            r.ext_flags == 0 && r.ext_size_low == 0 && r.ext_size_high == 0,
            r.reserved_int4 == 0 && r.reserved_int5 == 0 && r.reserved_int6 == 0,
            r.reserved_int7 == 0 && r.reserved_int8 == 0,
            r.reserved_enum1 == 0 && r.reserved_enum2 == 0,
            r.reserved_enum3 == 0 && r.reserved_enum4 == 0,
    {
        lzma_options_lzma {
            dict_size: 0,
            preset_dict_size: 0,
            lc: 0,
            lp: 0,
            pb: 0,
            mode: 0,
            nice_len: 0,
            mf: 0,
            depth: 0,
            ext_flags: 0,
            ext_size_low: 0,
            ext_size_high: 0,
            reserved_int4: 0,
            reserved_int5: 0,
            reserved_int6: 0,
            reserved_int7: 0,
            reserved_int8: 0,
            reserved_enum1: 0,
            reserved_enum2: 0,
            reserved_enum3: 0,
            reserved_enum4: 0,
        }
    }
}

/// lc, lp and pb are within the limits of the LZMA format.
pub open spec fn lclppb_valid(lc: u32, lp: u32, pb: u32) -> bool {
    &&& lc <= LZMA_LCLP_MAX
    &&& lp <= LZMA_LCLP_MAX
    &&& lc + lp <= LZMA_LCLP_MAX
    &&& pb <= LZMA_PB_MAX
}

/// The properties byte that stores lc, lp and pb.
pub open spec fn lclppb_byte(lc: u32, lp: u32, pb: u32) -> int {
    (pb * 5 + lp) * 9 + lc
}

/// Encodes lc, lp and pb of `options` into the LZMA properties byte, or
/// returns `None` when they are out of range.
pub fn lzma_lzma_lclppb_encode(options: &lzma_options_lzma) -> (r: Option<u8>)
    ensures
        r is None <==> !lclppb_valid(options.lc, options.lp, options.pb),
        r matches Some(b) ==> b == lclppb_byte(options.lc, options.lp, options.pb) && b
            <= LZMA_LCLPPB_MAX_BYTE,
{
    if !(options.lc <= LZMA_LCLP_MAX && options.lp <= LZMA_LCLP_MAX && options.lc + options.lp
        <= LZMA_LCLP_MAX && options.pb <= LZMA_PB_MAX) {
        return None;
    }
    let byte: u32 = (options.pb * 5 + options.lp) * 9 + options.lc;
    Some(byte as u8)
}

/// The lc, lp and pb that a properties byte stores, when the byte is in
/// range (lc + lp may still exceed its limit).
pub open spec fn lclppb_fields(byte: u8) -> (u32, u32, u32) {
    let pb = byte / 45;
    let rest = byte - pb * 45;
    let lp = rest / 9;
    let lc = rest - lp * 9;
    (lc as u32, lp as u32, pb as u32)
}

/// Decodes the LZMA properties byte into (lc, lp, pb); `None` when the
/// byte is out of range or lc + lp exceeds its limit.
pub fn lzma_lzma_lclppb_decode(byte: u8) -> (r: Option<(u32, u32, u32)>)
    ensures
        r is Some <==> byte <= LZMA_LCLPPB_MAX_BYTE && lclppb_fields(byte).0 + lclppb_fields(
            byte,
        ).1 <= LZMA_LCLP_MAX,
        r matches Some(f) ==> f == lclppb_fields(byte),
{
    if byte > LZMA_LCLPPB_MAX_BYTE {
        return None;
    }
    let b: u32 = byte as u32;
    let pb: u32 = b / 45;
    let rest: u32 = b - pb * 45;
    let lp: u32 = rest / 9;
    let lc: u32 = rest - lp * 9;
    if lc + lp > LZMA_LCLP_MAX {
        None
    } else {
        Some((lc, lp, pb))
    }
}

/// Decoding the properties byte of valid lc, lp and pb gives them back.
pub proof fn lemma_lclppb_decode_encode(lc: u32, lp: u32, pb: u32)
    requires
        lclppb_valid(lc, lp, pb),
    ensures
        0 <= lclppb_byte(lc, lp, pb) <= LZMA_LCLPPB_MAX_BYTE,
        lclppb_fields(lclppb_byte(lc, lp, pb) as u8) == (lc, lp, pb),
{
    let b = lclppb_byte(lc, lp, pb);
    assert(b == pb * 45 + lp * 9 + lc);
    assert((pb * 45 + lp * 9 + lc) / 45 == pb) by (nonlinear_arith)
        requires
            lp <= 4,
            lc <= 4,
            lc + lp <= 4,
    ;
    assert((lp * 9 + lc) / 9 == lp) by (nonlinear_arith)
        requires
            lc <= 4,
    ;
}

/// A properties byte that decodes is the encoding of what it decodes to.
pub proof fn lemma_lclppb_encode_decode(byte: u8)
    requires
        byte <= LZMA_LCLPPB_MAX_BYTE,
        lclppb_fields(byte).0 + lclppb_fields(byte).1 <= LZMA_LCLP_MAX,
    ensures
        lclppb_valid(lclppb_fields(byte).0, lclppb_fields(byte).1, lclppb_fields(byte).2),
        lclppb_byte(lclppb_fields(byte).0, lclppb_fields(byte).1, lclppb_fields(byte).2) == byte,
{
}

/// The dictionary size (as a power of two) of each preset level.
pub open spec fn preset_dict_pow2(level: u32) -> u32 {
    if level == 0 {
        18
    } else if level == 1 {
        20
    } else if level == 2 {
        21
    } else if level <= 4 {
        22
    } else if level <= 6 {
        23
    } else if level == 7 {
        24
    } else if level == 8 {
        25
    } else {
        26
    }
}

/// A preset is accepted when its level is at most 9 and its only flag, if
/// any, is `LZMA_PRESET_EXTREME`.
pub open spec fn preset_accepted(preset: u32) -> bool {
    preset & LZMA_PRESET_LEVEL_MASK <= 9 && preset & !LZMA_PRESET_LEVEL_MASK & !LZMA_PRESET_EXTREME
        == 0
}

/// The (mode, match finder, nice length, depth) of an accepted preset.
pub open spec fn preset_tuning(level: u32, extreme: bool) -> (u32, u32, u32, u32) {
    if extreme {
        if level == 3 || level == 5 {
            (LZMA_MODE_NORMAL, LZMA_MF_BT4, 192, 0)
        } else {
            (LZMA_MODE_NORMAL, LZMA_MF_BT4, 273, 512)
        }
    } else if level <= 3 {
        (
            LZMA_MODE_FAST,
            if level == 0 {
                LZMA_MF_HC3
            } else {
                LZMA_MF_HC4
            },
            if level <= 1 {
                128
            } else {
                273
            },
            if level == 0 {
                4
            } else if level == 1 {
                8
            } else if level == 2 {
                24
            } else {
                48
            },
        )
    } else {
        (
            LZMA_MODE_NORMAL,
            LZMA_MF_BT4,
            if level == 4 {
                16
            } else if level == 5 {
                32
            } else {
                64
            },
            0,
        )
    }
}

/// `o` holds the settings of preset `preset`, with every field the preset
/// does not set taken from `prev`.
pub open spec fn options_from_preset(prev: lzma_options_lzma, o: lzma_options_lzma, preset: u32) -> bool {
    let level = preset & LZMA_PRESET_LEVEL_MASK;
    let extreme = preset & LZMA_PRESET_EXTREME != 0;
    let t = preset_tuning(level, extreme);
    &&& o.preset_dict_size == 0
    &&& o.lc == LZMA_LC_DEFAULT
    &&& o.lp == LZMA_LP_DEFAULT
    &&& o.pb == LZMA_PB_DEFAULT
    &&& o.dict_size == 1u32 << preset_dict_pow2(level)
    &&& o.mode == t.0
    &&& o.mf == t.1
    &&& o.nice_len == t.2
    &&& o.depth == t.3
    &&& o.ext_flags == prev.ext_flags
    &&& o.ext_size_low == prev.ext_size_low
    &&& o.ext_size_high == prev.ext_size_high
    &&& o.reserved_int4 == prev.reserved_int4
    &&& o.reserved_int5 == prev.reserved_int5
    &&& o.reserved_int6 == prev.reserved_int6
    &&& o.reserved_int7 == prev.reserved_int7
    &&& o.reserved_int8 == prev.reserved_int8
    &&& o.reserved_enum1 == prev.reserved_enum1
    &&& o.reserved_enum2 == prev.reserved_enum2
    &&& o.reserved_enum3 == prev.reserved_enum3
    &&& o.reserved_enum4 == prev.reserved_enum4
}

/// The dictionary size of preset level `level`, in bytes.
proof fn lemma_preset_dict_bytes(level: u32)
    requires
        level <= 9,
    ensures
        (1u32 << preset_dict_pow2(level)) as int == (if level == 0 {
            262144int
        } else if level == 1 {
            1048576int
        } else if level == 2 {
            2097152int
        } else if level <= 4 {
            4194304int
        } else if level <= 6 {
            8388608int
        } else if level == 7 {
            16777216int
        } else if level == 8 {
            33554432int
        } else {
            67108864int
        }),
{
    assert(1u32 << 18u32 == 262144u32 && 1u32 << 20u32 == 1048576u32 && 1u32 << 21u32
        == 2097152u32 && 1u32 << 22u32 == 4194304u32 && 1u32 << 23u32 == 8388608u32 && 1u32
        << 24u32 == 16777216u32 && 1u32 << 25u32 == 33554432u32 && 1u32 << 26u32
        == 67108864u32) by (bit_vector);
}

/// How the preset dictionary sizes relate: level 0 has 256 KiB, each level
/// up to 3 and from 6 on doubles the one below (level 1 quadruples level 0),
/// levels 4 and 6 keep the size of levels 3 and 5, and level 9 has 64 MiB.
/// So the size never shrinks as the level rises, and the extreme flag does
/// not change it.
pub proof fn lemma_preset_dict_sizes(
    prev1: lzma_options_lzma,
    o1: lzma_options_lzma,
    p1: u32,
    prev2: lzma_options_lzma,
    o2: lzma_options_lzma,
    p2: u32,
)
    requires
        preset_accepted(p1),
        preset_accepted(p2),
        options_from_preset(prev1, o1, p1),
        options_from_preset(prev2, o2, p2),
    ensures
        ({
            let l1 = p1 & LZMA_PRESET_LEVEL_MASK;
            let l2 = p2 & LZMA_PRESET_LEVEL_MASK;
            &&& l1 == 0 ==> o1.dict_size == 256 * 1024
            &&& l1 == 9 ==> o1.dict_size == 64 * 1024 * 1024
            &&& l1 == l2 ==> o1.dict_size == o2.dict_size
            &&& l2 == l1 + 1 ==> o2.dict_size == (if l1 == 0 {
                4 * o1.dict_size
            } else if l1 == 3 || l1 == 5 {
                o1.dict_size as int
            } else {
                2 * o1.dict_size
            })
            &&& l1 <= l2 ==> o1.dict_size <= o2.dict_size
        }),
{
    let l1 = p1 & LZMA_PRESET_LEVEL_MASK;
    let l2 = p2 & LZMA_PRESET_LEVEL_MASK;
    lemma_preset_dict_bytes(l1);
    lemma_preset_dict_bytes(l2);
}

fn dict_pow2(level: u32) -> (r: u32)
    requires
        level <= 9,
    ensures
        r == preset_dict_pow2(level),
        18 <= r <= 26,
{
    match level {
        0 => 18,
        1 => 20,
        2 => 21,
        3 | 4 => 22,
        5 | 6 => 23,
        7 => 24,
        8 => 25,
        _ => 26,
    }
}

/// Sets `options` to the settings of compression preset `preset` (level
/// 0-9, optionally with `LZMA_PRESET_EXTREME`). Returns true, leaving
/// `options` as it was, when the preset is not supported.
pub fn lzma_lzma_preset(options: &mut lzma_options_lzma, preset: u32) -> (r: bool)
    ensures
        r == !preset_accepted(preset),
        r ==> *final(options) == *old(options),
        !r ==> options_from_preset(*old(options), *final(options), preset),
{
    let level: u32 = preset & LZMA_PRESET_LEVEL_MASK;
    let flags: u32 = preset & !LZMA_PRESET_LEVEL_MASK;
    let supported_flags: u32 = LZMA_PRESET_EXTREME;
    if level > 9 || (flags & !supported_flags) != 0 {
        return true;
    }
    options.preset_dict_size = 0;
    options.lc = LZMA_LC_DEFAULT;
    options.lp = LZMA_LP_DEFAULT;
    options.pb = LZMA_PB_DEFAULT;
    options.dict_size = 1u32 << dict_pow2(level);
    if level <= 3 {
        options.mode = LZMA_MODE_FAST;
        options.mf = if level == 0 {
            LZMA_MF_HC3
        } else {
            LZMA_MF_HC4
        };
        options.nice_len = if level <= 1 {
            128
        } else {
            273
        };
        options.depth = match level {
            0 => 4,
            1 => 8,
            2 => 24,
            _ => 48,
        };
    } else {
        options.mode = LZMA_MODE_NORMAL;
        options.mf = LZMA_MF_BT4;
        options.nice_len = if level == 4 {
            16
        } else if level == 5 {
            32
        } else {
            64
        };
        options.depth = 0;
    }
    if flags & LZMA_PRESET_EXTREME != 0 {
        options.mode = LZMA_MODE_NORMAL;
        options.mf = LZMA_MF_BT4;
        if level == 3 || level == 5 {
            options.nice_len = 192;
            options.depth = 0;
        } else {
            options.nice_len = 273;
            options.depth = 512;
        }
    }
    assert(preset & LZMA_PRESET_EXTREME != 0 <==> flags & LZMA_PRESET_EXTREME != 0) by (bit_vector)
        requires
            flags == preset & !0x1Fu32,
    ;
    false
}

/// Options of the BCJ (branch converter) filters.
#[derive(Clone, Copy, Debug, PartialEq, Eq)]
pub struct lzma_options_bcj {
    pub start_offset: u32,
}

/// Type of the delta filter: byte-wise deltas.
pub const LZMA_DELTA_TYPE_BYTE: u32 = 0;

/// Smallest and largest delta distance.
pub const LZMA_DELTA_DIST_MIN: u32 = 1;
pub const LZMA_DELTA_DIST_MAX: u32 = 256;

/// Options of the delta filter.
#[derive(Clone, Copy, Debug, PartialEq, Eq)]
pub struct lzma_options_delta {
    pub type_: u32,
    pub dist: u32,
}

/// The options a filter-chain entry carries.
#[derive(Clone, Copy, Debug, PartialEq, Eq)]
pub enum lzma_filter_options {
    Unset,
    Lzma(lzma_options_lzma),
    Bcj(lzma_options_bcj),
    Delta(lzma_options_delta),
}

/// One entry of a filter chain: a filter ID and its options. A chain ends
/// with an entry whose ID is `LZMA_VLI_UNKNOWN`.
#[derive(Clone, Copy, Debug, PartialEq, Eq)]
pub struct lzma_filter {
    pub id: lzma_vli,
    pub options: lzma_filter_options,
}

} // verus!
