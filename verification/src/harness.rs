//! Input shaping for the stream harness: how the raw harness bytes are split
//! into control bytes and payload, which preset a control byte selects, and
//! how control bytes pick chunk and output-buffer sizes.
use vstd::prelude::*;
use crate::options::{preset_accepted, LZMA_PRESET_EXTREME};

verus! {

/// Preset flag that selects the slower "extreme" variant of a level.
pub const PRESET_EXTREME: u32 = LZMA_PRESET_EXTREME;

/// Memory limit handed to the decoders the harness builds (300 MiB).
pub const MEM_LIMIT: u64 = 314_572_800;

/// Number of leading input bytes that steer the harness.
pub const CONTROL_BYTES: usize = 8;

/// Largest payload the encoder harness compresses (128 KiB).
pub const MAX_ENCODE_INPUT: usize = 131_072;

/// Input chunk size of the upstream-shaped feeding plan.
pub const UPSTREAM_IN_CHUNK_SIZE: usize = 2047;

/// Output buffer size of the upstream-shaped feeding plan.
pub const UPSTREAM_OUT_SIZE: usize = 4096;

/// How many consecutive finish calls may make no progress before a decoder
/// is considered stuck.
pub const FINISH_NO_PROGRESS_LIMIT: usize = 16;

/// The preset selected by a control byte.
pub open spec fn spec_preset(control: u8) -> u32 {
    if control == 0 || control == 1 || control == 5 {
        control as u32
    } else if control == 6 {
        PRESET_EXTREME
    } else if control == 7 {
        0x8000_0003
    } else {
        let r = control % 6;
        if r == 0 {
            2
        } else if r == 1 {
            3
        } else if r == 2 {
            4
        } else if r == 3 {
            6
        } else if r == 4 {
            7
        } else {
            0x8000_0009
        }
    }
}

/// The presets the harness picks are the levels 0-9, plain or extreme.
pub open spec fn preset_is_level(preset: u32) -> bool {
    ||| preset <= 9
    ||| (0x8000_0000 <= preset && preset <= 0x8000_0009)
}

proof fn lemma_levels_accepted(p: u32)
    by (bit_vector)
    requires
        p <= 9 || (0x8000_0000u32 <= p && p <= 0x8000_0009u32),
    ensures
        p & 0x1Fu32 <= 9 && p & !0x1Fu32 & !0x8000_0000u32 == 0,
{
}

/// Maps a control byte to a compression preset.
pub fn preset(control: u8) -> (r: u32)
    ensures
        r == spec_preset(control),
        preset_is_level(r),
        preset_accepted(r),
{
    assert(3u32 | 0x8000_0000u32 == 0x8000_0003u32) by (bit_vector);
    assert(9u32 | 0x8000_0000u32 == 0x8000_0009u32) by (bit_vector);
    proof {
        lemma_levels_accepted(spec_preset(control));
    }
    match control {
        0 | 1 | 5 => control as u32,
        6 => PRESET_EXTREME,
        7 => 3 | PRESET_EXTREME,
        _ => {
            let r: u32 = match control % 6 {
                0 => 2,
                1 => 3,
                2 => 4,
                3 => 6,
                4 => 7,
                _ => 9 | PRESET_EXTREME,
            };
            r
        },
    }
}

/// Length of the control prefix of `len` harness bytes.
pub open spec fn control_prefix_len(len: nat) -> nat {
    if len < CONTROL_BYTES {
        len
    } else {
        CONTROL_BYTES as nat
    }
}

/// The leading control bytes of a harness input: at most `CONTROL_BYTES` of them.
pub fn controls(data: &[u8]) -> (r: &[u8])
    ensures
        r@ == data@.take(control_prefix_len(data@.len()) as int),
{
    let n: usize = if data.len() < CONTROL_BYTES {
        data.len()
    } else {
        CONTROL_BYTES
    };
    &data[0..n]
}

/// The payload of the upstream-shaped encoder harness: everything after the
/// first byte, or nothing when the input is empty.
pub fn upstream_encode_input(data: &[u8]) -> (r: &[u8])
    ensures
        data@.len() == 0 ==> r@ == Seq::<u8>::empty(),
        data@.len() > 0 ==> r@ == data@.skip(1),
{
    if data.len() >= 1 {
        &data[1..data.len()]
    } else {
        &data[0..0]
    }
}

/// What the upstream-shaped encoder harness has fed in total: the first half
/// of `input` once, and then all of `input`.
pub open spec fn spec_upstream_expected(input: Seq<u8>) -> Seq<u8> {
    input.take((input.len() / 2) as int) + input
}

/// The bytes a decoder must give back from the upstream-shaped encoding of
/// `input`: its first half followed by the whole input.
pub fn upstream_encode_expected(input: &[u8]) -> (r: Vec<u8>)
    ensures
        r@ == spec_upstream_expected(input@),
{
    let first_chunk = input.len() / 2;
    let mut expected: Vec<u8> = Vec::new();
    let mut i: usize = 0;
    while i < first_chunk
        invariant
            first_chunk == input@.len() / 2,
            i <= first_chunk,
            expected@ == input@.take(i as int),
        decreases first_chunk - i,
    {
        expected.push(input[i]);
        i += 1;
        assert(expected@ == input@.take(i as int));
    }
    let mut j: usize = 0;
    while j < input.len()
        invariant
            first_chunk == input@.len() / 2,
            j <= input@.len(),
            expected@ == input@.take(first_chunk as int) + input@.take(j as int),
        decreases input@.len() - j,
    {
        expected.push(input[j]);
        j += 1;
        assert(expected@ == input@.take(first_chunk as int) + input@.take(j as int));
    }
    assert(input@.take(input@.len() as int) == input@);
    expected
}

/// Start and end of the encoder payload within `len` harness bytes.
pub open spec fn encode_input_bounds(len: nat) -> (nat, nat) {
    let start = control_prefix_len(len);
    let end = if len < start + MAX_ENCODE_INPUT {
        len
    } else {
        (start + MAX_ENCODE_INPUT) as nat
    };
    (start, end)
}

/// The payload of the encoder harness: the bytes after the control prefix,
/// at most `MAX_ENCODE_INPUT` of them.
pub fn encode_input(data: &[u8]) -> (r: &[u8])
    ensures
        r@ == data@.subrange(
            encode_input_bounds(data@.len()).0 as int,
            encode_input_bounds(data@.len()).1 as int,
        ),
{
    let start: usize = if data.len() < CONTROL_BYTES {
        data.len()
    } else {
        CONTROL_BYTES
    };
    let end: usize = if data.len() < start + MAX_ENCODE_INPUT {
        data.len()
    } else {
        start + MAX_ENCODE_INPUT
    };
    &data[start..end]
}

/// The control byte used at step `index`: the control bytes are used
/// cyclically, and with no control bytes the step number itself (truncated
/// to a byte) is used.
pub open spec fn spec_control(controls: Seq<u8>, index: nat) -> u8 {
    if controls.len() == 0 {
        (index % 256) as u8
    } else {
        controls[(index % controls.len()) as int]
    }
}

/// Picks the control byte for step `index`.
pub fn control(controls: &[u8], index: usize) -> (r: u8)
    ensures
        r == spec_control(controls@, index as nat),
{
    if controls.len() == 0 {
        (index % 256) as u8
    } else {
        controls[index % controls.len()]
    }
}

/// The output buffer size selected by a control byte.
pub open spec fn spec_output_len(control: u8) -> nat {
    let r = control % 8;
    if r == 0 {
        1
    } else if r == 1 {
        2
    } else if r == 2 {
        3
    } else {
        (32 + control) as nat
    }
}

/// Picks an output buffer size from a control byte; it is never zero.
pub fn output_len(control: u8) -> (r: usize)
    ensures
        r == spec_output_len(control),
        1 <= r <= 32 + 255,
{
    match control % 8 {
        0 => 1,
        1 => 2,
        2 => 3,
        _ => 32 + control as usize,
    }
}

/// The input chunk size selected by a control byte when `remaining` bytes
/// are left.
pub open spec fn spec_chunk_len(control: u8, remaining: nat) -> nat {
    if remaining == 0 {
        0
    } else {
        let r = control % 6;
        let len: nat = if r == 0 {
            1
        } else if r == 1 {
            2
        } else if r == 2 {
            3
        } else if r == 3 {
            7
        } else {
            let cap: nat = if remaining < 4096 {
                remaining
            } else {
                4096
            };
            1 + (control as nat) % cap
        };
        if len < remaining {
            len
        } else {
            remaining
        }
    }
}

/// Picks the size of the next input chunk; it is at least one byte and at
/// most `remaining` whenever input remains.
pub fn chunk_len(control: u8, remaining: usize) -> (r: usize)
    ensures
        r == spec_chunk_len(control, remaining as nat),
        remaining > 0 ==> 1 <= r <= remaining,
        remaining == 0 ==> r == 0,
{
    if remaining == 0 {
        return 0;
    }
    let cap: usize = if remaining < 4096 {
        remaining
    } else {
        4096
    };
    let len: usize = match control % 6 {
        0 => 1,
        1 => 2,
        2 => 3,
        3 => 7,
        _ => 1 + (control as usize % cap),
    };
    if len < remaining {
        len
    } else {
        remaining
    }
}

} // verus!
