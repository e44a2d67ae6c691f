//! Encoder of the legacy .lzma ("alone") format: a 13-byte header (LZMA
//! properties byte, dictionary size, unknown uncompressed size) followed by
//! raw LZMA1 data.
use vstd::prelude::*;
use crate::bytes::{lemma_le32_roundtrip, le32_bytes, lzma_bufcpy, spec_read32le, write32le};
use crate::filter_decoder::{lzma_props_options, lzma_props_valid};
use crate::coder::{
    lzma_alone_coder, lzma_coder, lzma_end, lzma_next_coder, lzma_next_coder_init,
    lzma_next_end, lzma_stream, lzma_strm_init, ALONE_HEADER_SIZE, ISEQ_RUN,
    LZMA_FINISH, LZMA_INIT_ALONE_ENCODER, LZMA_INIT_LZMA_ENCODER, LZMA_RUN, SEQ_CODE, SEQ_HEADER,
};
use crate::options::{
    lclppb_byte, lclppb_valid, lemma_lclppb_decode_encode, lzma_lzma_lclppb_encode, lzma_options_lzma, lzma_ret,
    LZMA_DICT_SIZE_MIN, LZMA_FILTER_LZMA1, LZMA_OK, LZMA_OPTIONS_ERROR, LZMA_PROG_ERROR,
};

verus! {

/// `x` is a power of two.
pub open spec fn is_pow2(x: u32) -> bool {
    x != 0 && x & ((x - 1) as u32) == 0
}

/// Dictionary sizes the .lzma header can state exactly: 2^n or 2^n + 2^(n-1).
pub open spec fn is_alone_dict_size(x: u32) -> bool {
    let h = x & ((x - 1) as u32);
    ||| is_pow2(x)
    ||| (is_pow2(h) && h >= 2 && x == h | (h >> 1u32))
}

proof fn lemma_round_dict(dict: u32, r: u32, x: u32)
    by (bit_vector)
    requires
        dict >= 4096,
        r == {
            let d0 = (dict - 1) as u32;
            let d1 = d0 | (d0 >> 2u32);
            let d2 = d1 | (d1 >> 3u32);
            let d3 = d2 | (d2 >> 4u32);
            let d4 = d3 | (d3 >> 8u32);
            let d5 = d4 | (d4 >> 16u32);
            if d5 == 0xFFFF_FFFFu32 {
                d5
            } else {
                (d5 + 1) as u32
            }
        },
    ensures
        r >= dict,
        is_alone_dict_size(r) || r == 0xFFFF_FFFFu32,
        is_alone_dict_size(x) && x >= dict ==> x >= r,
{
}

/// The dictionary size written to the .lzma header for `dict_size`: the
/// smallest 2^n or 2^n + 2^(n-1) that is not smaller, or `u32::MAX` when no
/// such size fits in 32 bits.
pub fn alone_dict_size(dict_size: u32) -> (r: u32)
    requires
        dict_size >= LZMA_DICT_SIZE_MIN,
    ensures
        r >= dict_size,
        is_alone_dict_size(r) || r == u32::MAX,
        forall|x: u32| is_alone_dict_size(x) && x >= dict_size ==> x >= r,
{
    let mut d: u32 = dict_size - 1;
    d |= d >> 2;
    d |= d >> 3;
    d |= d >> 4;
    d |= d >> 8;
    d |= d >> 16;
    if d != u32::MAX {
        d = d + 1;
    }
    proof {
        assert forall|x: u32| is_alone_dict_size(x) && x >= dict_size implies x >= d by {
            lemma_round_dict(dict_size, d, x);
        }
        lemma_round_dict(dict_size, d, 0);
    }
    d
}

/// The .lzma header: the properties byte, the dictionary size, and eight
/// 0xFF bytes for an unknown uncompressed size.
pub open spec fn alone_header(props: u8, dict: u32) -> Seq<u8> {
    seq![props] + le32_bytes(dict) + Seq::new(8, |i: int| 0xFFu8)
}

/// Builds the .lzma header for properties byte `props` and header
/// dictionary size `dict`.
pub fn alone_header_bytes(props: u8, dict: u32) -> (r: [u8; 13])
    ensures
        r@ == alone_header(props, dict),
{
    let mut header: [u8; 13] = [0; 13];
    header[0] = props;
    write32le(&mut header, 1, dict);
    let mut i: usize = 5;
    while i < ALONE_HEADER_SIZE
        invariant
            5 <= i <= 13,
            header@.len() == 13,
            header@.take(5) == seq![props] + le32_bytes(dict),
            forall|j: int| 5 <= j < i ==> header@[j] == 0xFFu8,
        decreases 13 - i,
    {
        header[i] = 0xFF;
        i += 1;
    }
    assert(header@ == alone_header(props, dict));
    header
}

/// What a coder's encode step asks of its caller.
pub enum coder_step {
    /// Return this code to the caller of the stream.
    Return(lzma_ret),
    /// Run the next coder of the chain with the same buffers and action.
    RunNext,
}

/// Bytes of the header that one encode step writes, with `hp` bytes of it
/// already written and `space` bytes free in the output buffer.
pub open spec fn header_step(hp: int, space: int) -> int {
    if space <= 0 {
        0
    } else if 13 - hp < space {
        13 - hp
    } else {
        space
    }
}

/// The header position after encode steps with free output space `spaces[0]`,
/// `spaces[1]`, ..., starting at header position `hp`.
pub open spec fn header_pos_after(hp: int, spaces: Seq<int>) -> int
    decreases spaces.len(),
{
    if spaces.len() == 0 {
        hp
    } else {
        header_pos_after(hp + header_step(hp, spaces[0]), spaces.drop_first())
    }
}

/// The header bytes that encode steps with free output space `spaces[0]`,
/// `spaces[1]`, ... write, one after the other, starting at header position
/// `hp`.
pub open spec fn header_output(header: Seq<u8>, hp: int, spaces: Seq<int>) -> Seq<u8>
    decreases spaces.len(),
{
    if spaces.len() == 0 {
        Seq::empty()
    } else {
        let n = header_step(hp, spaces[0]);
        header.subrange(hp, hp + n) + header_output(header, hp + n, spaces.drop_first())
    }
}

/// Total free output space over the steps (a step without space counts 0).
pub open spec fn space_total(spaces: Seq<int>) -> int
    decreases spaces.len(),
{
    if spaces.len() == 0 {
        0
    } else {
        (if spaces[0] > 0 {
            spaces[0]
        } else {
            0
        }) + space_total(spaces.drop_first())
    }
}

/// The header comes out exactly once, whatever the output buffers: over any
/// run of encode steps, what they write of the header, put together, is the
/// header from where it stood up to as far as the output space reached, never
/// repeating or skipping a byte; once the space adds up to what was left, it
/// is the rest of the header, whole.
pub proof fn lemma_alone_header_exactly_once(header: Seq<u8>, hp: int, spaces: Seq<int>)
    requires
        header.len() == 13,
        0 <= hp <= 13,
    ensures
        space_total(spaces) >= 0,
        header_pos_after(hp, spaces) == (if hp + space_total(spaces) < 13 {
            hp + space_total(spaces)
        } else {
            13
        }),
        header_output(header, hp, spaces) == header.subrange(hp, header_pos_after(hp, spaces)),
        space_total(spaces) >= 13 - hp ==> header_output(header, hp, spaces) == header.subrange(
            hp,
            13,
        ),
    decreases spaces.len(),
{
    if spaces.len() == 0 {
        assert(header.subrange(hp, hp) == Seq::<u8>::empty());
    } else {
        let n = header_step(hp, spaces[0]);
        let rest = spaces.drop_first();
        lemma_alone_header_exactly_once(header, hp + n, rest);
        let end = header_pos_after(hp + n, rest);
        assert(0 <= n <= 13 - hp);
        assert(hp + n <= end <= 13);
        assert(header.subrange(hp, hp + n) + header.subrange(hp + n, end) == header.subrange(
            hp,
            end,
        ));
    }
}

/// One encode step of the .lzma encoder: while the header is not yet fully
/// written, copies as much of it to `out[*out_pos..out_size]` as fits; once
/// it is, the LZMA1 encoder in `coder.next` takes over.
pub fn alone_encode(
    coder: &mut lzma_alone_coder,
    out: &mut [u8],
    out_pos: &mut usize,
    out_size: usize,
) -> (r: coder_step)
    requires
        old(coder).header_pos <= ALONE_HEADER_SIZE,
        *old(out_pos) <= out_size <= old(out)@.len(),
    ensures
        final(coder).header == old(coder).header,
        final(coder).next == old(coder).next,
        ({
            let hp = old(coder).header_pos;
            let op = *old(out_pos);
            let n: int = if old(coder).sequence == SEQ_HEADER {
                header_step(hp as int, out_size - op)
            } else {
                0
            };
            &&& final(coder).header_pos == hp + n
            &&& *final(out_pos) == op + n
            &&& final(out)@ == old(out)@.take(op as int) + old(coder).header@.subrange(
                hp as int,
                hp + n,
            ) + old(out)@.skip(op + n)
            &&& if op >= out_size {
                final(coder).sequence == old(coder).sequence && r == coder_step::Return(LZMA_OK)
            } else if old(coder).sequence == SEQ_HEADER {
                if hp + n < 13 {
                    final(coder).sequence == SEQ_HEADER && r == coder_step::Return(LZMA_OK)
                } else if op + n < out_size {
                    final(coder).sequence == SEQ_CODE && r == coder_step::RunNext
                } else {
                    final(coder).sequence == SEQ_CODE && r == coder_step::Return(LZMA_OK)
                }
            } else if old(coder).sequence == SEQ_CODE {
                final(coder).sequence == SEQ_CODE && r == coder_step::RunNext
            } else {
                final(coder).sequence == old(coder).sequence && r == coder_step::Return(
                    LZMA_PROG_ERROR,
                )
            }
        }),
{
    if *out_pos >= out_size {
        return coder_step::Return(LZMA_OK);
    }
    if coder.sequence == SEQ_HEADER {
        let mut header_pos = coder.header_pos;
        lzma_bufcpy(&coder.header, &mut header_pos, ALONE_HEADER_SIZE, out, out_pos, out_size);
        coder.header_pos = header_pos;
        if coder.header_pos < ALONE_HEADER_SIZE {
            return coder_step::Return(LZMA_OK);
        }
        coder.sequence = SEQ_CODE;
        if *out_pos >= out_size {
            return coder_step::Return(LZMA_OK);
        }
    }
    if coder.sequence == SEQ_CODE {
        coder_step::RunNext
    } else {
        coder_step::Return(LZMA_PROG_ERROR)
    }
}

/// `next` holds the LZMA1 encoder set up with `options`.
pub open spec fn holds_lzma1_encoder(next: lzma_next_coder, options: lzma_options_lzma) -> bool {
    &&& next.coder == Some(lzma_coder::Lzma1Encoder(options))
    &&& next.id == LZMA_FILTER_LZMA1
    &&& next.init == LZMA_INIT_LZMA_ENCODER
}

/// Records in `next` the set-up of the LZMA1 encoder with `options` as the
/// next coder of a chain. The encoder itself runs outside this library:
/// `init_ret` is what its own set-up returned for these options (it rejects,
/// among others, dictionaries above 1.5 GiB, unknown modes and match finders,
/// and nice lengths out of range). The result is `init_ret`; on success the
/// slot holds the encoder, otherwise the slot is left empty.
pub fn lzma_lzma1_encoder_next_init(
    next: &mut lzma_next_coder,
    options: &lzma_options_lzma,
    init_ret: lzma_ret,
) -> (r: lzma_ret)
    ensures
        r == init_ret,
        r == LZMA_OK ==> holds_lzma1_encoder(*final(next), *options),
        r != LZMA_OK ==> final(next).coder is None && final(next).id == LZMA_FILTER_LZMA1,
{
    lzma_next_end(next);
    next.id = LZMA_FILTER_LZMA1;
    if init_ret != LZMA_OK {
        return init_ret;
    }
    next.coder = Some(lzma_coder::Lzma1Encoder(*options));
    next.init = LZMA_INIT_LZMA_ENCODER;
    LZMA_OK
}

/// The .lzma encoder accepts `options`: lc/lp/pb in range and a dictionary
/// of at least `LZMA_DICT_SIZE_MIN` bytes.
pub open spec fn alone_options_valid(options: lzma_options_lzma) -> bool {
    lclppb_valid(options.lc, options.lp, options.pb) && options.dict_size >= LZMA_DICT_SIZE_MIN
}

/// `coder` is a freshly set up .lzma encoder for `options`: it has the header
/// for those options still to write, and the LZMA1 encoder behind it.
pub open spec fn alone_coder_ready(coder: lzma_alone_coder, options: lzma_options_lzma) -> bool {
    &&& coder.sequence == SEQ_HEADER
    &&& coder.header_pos == 0
    &&& exists|d: u32|
        {
            &&& d >= options.dict_size
            &&& (is_alone_dict_size(d) || d == u32::MAX)
            &&& (forall|x: u32| is_alone_dict_size(x) && x >= options.dict_size ==> x >= d)
            &&& coder.header@ == alone_header(
                lclppb_byte(options.lc, options.lp, options.pb) as u8,
                d,
            )
        }
    &&& holds_lzma1_encoder(coder.next, options)
}

/// Sets up the .lzma encoder in `next` (reusing the coder already there if it
/// is one): rejects lc/lp/pb out of range and dictionaries smaller than
/// `LZMA_DICT_SIZE_MIN` with `LZMA_OPTIONS_ERROR`, and otherwise prepares
/// the header and sets up the LZMA1 encoder behind it. That encoder runs
/// outside this library; `lzma1_init_ret` is what its own set-up returned
/// for `options`, and it is the result when the header options are valid.
pub fn alone_encoder_init(
    next: &mut lzma_next_coder,
    options: &lzma_options_lzma,
    lzma1_init_ret: lzma_ret,
) -> (r: lzma_ret)
    ensures
        !alone_options_valid(*options) ==> r == LZMA_OPTIONS_ERROR,
        alone_options_valid(*options) ==> r == lzma1_init_ret,
        final(next).init == LZMA_INIT_ALONE_ENCODER,
        (final(next).coder matches Some(lzma_coder::Alone(c)) && (r == LZMA_OK
            ==> alone_coder_ready(*c, *options))),
{
    if next.init != LZMA_INIT_ALONE_ENCODER {
        lzma_next_end(next);
    }
    next.init = LZMA_INIT_ALONE_ENCODER;
    let mut coder: lzma_alone_coder = match next.coder.take() {
        Some(lzma_coder::Alone(b)) => *b,
        _ => lzma_alone_coder {
            next: lzma_next_coder_init(),
            sequence: SEQ_HEADER,
            header_pos: 0,
            header: [0; 13],
        },
    };
    coder.sequence = SEQ_HEADER;
    coder.header_pos = 0;
    let props: u8 = match lzma_lzma_lclppb_encode(options) {
        Some(b) => b,
        None => {
            next.coder = Some(lzma_coder::Alone(Box::new(coder)));
            return LZMA_OPTIONS_ERROR;
        },
    };
    coder.header[0] = props;
    if options.dict_size < LZMA_DICT_SIZE_MIN {
        next.coder = Some(lzma_coder::Alone(Box::new(coder)));
        return LZMA_OPTIONS_ERROR;
    }
    let d = alone_dict_size(options.dict_size);
    coder.header = alone_header_bytes(props, d);
    let ret = lzma_lzma1_encoder_next_init(&mut coder.next, options, lzma1_init_ret);
    if ret != LZMA_OK {
        next.coder = Some(lzma_coder::Alone(Box::new(coder)));
        return ret;
    }
    proof {
        assert(coder.header@ == alone_header(
            lclppb_byte(options.lc, options.lp, options.pb) as u8,
            d,
        ));
    }
    next.coder = Some(lzma_coder::Alone(Box::new(coder)));
    LZMA_OK
}

/// Makes `strm` a .lzma encoder for `options`, accepting the run and finish
/// actions. The result is as for `alone_encoder_init` (with `lzma1_init_ret`,
/// what the LZMA1 encoder's own set-up returned for `options`); on failure
/// the stream is left without a coder.
pub fn lzma_alone_encoder(
    strm: &mut lzma_stream,
    options: &lzma_options_lzma,
    lzma1_init_ret: lzma_ret,
) -> (r: lzma_ret)
    ensures
        !alone_options_valid(*options) ==> r == LZMA_OPTIONS_ERROR,
        alone_options_valid(*options) ==> r == lzma1_init_ret,
        r != LZMA_OK ==> final(strm).internal is None,
        final(strm).total_in == 0 && final(strm).total_out == 0,
        r == LZMA_OK ==> (final(strm).internal matches Some(i) && {
            &&& i.supported_actions@ == seq![true, false, false, true, false]
            &&& i.sequence == ISEQ_RUN
            &&& !i.allow_buf_error
            &&& i.next.init == LZMA_INIT_ALONE_ENCODER
            &&& (i.next.coder matches Some(lzma_coder::Alone(c)) && alone_coder_ready(*c, *options))
        }),
{
    let ret = lzma_strm_init(strm);
    if ret != LZMA_OK {
        return ret;
    }
    let mut internal = match strm.internal.take() {
        Some(b) => b,
        None => {
            return LZMA_PROG_ERROR;
        },
    };
    let ret = alone_encoder_init(&mut internal.next, options, lzma1_init_ret);
    if ret != LZMA_OK {
        strm.internal = Some(internal);
        lzma_end(strm);
        return ret;
    }
    internal.supported_actions[LZMA_RUN] = true;
    internal.supported_actions[LZMA_FINISH] = true;
    strm.internal = Some(internal);
    LZMA_OK
}

/// The first five bytes of a .lzma header are an LZMA1 properties field:
/// decoding them gives back the lc, lp and pb of the options the header was
/// made for, and the dictionary size the header states.
pub proof fn lemma_alone_header_props_roundtrip(options: lzma_options_lzma, dict: u32)
    requires
        lclppb_valid(options.lc, options.lp, options.pb),
    ensures
        ({
            let props = alone_header(lclppb_byte(options.lc, options.lp, options.pb) as u8, dict).take(
                5,
            );
            &&& lzma_props_valid(props)
            &&& lzma_props_options(props).lc == options.lc
            &&& lzma_props_options(props).lp == options.lp
            &&& lzma_props_options(props).pb == options.pb
            &&& lzma_props_options(props).dict_size == dict
        }),
{
    lemma_lclppb_decode_encode(options.lc, options.lp, options.pb);
    lemma_le32_roundtrip(dict);
    let b = lclppb_byte(options.lc, options.lp, options.pb) as u8;
    let props = alone_header(b, dict).take(5);
    assert(props[0] == b);
    assert(props[1] == le32_bytes(dict)[0]);
    assert(props[2] == le32_bytes(dict)[1]);
    assert(props[3] == le32_bytes(dict)[2]);
    assert(props[4] == le32_bytes(dict)[3]);
    assert(spec_read32le(props, 1) == dict);
}

} // verus!
