//! Encoder of the MicroLZMA format: raw LZMA1 data whose first byte (always
//! zero in LZMA1 output) is replaced by the bitwise complement of the
//! lc/lp/pb properties byte. The output size is bounded by the output
//! buffer, and the encoder reports how much input it consumed.
use vstd::prelude::*;
use crate::alone_encoder::{holds_lzma1_encoder, lzma_lzma1_encoder_next_init};
use crate::coder::{
    lzma_coder, lzma_end, lzma_microlzma_coder, lzma_next_coder, lzma_next_coder_init,
    lzma_next_end, lzma_stream, lzma_strm_init, ISEQ_RUN, LZMA_FINISH,
    LZMA_INIT_MICROLZMA_ENCODER,
};
use crate::options::{
    lclppb_byte, lclppb_valid, lzma_lzma_lclppb_encode, lzma_options_lzma, lzma_ret, LZMA_OK,
    LZMA_OPTIONS_ERROR, LZMA_PROG_ERROR, LZMA_STREAM_END,
};

verus! {

/// The output limit handed to the LZMA1 encoder: the free space of the
/// output buffer.
pub fn microlzma_out_limit(out_pos: usize, out_size: usize) -> (r: u64)
    requires
        out_pos <= out_size,
    ensures
        r == out_size - out_pos,
{
    (out_size - out_pos) as u64
}

/// Finishes one MicroLZMA encode call, given what the LZMA1 encoder
/// reported: `limit_ret` from setting its output limit (with
/// `uncomp_size`, the input it will consume), and `code_ret` from encoding.
/// A failed limit, or an encoder that did not finish, is a programming error
/// (`LZMA_PROG_ERROR`); other errors pass through. When the encoder
/// finished, the first output byte becomes the complemented properties byte
/// and the input position moves to `in_start + uncomp_size`.
pub fn microlzma_encode(
    coder: &lzma_microlzma_coder,
    limit_ret: lzma_ret,
    uncomp_size: u64,
    code_ret: lzma_ret,
    in_start: usize,
    in_pos: &mut usize,
    out: &mut [u8],
    out_start: usize,
) -> (r: lzma_ret)
    requires
        limit_ret == LZMA_OK && code_ret == LZMA_STREAM_END ==> out_start < old(out)@.len(),
    ensures
        limit_ret != LZMA_OK ==> r == LZMA_PROG_ERROR,
        limit_ret == LZMA_OK && code_ret == LZMA_OK ==> r == LZMA_PROG_ERROR,
        limit_ret == LZMA_OK && code_ret != LZMA_OK && code_ret != LZMA_STREAM_END ==> r
            == code_ret,
        limit_ret != LZMA_OK || code_ret != LZMA_STREAM_END ==> final(out)@ == old(out)@
            && *final(in_pos) == *old(in_pos),
        limit_ret == LZMA_OK && code_ret == LZMA_STREAM_END ==> {
            &&& r == LZMA_STREAM_END
            &&& final(out)@ == old(out)@.update(out_start as int, !coder.props)
            &&& *final(in_pos) == in_start.wrapping_add(#[verifier::truncate] (uncomp_size as usize))
        },
{
    if limit_ret != LZMA_OK {
        return LZMA_PROG_ERROR;
    }
    if code_ret != LZMA_STREAM_END {
        if code_ret == LZMA_OK {
            return LZMA_PROG_ERROR;
        }
        return code_ret;
    }
    out[out_start] = !coder.props;
    *in_pos = in_start.wrapping_add(#[verifier::truncate] (uncomp_size as usize));
    code_ret
}

/// `coder` is a MicroLZMA encoder for `options`: it holds their properties
/// byte and the LZMA1 encoder set up with them.
pub open spec fn microlzma_coder_ready(coder: lzma_microlzma_coder, options: lzma_options_lzma) -> bool {
    &&& coder.props == lclppb_byte(options.lc, options.lp, options.pb)
    &&& holds_lzma1_encoder(coder.lzma, options)
}

/// Sets up the MicroLZMA encoder in `next` (reusing the coder already there
/// if it is one): rejects lc/lp/pb out of range with `LZMA_OPTIONS_ERROR`,
/// and otherwise stores their properties byte and sets up the LZMA1 encoder
/// behind it. That encoder runs outside this library; `lzma1_init_ret` is
/// what its own set-up returned for `options`, and it is the result when
/// lc/lp/pb are valid.
pub fn microlzma_encoder_init(
    next: &mut lzma_next_coder,
    options: &lzma_options_lzma,
    lzma1_init_ret: lzma_ret,
) -> (r: lzma_ret)
    ensures
        !lclppb_valid(options.lc, options.lp, options.pb) ==> r == LZMA_OPTIONS_ERROR,
        lclppb_valid(options.lc, options.lp, options.pb) ==> r == lzma1_init_ret,
        final(next).init == LZMA_INIT_MICROLZMA_ENCODER,
        (final(next).coder matches Some(lzma_coder::MicroLzma(c)) && (r == LZMA_OK
            ==> microlzma_coder_ready(*c, *options))),
{
    if next.init != LZMA_INIT_MICROLZMA_ENCODER {
        lzma_next_end(next);
    }
    next.init = LZMA_INIT_MICROLZMA_ENCODER;
    let mut coder: lzma_microlzma_coder = match next.coder.take() {
        Some(lzma_coder::MicroLzma(b)) => *b,
        _ => lzma_microlzma_coder { lzma: lzma_next_coder_init(), props: 0 },
    };
    match lzma_lzma_lclppb_encode(options) {
        Some(b) => {
            coder.props = b;
        },
        None => {
            next.coder = Some(lzma_coder::MicroLzma(Box::new(coder)));
            return LZMA_OPTIONS_ERROR;
        },
    }
    let ret = lzma_lzma1_encoder_next_init(&mut coder.lzma, options, lzma1_init_ret);
    next.coder = Some(lzma_coder::MicroLzma(Box::new(coder)));
    ret
}

/// Makes `strm` a MicroLZMA encoder for `options`, accepting only the finish
/// action. The result is as for `microlzma_encoder_init` (with
/// `lzma1_init_ret`, what the LZMA1 encoder's own set-up returned for
/// `options`); on failure the stream is left without a coder.
pub fn lzma_microlzma_encoder(
    strm: &mut lzma_stream,
    options: &lzma_options_lzma,
    lzma1_init_ret: lzma_ret,
) -> (r: lzma_ret)
    ensures
        !lclppb_valid(options.lc, options.lp, options.pb) ==> r == LZMA_OPTIONS_ERROR,
        lclppb_valid(options.lc, options.lp, options.pb) ==> r == lzma1_init_ret,
        r != LZMA_OK ==> final(strm).internal is None,
        final(strm).total_in == 0 && final(strm).total_out == 0,
        r == LZMA_OK ==> (final(strm).internal matches Some(i) && {
            &&& i.supported_actions@ == seq![false, false, false, true, false]
            &&& i.sequence == ISEQ_RUN
            &&& !i.allow_buf_error
            &&& i.next.init == LZMA_INIT_MICROLZMA_ENCODER
            &&& (i.next.coder matches Some(lzma_coder::MicroLzma(c)) && microlzma_coder_ready(
                *c,
                *options,
            ))
        }),
{
    let ret = lzma_strm_init(strm);
    if ret != LZMA_OK {
        return ret;
    }
    let mut internal = match strm.internal.take() {
        Some(b) => b,
        None => {
            return LZMA_PROG_ERROR;
        },
    };
    let ret = microlzma_encoder_init(&mut internal.next, options, lzma1_init_ret);
    if ret != LZMA_OK {
        strm.internal = Some(internal);
        lzma_end(strm);
        return ret;
    }
    internal.supported_actions[LZMA_FINISH] = true;
    strm.internal = Some(internal);
    LZMA_OK
}

} // verus!
