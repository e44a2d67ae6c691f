//! The coder chain of a stream: the stream itself, its internal state, the
//! "next coder" slots that link one coder to the next, and the bookkeeping
//! that sets these up and tears them down.
use vstd::prelude::*;
use crate::filter_decoder::lzma_filter_info;
use crate::options::{lzma_options_lzma, lzma_ret, lzma_vli, LZMA_OK, LZMA_VLI_UNKNOWN};

verus! {

/// Which setup function last initialized a next-coder slot (0 for none).
pub type lzma_init_tag = u32;

pub const LZMA_INIT_NONE: lzma_init_tag = 0;
pub const LZMA_INIT_ALONE_ENCODER: lzma_init_tag = 1;
pub const LZMA_INIT_MICROLZMA_ENCODER: lzma_init_tag = 2;
pub const LZMA_INIT_LZMA_ENCODER: lzma_init_tag = 3;
pub const LZMA_INIT_RAW_DECODER: lzma_init_tag = 4;

/// Sequence values of the stream's internal state machine.
pub const ISEQ_RUN: u32 = 0;
pub const ISEQ_SYNC_FLUSH: u32 = 1;
pub const ISEQ_FULL_FLUSH: u32 = 2;
pub const ISEQ_FINISH: u32 = 3;
pub const ISEQ_FULL_BARRIER: u32 = 4;
pub const ISEQ_END: u32 = 5;
pub const ISEQ_ERROR: u32 = 6;

/// Actions a caller can ask of a stream; they index `supported_actions`.
pub const LZMA_RUN: usize = 0;
pub const LZMA_SYNC_FLUSH: usize = 1;
pub const LZMA_FULL_FLUSH: usize = 2;
pub const LZMA_FINISH: usize = 3;
pub const LZMA_FULL_BARRIER: usize = 4;

/// Sequence of the .lzma header writer: header first, then the LZMA1 data.
pub const SEQ_HEADER: u32 = 0;
pub const SEQ_CODE: u32 = 1;

/// Size of the .lzma header: properties byte, dictionary size, and
/// uncompressed size.
pub const ALONE_HEADER_SIZE: usize = 13;

/// The state a next-coder slot holds.
pub enum lzma_coder {
    /// An LZMA1 encoder set up with these options; its compressed output is
    /// produced outside this library.
    Lzma1Encoder(lzma_options_lzma),
    /// The .lzma ("alone") format encoder.
    Alone(Box<lzma_alone_coder>),
    /// The MicroLZMA format encoder.
    MicroLzma(Box<lzma_microlzma_coder>),
    /// A chain of raw decoders set up with these filters, first filter
    /// first; the decoders themselves run outside this library.
    RawDecoder(Vec<lzma_filter_info>),
}

/// A slot for the next coder of a chain.
pub struct lzma_next_coder {
    pub coder: Option<lzma_coder>,
    pub id: lzma_vli,
    pub init: lzma_init_tag,
}

/// State of the .lzma encoder: the header still to be written and the LZMA1
/// encoder that follows it.
pub struct lzma_alone_coder {
    pub next: lzma_next_coder,
    pub sequence: u32,
    pub header_pos: usize,
    pub header: [u8; 13],
}

/// State of the MicroLZMA encoder: the LZMA1 encoder it wraps and the
/// properties byte that replaces the first output byte.
pub struct lzma_microlzma_coder {
    pub lzma: lzma_next_coder,
    pub props: u8,
}

/// Internal state of a stream.
pub struct lzma_internal_s {
    pub next: lzma_next_coder,
    pub sequence: u32,
    pub avail_in: usize,
    pub supported_actions: [bool; 5],
    pub allow_buf_error: bool,
}

/// A stream as its users see it: byte counters, and the internal state once
/// a coder has been set up.
pub struct lzma_stream {
    pub avail_in: usize,
    pub total_in: u64,
    pub avail_out: usize,
    pub total_out: u64,
    pub internal: Option<Box<lzma_internal_s>>,
    pub seek_pos: u64,
}

/// An empty slot.
pub open spec fn next_coder_is_init(next: lzma_next_coder) -> bool {
    &&& next.coder is None
    &&& next.id == LZMA_VLI_UNKNOWN
    &&& next.init == LZMA_INIT_NONE
}

/// A fresh, empty slot.
pub fn lzma_next_coder_init() -> (r: lzma_next_coder)
    ensures
        next_coder_is_init(r),
{
    lzma_next_coder { coder: None, id: LZMA_VLI_UNKNOWN, init: LZMA_INIT_NONE }
}

/// Ends the coder in `next`, if any, and leaves the slot empty.
pub fn lzma_next_end(next: &mut lzma_next_coder)
    ensures
        next_coder_is_init(*final(next)),
{
    *next = lzma_next_coder_init();
}

/// A new stream with no coder and zero counters.
pub fn lzma_stream_new() -> (r: lzma_stream)
    ensures
        r.internal is None,
        r.avail_in == 0 && r.avail_out == 0,
        r.total_in == 0 && r.total_out == 0,
{
    lzma_stream { avail_in: 0, total_in: 0, avail_out: 0, total_out: 0, internal: None, seek_pos: 0 }
}

/// Prepares `strm` for a new coder: creates its internal state if it has
/// none (with an empty next-coder slot), clears the supported actions,
/// restarts the internal sequence and zeroes the byte counters.
pub fn lzma_strm_init(strm: &mut lzma_stream) -> (r: lzma_ret)
    ensures
        r == LZMA_OK,
        final(strm).internal matches Some(i) && {
            &&& old(strm).internal is None ==> next_coder_is_init(i.next)
            &&& (old(strm).internal matches Some(o) ==> i.next == o.next && i.avail_in
                == o.avail_in)
            &&& i.supported_actions@ == seq![false, false, false, false, false]
            &&& i.sequence == ISEQ_RUN
            &&& !i.allow_buf_error
        },
        final(strm).total_in == 0,
        final(strm).total_out == 0,
        final(strm).avail_in == old(strm).avail_in,
        final(strm).avail_out == old(strm).avail_out,
{
    let mut internal = match strm.internal.take() {
        Some(b) => b,
        None => Box::new(
            lzma_internal_s {
                next: lzma_next_coder_init(),
                sequence: ISEQ_RUN,
                avail_in: 0,
                supported_actions: [false; 5],
                allow_buf_error: false,
            },
        ),
    };
    internal.supported_actions = [false; 5];
    internal.sequence = ISEQ_RUN;
    internal.allow_buf_error = false;
    strm.internal = Some(internal);
    strm.total_in = 0;
    strm.total_out = 0;
    LZMA_OK
}

/// Ends the coder of `strm` and frees its internal state.
pub fn lzma_end(strm: &mut lzma_stream)
    ensures
        final(strm).internal is None,
        final(strm).total_in == old(strm).total_in,
        final(strm).total_out == old(strm).total_out,
        final(strm).avail_in == old(strm).avail_in,
        final(strm).avail_out == old(strm).avail_out,
{
    strm.internal = None;
}

} // verus!
