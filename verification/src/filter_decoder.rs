//! The table of supported decoder filters, lookup by filter ID, and decoding
//! of each filter's properties field.
use vstd::prelude::*;
use crate::bytes::{read32le, spec_read32le};
use crate::coder::{
    lzma_coder, lzma_end, lzma_next_coder, lzma_next_end, lzma_stream, lzma_strm_init,
    next_coder_is_init,
    ISEQ_RUN, LZMA_FINISH, LZMA_INIT_RAW_DECODER, LZMA_RUN,
};
use crate::filter_common::{
    chain_len_is, chain_valid, is_bcj_filter, is_lzma_filter, lemma_chain_features, spec_feature,
    validate_chain,
};
use crate::options::{
    lclppb_fields, lzma_filter, lzma_filter_options, lzma_lzma_lclppb_decode, lzma_options_bcj,
    lzma_options_delta, lzma_options_lzma, lzma_ret, lzma_vli, LZMA_DELTA_TYPE_BYTE,
    LZMA_FILTER_ARM, LZMA_FILTER_ARM64, LZMA_FILTER_ARMTHUMB, LZMA_FILTER_DELTA,
    LZMA_FILTER_IA64, LZMA_FILTER_LZMA1, LZMA_FILTER_LZMA1EXT, LZMA_FILTER_LZMA2,
    LZMA_FILTER_POWERPC, LZMA_FILTER_RISCV, LZMA_FILTER_SPARC, LZMA_FILTER_X86, LZMA_LCLPPB_MAX_BYTE,
    LZMA_LCLP_MAX, LZMA_OK, LZMA_OPTIONS_ERROR, LZMA_PROG_ERROR,
};

verus! {

/// The decoder that a filter of the table sets up.
#[derive(Clone, Copy, Debug, PartialEq, Eq)]
pub enum lzma_init_function {
    LzmaDecoder,
    Lzma2Decoder,
    SimpleX86Decoder,
    SimplePowerpcDecoder,
    SimpleIa64Decoder,
    SimpleArmDecoder,
    SimpleArmthumbDecoder,
    SimpleArm64Decoder,
    SimpleSparcDecoder,
    SimpleRiscvDecoder,
    DeltaDecoder,
}

/// The memory usage estimate of a filter of the table.
#[derive(Clone, Copy, Debug, PartialEq, Eq)]
pub enum lzma_memusage_function {
    LzmaDecoder,
    Lzma2Decoder,
    DeltaCoder,
}

/// The properties decoder of a filter of the table.
#[derive(Clone, Copy, Debug, PartialEq, Eq)]
pub enum lzma_props_decode_function {
    Lzma,
    Lzma2,
    Simple,
    Delta,
}

/// A supported decoder filter: its ID, how it is set up, how its memory
/// usage is estimated (none for the BCJ filters) and how its properties are
/// decoded.
#[derive(Clone, Copy, Debug, PartialEq, Eq)]
pub struct lzma_filter_decoder {
    pub id: lzma_vli,
    pub init: lzma_init_function,
    pub memusage: Option<lzma_memusage_function>,
    pub props_decode: Option<lzma_props_decode_function>,
}

/// The part of a decoder filter entry that is shared with encoders.
#[derive(Clone, Copy, Debug, PartialEq, Eq)]
pub struct lzma_filter_coder {
    pub id: lzma_vli,
    pub init: lzma_init_function,
    pub memusage: Option<lzma_memusage_function>,
}

/// The decoder filters, in lookup order.
pub open spec fn spec_decoders() -> Seq<lzma_filter_decoder> {
    seq![
        lzma_filter_decoder {
            id: LZMA_FILTER_LZMA1,
            init: lzma_init_function::LzmaDecoder,
            memusage: Some(lzma_memusage_function::LzmaDecoder),
            props_decode: Some(lzma_props_decode_function::Lzma),
        },
        lzma_filter_decoder {
            id: LZMA_FILTER_LZMA1EXT,
            init: lzma_init_function::LzmaDecoder,
            memusage: Some(lzma_memusage_function::LzmaDecoder),
            props_decode: Some(lzma_props_decode_function::Lzma),
        },
        lzma_filter_decoder {
            id: LZMA_FILTER_LZMA2,
            init: lzma_init_function::Lzma2Decoder,
            memusage: Some(lzma_memusage_function::Lzma2Decoder),
            props_decode: Some(lzma_props_decode_function::Lzma2),
        },
        lzma_filter_decoder {
            id: LZMA_FILTER_X86,
            init: lzma_init_function::SimpleX86Decoder,
            memusage: None,
            props_decode: Some(lzma_props_decode_function::Simple),
        },
        lzma_filter_decoder {
            id: LZMA_FILTER_POWERPC,
            init: lzma_init_function::SimplePowerpcDecoder,
            memusage: None,
            props_decode: Some(lzma_props_decode_function::Simple),
        },
        lzma_filter_decoder {
            id: LZMA_FILTER_IA64,
            init: lzma_init_function::SimpleIa64Decoder,
            memusage: None,
            props_decode: Some(lzma_props_decode_function::Simple),
        },
        lzma_filter_decoder {
            id: LZMA_FILTER_ARM,
            init: lzma_init_function::SimpleArmDecoder,
            memusage: None,
            props_decode: Some(lzma_props_decode_function::Simple),
        },
        lzma_filter_decoder {
            id: LZMA_FILTER_ARMTHUMB,
            init: lzma_init_function::SimpleArmthumbDecoder,
            memusage: None,
            props_decode: Some(lzma_props_decode_function::Simple),
        },
        lzma_filter_decoder {
            id: LZMA_FILTER_ARM64,
            init: lzma_init_function::SimpleArm64Decoder,
            memusage: None,
            props_decode: Some(lzma_props_decode_function::Simple),
        },
        lzma_filter_decoder {
            id: LZMA_FILTER_SPARC,
            init: lzma_init_function::SimpleSparcDecoder,
            memusage: None,
            props_decode: Some(lzma_props_decode_function::Simple),
        },
        lzma_filter_decoder {
            id: LZMA_FILTER_RISCV,
            init: lzma_init_function::SimpleRiscvDecoder,
            memusage: None,
            props_decode: Some(lzma_props_decode_function::Simple),
        },
        lzma_filter_decoder {
            id: LZMA_FILTER_DELTA,
            init: lzma_init_function::DeltaDecoder,
            memusage: Some(lzma_memusage_function::DeltaCoder),
            props_decode: Some(lzma_props_decode_function::Delta),
        },
    ]
}

/// Builds the table of decoder filters.
pub fn decoders() -> (r: Vec<lzma_filter_decoder>)
    ensures
        r@ == spec_decoders(),
{
    let mut t: Vec<lzma_filter_decoder> = Vec::new();
    t.push(
        lzma_filter_decoder {
            id: LZMA_FILTER_LZMA1,
            init: lzma_init_function::LzmaDecoder,
            memusage: Some(lzma_memusage_function::LzmaDecoder),
            props_decode: Some(lzma_props_decode_function::Lzma),
        },
    );
    t.push(
        lzma_filter_decoder {
            id: LZMA_FILTER_LZMA1EXT,
            init: lzma_init_function::LzmaDecoder,
            memusage: Some(lzma_memusage_function::LzmaDecoder),
            props_decode: Some(lzma_props_decode_function::Lzma),
        },
    );
    t.push(
        lzma_filter_decoder {
            id: LZMA_FILTER_LZMA2,
            init: lzma_init_function::Lzma2Decoder,
            memusage: Some(lzma_memusage_function::Lzma2Decoder),
            props_decode: Some(lzma_props_decode_function::Lzma2),
        },
    );
    t.push(
        lzma_filter_decoder {
            id: LZMA_FILTER_X86,
            init: lzma_init_function::SimpleX86Decoder,
            memusage: None,
            props_decode: Some(lzma_props_decode_function::Simple),
        },
    );
    t.push(
        lzma_filter_decoder {
            id: LZMA_FILTER_POWERPC,
            init: lzma_init_function::SimplePowerpcDecoder,
            memusage: None,
            props_decode: Some(lzma_props_decode_function::Simple),
        },
    );
    t.push(
        lzma_filter_decoder {
            id: LZMA_FILTER_IA64,
            init: lzma_init_function::SimpleIa64Decoder,
            memusage: None,
            props_decode: Some(lzma_props_decode_function::Simple),
        },
    );
    t.push(
        lzma_filter_decoder {
            id: LZMA_FILTER_ARM,
            init: lzma_init_function::SimpleArmDecoder,
            memusage: None,
            props_decode: Some(lzma_props_decode_function::Simple),
        },
    );
    t.push(
        lzma_filter_decoder {
            id: LZMA_FILTER_ARMTHUMB,
            init: lzma_init_function::SimpleArmthumbDecoder,
            memusage: None,
            props_decode: Some(lzma_props_decode_function::Simple),
        },
    );
    t.push(
        lzma_filter_decoder {
            id: LZMA_FILTER_ARM64,
            init: lzma_init_function::SimpleArm64Decoder,
            memusage: None,
            props_decode: Some(lzma_props_decode_function::Simple),
        },
    );
    t.push(
        lzma_filter_decoder {
            id: LZMA_FILTER_SPARC,
            init: lzma_init_function::SimpleSparcDecoder,
            memusage: None,
            props_decode: Some(lzma_props_decode_function::Simple),
        },
    );
    t.push(
        lzma_filter_decoder {
            id: LZMA_FILTER_RISCV,
            init: lzma_init_function::SimpleRiscvDecoder,
            memusage: None,
            props_decode: Some(lzma_props_decode_function::Simple),
        },
    );
    t.push(
        lzma_filter_decoder {
            id: LZMA_FILTER_DELTA,
            init: lzma_init_function::DeltaDecoder,
            memusage: Some(lzma_memusage_function::DeltaCoder),
            props_decode: Some(lzma_props_decode_function::Delta),
        },
    );
    assert(t@ == spec_decoders());
    t
}

/// The table entry for filter `id`: the first entry with that ID.
pub open spec fn spec_decoder_find(id: lzma_vli) -> Option<lzma_filter_decoder> {
    if exists|i: int| 0 <= i < spec_decoders().len() && spec_decoders()[i].id == id {
        Some(
            spec_decoders()[choose|i: int|
                0 <= i < spec_decoders().len() && spec_decoders()[i].id == id],
        )
    } else {
        None
    }
}

/// No two entries of the table share an ID.
pub proof fn lemma_decoder_ids_distinct()
    ensures
        forall|i: int, j: int|
            0 <= i < spec_decoders().len() && 0 <= j < spec_decoders().len() && i != j
                ==> spec_decoders()[i].id != spec_decoders()[j].id,
{
}

/// Decoder `f` is the one for filter `id`: the LZMA decoder decodes LZMA1
/// (with or without extensions), and every other decoder its own filter.
pub open spec fn init_decodes(f: lzma_init_function, id: lzma_vli) -> bool {
    match f {
        lzma_init_function::LzmaDecoder => id == LZMA_FILTER_LZMA1 || id == LZMA_FILTER_LZMA1EXT,
        lzma_init_function::Lzma2Decoder => id == LZMA_FILTER_LZMA2,
        lzma_init_function::SimpleX86Decoder => id == LZMA_FILTER_X86,
        lzma_init_function::SimplePowerpcDecoder => id == LZMA_FILTER_POWERPC,
        lzma_init_function::SimpleIa64Decoder => id == LZMA_FILTER_IA64,
        lzma_init_function::SimpleArmDecoder => id == LZMA_FILTER_ARM,
        lzma_init_function::SimpleArmthumbDecoder => id == LZMA_FILTER_ARMTHUMB,
        lzma_init_function::SimpleArm64Decoder => id == LZMA_FILTER_ARM64,
        lzma_init_function::SimpleSparcDecoder => id == LZMA_FILTER_SPARC,
        lzma_init_function::SimpleRiscvDecoder => id == LZMA_FILTER_RISCV,
        lzma_init_function::DeltaDecoder => id == LZMA_FILTER_DELTA,
    }
}

/// Memory estimate `m` is the one for filter `id`.
pub open spec fn memusage_estimates(m: lzma_memusage_function, id: lzma_vli) -> bool {
    match m {
        lzma_memusage_function::LzmaDecoder => id == LZMA_FILTER_LZMA1 || id
            == LZMA_FILTER_LZMA1EXT,
        lzma_memusage_function::Lzma2Decoder => id == LZMA_FILTER_LZMA2,
        lzma_memusage_function::DeltaCoder => id == LZMA_FILTER_DELTA,
    }
}

/// The entry found for `id` is the `k`-th of the table, when that entry has
/// ID `id`.
proof fn lemma_decoder_find_at(id: lzma_vli, k: int)
    requires
        0 <= k < spec_decoders().len(),
        spec_decoders()[k].id == id,
    ensures
        spec_decoder_find(id) == Some(spec_decoders()[k]),
{
    lemma_decoder_ids_distinct();
    let c = choose|i: int| 0 <= i < spec_decoders().len() && spec_decoders()[i].id == id;
    assert(c == k);
}

/// The supported decoder filters are exactly the LZMA, BCJ and delta
/// filters, the same filters the chain rules know. The entry found for a
/// filter sets up that filter's own decoder; the LZMA filters and delta have
/// a memory estimate of their own (that filter's), and the BCJ filters have
/// none.
pub proof fn lemma_supported_decoders(id: lzma_vli)
    ensures
        spec_decoder_find(id) is Some <==> (is_lzma_filter(id) || is_bcj_filter(id) || id
            == LZMA_FILTER_DELTA),
        spec_decoder_find(id) is Some <==> spec_feature(id) is Some,
        spec_decoder_find(id) matches Some(d) ==> d.id == id && init_decodes(d.init, id),
        spec_decoder_find(id) matches Some(d) ==> (d.memusage is None <==> is_bcj_filter(id)),
        spec_decoder_find(id) matches Some(d) ==> (d.memusage matches Some(m)
            ==> memusage_estimates(m, id)),
        spec_decoder_find(id) matches Some(d) ==> d.props_decode is Some,
{
    lemma_chain_features(id);
    let t = spec_decoders();
    if is_lzma_filter(id) || is_bcj_filter(id) || id == LZMA_FILTER_DELTA {
        let k: int = if id == LZMA_FILTER_LZMA1 {
            0
        } else if id == LZMA_FILTER_LZMA1EXT {
            1
        } else if id == LZMA_FILTER_LZMA2 {
            2
        } else if id == LZMA_FILTER_X86 {
            3
        } else if id == LZMA_FILTER_POWERPC {
            4
        } else if id == LZMA_FILTER_IA64 {
            5
        } else if id == LZMA_FILTER_ARM {
            6
        } else if id == LZMA_FILTER_ARMTHUMB {
            7
        } else if id == LZMA_FILTER_ARM64 {
            8
        } else if id == LZMA_FILTER_SPARC {
            9
        } else if id == LZMA_FILTER_RISCV {
            10
        } else {
            11
        };
        lemma_decoder_find_at(id, k);
    } else {
        assert(forall|i: int| 0 <= i < t.len() ==> t[i].id != id);
    }
}

/// Decoding a filter's properties uses that filter's own format: the LZMA1
/// filters a five-byte lc/lp/pb and dictionary field, LZMA2 a dictionary
/// byte, every BCJ filter an optional four-byte start offset (zero meaning
/// none), and delta a one-byte distance.
pub proof fn lemma_props_decoders(id: lzma_vli, props: Seq<u8>)
    requires
        spec_decoder_find(id) is Some,
    ensures
        spec_decoder_find(id).unwrap().props_decode matches Some(f) && {
            let r = spec_props_decode(f, props);
            &&& (id == LZMA_FILTER_LZMA1 || id == LZMA_FILTER_LZMA1EXT) ==> r == (if lzma_props_valid(
                props,
            ) {
                Ok(lzma_filter_options::Lzma(lzma_props_options(props)))
            } else {
                Err(LZMA_OPTIONS_ERROR)
            })
            &&& id == LZMA_FILTER_LZMA2 ==> r == (if props.len() == 1 && props[0] <= 40 {
                Ok(lzma_filter_options::Lzma(lzma2_props_options(props[0])))
            } else {
                Err(LZMA_OPTIONS_ERROR)
            })
            &&& is_bcj_filter(id) && props.len() == 0 ==> r == Ok::<
                lzma_filter_options,
                lzma_ret,
            >(lzma_filter_options::Unset)
            &&& is_bcj_filter(id) && props.len() == 4 ==> r == Ok::<lzma_filter_options, lzma_ret>(
                if spec_read32le(props, 0) == 0 {
                    lzma_filter_options::Unset
                } else {
                    lzma_filter_options::Bcj(
                        lzma_options_bcj { start_offset: spec_read32le(props, 0) },
                    )
                },
            )
            &&& is_bcj_filter(id) && props.len() != 0 && props.len() != 4 ==> r == Err::<
                lzma_filter_options,
                lzma_ret,
            >(LZMA_OPTIONS_ERROR)
            &&& id == LZMA_FILTER_DELTA ==> r == (if props.len() == 1 {
                Ok(
                    lzma_filter_options::Delta(
                        lzma_options_delta {
                            type_: LZMA_DELTA_TYPE_BYTE,
                            dist: (props[0] + 1) as u32,
                        },
                    ),
                )
            } else {
                Err(LZMA_OPTIONS_ERROR)
            })
        },
{
    lemma_supported_decoders(id);
    let t = spec_decoders();
    let k: int = if id == LZMA_FILTER_LZMA1 {
        0
    } else if id == LZMA_FILTER_LZMA1EXT {
        1
    } else if id == LZMA_FILTER_LZMA2 {
        2
    } else if id == LZMA_FILTER_X86 {
        3
    } else if id == LZMA_FILTER_POWERPC {
        4
    } else if id == LZMA_FILTER_IA64 {
        5
    } else if id == LZMA_FILTER_ARM {
        6
    } else if id == LZMA_FILTER_ARMTHUMB {
        7
    } else if id == LZMA_FILTER_ARM64 {
        8
    } else if id == LZMA_FILTER_SPARC {
        9
    } else if id == LZMA_FILTER_RISCV {
        10
    } else {
        11
    };
    lemma_decoder_find_at(id, k);
}

/// Looks up the decoder filter with ID `id`.
pub fn decoder_find(id: lzma_vli) -> (r: Option<lzma_filter_decoder>)
    ensures
        r == spec_decoder_find(id),
        r matches Some(d) ==> d.id == id,
{
    let table = decoders();
    let mut i: usize = 0;
    while i < table.len()
        invariant
            table@ == spec_decoders(),
            i <= table@.len(),
            forall|j: int| 0 <= j < i ==> table@[j].id != id,
        decreases table@.len() - i,
    {
        if table[i].id == id {
            proof {
                lemma_decoder_ids_distinct();
                let k = choose|k: int| 0 <= k < spec_decoders().len() && spec_decoders()[k].id == id;
                assert(k == i);
            }
            return Some(table[i]);
        }
        i += 1;
    }
    None
}

/// The shared part of the decoder filter with ID `id`.
pub fn coder_find(id: lzma_vli) -> (r: Option<lzma_filter_coder>)
    ensures
        r is Some <==> spec_decoder_find(id) is Some,
        r matches Some(c) ==> c.id == id && c.init == spec_decoder_find(id).unwrap().init
            && c.memusage == spec_decoder_find(id).unwrap().memusage,
{
    match decoder_find(id) {
        Some(d) => Some(lzma_filter_coder { id: d.id, init: d.init, memusage: d.memusage }),
        None => None,
    }
}

/// Whether filter `id` can be decoded: 1 when it is in the table, else 0.
pub fn lzma_filter_decoder_is_supported(id: lzma_vli) -> (r: u8)
    ensures
        r == 1 <==> spec_decoder_find(id) is Some,
        r == 0 <==> spec_decoder_find(id) is None,
{
    match decoder_find(id) {
        Some(_) => 1,
        None => 0,
    }
}

/// The LZMA1 options that a valid five-byte properties field describes:
/// the lc/lp/pb byte and the dictionary size; every other field zero.
pub open spec fn lzma_props_options(props: Seq<u8>) -> lzma_options_lzma {
    lzma_options_lzma {
        dict_size: spec_read32le(props, 1),
        preset_dict_size: 0,
        lc: lclppb_fields(props[0]).0,
        lp: lclppb_fields(props[0]).1,
        pb: lclppb_fields(props[0]).2,
        mode: 0,
        nice_len: 0,
        mf: 0,
        depth: 0,
        ext_flags: 0,
        ext_size_low: 0,
        ext_size_high: 0,
        reserved_int4: 0,
        reserved_int5: 0,
        reserved_int6: 0,
        reserved_int7: 0,
        reserved_int8: 0,
        reserved_enum1: 0,
        reserved_enum2: 0,
        reserved_enum3: 0,
        reserved_enum4: 0,
    }
}

/// A valid LZMA1 properties field: five bytes whose first one encodes lc,
/// lp and pb within their limits.
pub open spec fn lzma_props_valid(props: Seq<u8>) -> bool {
    &&& props.len() == 5
    &&& props[0] <= LZMA_LCLPPB_MAX_BYTE
    &&& lclppb_fields(props[0]).0 + lclppb_fields(props[0]).1 <= LZMA_LCLP_MAX
}

/// Decodes the properties of the LZMA1 filter: the lc/lp/pb byte and a
/// little-endian dictionary size (any size is accepted).
pub fn lzma_lzma_props_decode(props: &[u8]) -> (r: Result<lzma_options_lzma, lzma_ret>)
    ensures
        r is Ok <==> lzma_props_valid(props@),
        r matches Ok(o) ==> o == lzma_props_options(props@),
        r matches Err(e) ==> e == LZMA_OPTIONS_ERROR,
{
    if props.len() != 5 {
        return Err(LZMA_OPTIONS_ERROR);
    }
    match lzma_lzma_lclppb_decode(props[0]) {
        None => Err(LZMA_OPTIONS_ERROR),
        Some((lc, lp, pb)) => {
            let mut opt = lzma_options_lzma::zeroed();
            opt.lc = lc;
            opt.lp = lp;
            opt.pb = pb;
            opt.dict_size = read32le(props, 1);
            opt.preset_dict_size = 0;
            Ok(opt)
        },
    }
}

/// The dictionary size that an LZMA2 dictionary byte (at most 40) stands
/// for: 2 or 3 times a power of two, and `u32::MAX` for 40.
pub open spec fn lzma2_dict_size(b: u8) -> u32 {
    if b == 40 {
        0xFFFF_FFFF
    } else {
        ((2 | (b as u32 & 1)) << ((b / 2 + 11) as u32)) as u32
    }
}

/// The LZMA2 options that a valid dictionary byte describes; every other
/// field is zero.
pub open spec fn lzma2_props_options(b: u8) -> lzma_options_lzma {
    lzma_options_lzma {
        dict_size: lzma2_dict_size(b),
        preset_dict_size: 0,
        lc: 0,
        lp: 0,
        pb: 0,
        mode: 0,
        nice_len: 0,
        mf: 0,
        depth: 0,
        ext_flags: 0,
        ext_size_low: 0,
        ext_size_high: 0,
        reserved_int4: 0,
        reserved_int5: 0,
        reserved_int6: 0,
        reserved_int7: 0,
        reserved_int8: 0,
        reserved_enum1: 0,
        reserved_enum2: 0,
        reserved_enum3: 0,
        reserved_enum4: 0,
    }
}

/// Decodes the one-byte properties of the LZMA2 filter: the reserved top
/// two bits must be clear and the dictionary byte at most 40.
pub fn lzma_lzma2_props_decode(props: &[u8]) -> (r: Result<lzma_options_lzma, lzma_ret>)
    ensures
        r is Ok <==> props@.len() == 1 && props@[0] <= 40,
        r matches Ok(o) ==> o == lzma2_props_options(props@[0]),
        r matches Err(e) ==> e == LZMA_OPTIONS_ERROR,
{
    if props.len() != 1 {
        return Err(LZMA_OPTIONS_ERROR);
    }
    let b: u8 = props[0];
    assert(b <= 40 ==> b & 0xC0 == 0) by (bit_vector);
    if b & 0xC0 != 0 {
        return Err(LZMA_OPTIONS_ERROR);
    }
    if b > 40 {
        return Err(LZMA_OPTIONS_ERROR);
    }
    let mut opt = lzma_options_lzma::zeroed();
    if b == 40 {
        opt.dict_size = 0xFFFF_FFFF;
    } else {
        let base: u32 = 2 | (b as u32 & 1);
        let shift: u32 = (b / 2 + 11) as u32;
        assert(base <= 3 && shift <= 30) by (bit_vector)
            requires
                base == 2 | (b as u32 & 1),
                b < 40,
                shift == (b / 2 + 11) as u32,
        ;
        opt.dict_size = base << shift;
    }
    opt.preset_dict_size = 0;
    Ok(opt)
}

/// Decodes the properties of a BCJ filter: none at all, or a four-byte
/// little-endian start offset; an offset of zero leaves no options.
pub fn lzma_simple_props_decode(props: &[u8]) -> (r: Result<lzma_filter_options, lzma_ret>)
    ensures
        r is Ok <==> props@.len() == 0 || props@.len() == 4,
        props@.len() == 0 ==> r == Ok::<lzma_filter_options, lzma_ret>(lzma_filter_options::Unset),
        props@.len() == 4 && spec_read32le(props@, 0) == 0 ==> r == Ok::<
            lzma_filter_options,
            lzma_ret,
        >(lzma_filter_options::Unset),
        props@.len() == 4 && spec_read32le(props@, 0) != 0 ==> r == Ok::<
            lzma_filter_options,
            lzma_ret,
        >(lzma_filter_options::Bcj(lzma_options_bcj { start_offset: spec_read32le(props@, 0) })),
        r matches Err(e) ==> e == LZMA_OPTIONS_ERROR,
{
    if props.len() == 0 {
        return Ok(lzma_filter_options::Unset);
    }
    if props.len() != 4 {
        return Err(LZMA_OPTIONS_ERROR);
    }
    let start_offset = read32le(props, 0);
    if start_offset == 0 {
        Ok(lzma_filter_options::Unset)
    } else {
        Ok(lzma_filter_options::Bcj(lzma_options_bcj { start_offset }))
    }
}

/// Decodes the one-byte properties of the delta filter: the distance minus
/// one.
pub fn lzma_delta_props_decode(props: &[u8]) -> (r: Result<lzma_filter_options, lzma_ret>)
    ensures
        r is Ok <==> props@.len() == 1,
        props@.len() == 1 ==> r == Ok::<lzma_filter_options, lzma_ret>(
            lzma_filter_options::Delta(
                lzma_options_delta { type_: LZMA_DELTA_TYPE_BYTE, dist: (props@[0] + 1) as u32 },
            ),
        ),
        r matches Err(e) ==> e == LZMA_OPTIONS_ERROR,
{
    if props.len() != 1 {
        return Err(LZMA_OPTIONS_ERROR);
    }
    let dist: u32 = props[0] as u32 + 1;
    Ok(lzma_filter_options::Delta(lzma_options_delta { type_: LZMA_DELTA_TYPE_BYTE, dist }))
}

/// What decoding `props` with properties decoder `f` gives.
pub open spec fn spec_props_decode(f: lzma_props_decode_function, props: Seq<u8>) -> Result<
    lzma_filter_options,
    lzma_ret,
> {
    match f {
        lzma_props_decode_function::Lzma => if lzma_props_valid(props) {
            Ok(lzma_filter_options::Lzma(lzma_props_options(props)))
        } else {
            Err(LZMA_OPTIONS_ERROR)
        },
        lzma_props_decode_function::Lzma2 => if props.len() == 1 && props[0] <= 40 {
            Ok(lzma_filter_options::Lzma(lzma2_props_options(props[0])))
        } else {
            Err(LZMA_OPTIONS_ERROR)
        },
        lzma_props_decode_function::Simple => if props.len() == 0 {
            Ok(lzma_filter_options::Unset)
        } else if props.len() != 4 {
            Err(LZMA_OPTIONS_ERROR)
        } else if spec_read32le(props, 0) == 0 {
            Ok(lzma_filter_options::Unset)
        } else {
            Ok(
                lzma_filter_options::Bcj(
                    lzma_options_bcj { start_offset: spec_read32le(props, 0) },
                ),
            )
        },
        lzma_props_decode_function::Delta => if props.len() == 1 {
            Ok(
                lzma_filter_options::Delta(
                    lzma_options_delta {
                        type_: LZMA_DELTA_TYPE_BYTE,
                        dist: (props[0] + 1) as u32,
                    },
                ),
            )
        } else {
            Err(LZMA_OPTIONS_ERROR)
        },
    }
}

/// Decodes the properties field `props` of the filter `filter.id` into
/// `filter.options`. Returns `LZMA_OPTIONS_ERROR` (with no options) for an
/// unknown filter ID or properties that filter rejects.
pub fn lzma_properties_decode(filter: &mut lzma_filter, props: &[u8]) -> (r: lzma_ret)
    ensures
        final(filter).id == old(filter).id,
        spec_decoder_find(old(filter).id) is None ==> r == LZMA_OPTIONS_ERROR
            && final(filter).options == lzma_filter_options::Unset,
        spec_decoder_find(old(filter).id) matches Some(d) ==> match d.props_decode {
            None => r == (if props@.len() == 0 {
                LZMA_OK
            } else {
                LZMA_OPTIONS_ERROR
            }) && final(filter).options == lzma_filter_options::Unset,
            Some(f) => match spec_props_decode(f, props@) {
                Ok(o) => r == LZMA_OK && final(filter).options == o,
                Err(e) => r == e && final(filter).options == lzma_filter_options::Unset,
            },
        },
{
    filter.options = lzma_filter_options::Unset;
    let fd = match decoder_find(filter.id) {
        Some(fd) => fd,
        None => return LZMA_OPTIONS_ERROR,
    };
    let f = match fd.props_decode {
        None => {
            return if props.len() == 0 {
                LZMA_OK
            } else {
                LZMA_OPTIONS_ERROR
            };
        },
        Some(f) => f,
    };
    let decoded: Result<lzma_filter_options, lzma_ret> = match f {
        lzma_props_decode_function::Lzma => match lzma_lzma_props_decode(props) {
            Ok(o) => Ok(lzma_filter_options::Lzma(o)),
            Err(e) => Err(e),
        },
        lzma_props_decode_function::Lzma2 => match lzma_lzma2_props_decode(props) {
            Ok(o) => Ok(lzma_filter_options::Lzma(o)),
            Err(e) => Err(e),
        },
        lzma_props_decode_function::Simple => lzma_simple_props_decode(props),
        lzma_props_decode_function::Delta => lzma_delta_props_decode(props),
    };
    match decoded {
        Ok(o) => {
            filter.options = o;
            LZMA_OK
        },
        Err(e) => e,
    }
}

/// One filter of a chain as handed to the coder setup: its ID, the setup
/// function of its coder, and its options.
pub struct lzma_filter_info {
    pub id: lzma_vli,
    pub init: lzma_init_function,
    pub options: lzma_filter_options,
}

/// Every filter that may appear in a chain has a decoder.
pub proof fn lemma_chain_filters_have_decoders(id: lzma_vli)
    requires
        spec_feature(id) is Some,
    ensures
        spec_decoder_find(id) is Some,
{
    let t = spec_decoders();
    let k: int = if id == LZMA_FILTER_LZMA1 {
        0
    } else if id == LZMA_FILTER_LZMA1EXT {
        1
    } else if id == LZMA_FILTER_LZMA2 {
        2
    } else if id == LZMA_FILTER_X86 {
        3
    } else if id == LZMA_FILTER_POWERPC {
        4
    } else if id == LZMA_FILTER_IA64 {
        5
    } else if id == LZMA_FILTER_ARM {
        6
    } else if id == LZMA_FILTER_ARMTHUMB {
        7
    } else if id == LZMA_FILTER_ARM64 {
        8
    } else if id == LZMA_FILTER_SPARC {
        9
    } else if id == LZMA_FILTER_RISCV {
        10
    } else {
        11
    };
    assert(0 <= k < t.len() && t[k].id == id);
}

/// `infos` is the decoder setup of the first `n` filters of `filters`.
pub open spec fn decoder_infos(infos: Seq<lzma_filter_info>, filters: Seq<lzma_filter>, n: int) -> bool {
    &&& infos.len() == n
    &&& forall|i: int|
        0 <= i < n ==> {
            &&& (#[trigger] infos[i]).id == filters[i].id
            &&& infos[i].init == spec_decoder_find(filters[i].id).unwrap().init
            &&& infos[i].options == filters[i].options
        }
}

/// Sets up a chain of raw decoders for the filter chain in `options` (ended
/// by an entry with ID `LZMA_VLI_UNKNOWN`). An empty chain is a programming
/// error and a chain breaking the chain rules an options error; both leave
/// `next` as it was. Otherwise the decoders of the chain are set up; they run
/// outside this library, and `decoders_init_ret` is what their own set-up
/// returned (each checks its own options). On its success `next` holds the
/// decoders of the chain, first filter first; on its failure that is the
/// result and `next` is left empty.
pub fn lzma_raw_decoder_init(
    next: &mut lzma_next_coder,
    options: &[lzma_filter],
    decoders_init_ret: lzma_ret,
) -> (r: lzma_ret)
    requires
        exists|n: int| chain_len_is(options@, n),
    ensures
        forall|n: int|
            chain_len_is(options@, n) ==> {
                &&& (!chain_valid(options@, n) ==> *final(next) == *old(next) && ((n == 0 && r
                    == LZMA_PROG_ERROR) || (n > 0 && r == LZMA_OPTIONS_ERROR)))
                &&& (chain_valid(options@, n) ==> r == decoders_init_ret)
                &&& (chain_valid(options@, n) && r != LZMA_OK ==> next_coder_is_init(*final(next)))
                &&& (r == LZMA_OK ==> final(next).id == options@[0].id && final(next).init
                    == LZMA_INIT_RAW_DECODER && (final(next).coder matches Some(
                    lzma_coder::RawDecoder(infos),
                ) && decoder_infos(infos@, options@, n)))
            },
{
    let ghost n = choose|n: int| chain_len_is(options@, n);
    let count = match validate_chain(options) {
        Ok(c) => c,
        Err(e) => {
            return e;
        },
    };
    let mut infos: Vec<lzma_filter_info> = Vec::new();
    let mut i: usize = 0;
    while i < count
        invariant
            chain_len_is(options@, n),
            count == n,
            chain_valid(options@, n),
            i <= count,
            decoder_infos(infos@, options@, i as int),
        decreases count - i,
    {
        proof {
            assert(spec_feature(options@[i as int].id) is Some);
            lemma_chain_filters_have_decoders(options@[i as int].id);
        }
        let fc = match coder_find(options[i].id) {
            Some(fc) => fc,
            None => {
                return LZMA_OPTIONS_ERROR;
            },
        };
        infos.push(lzma_filter_info { id: options[i].id, init: fc.init, options: options[i].options });
        i += 1;
    }
    lzma_next_end(next);
    if decoders_init_ret != LZMA_OK {
        return decoders_init_ret;
    }
    next.id = options[0].id;
    next.coder = Some(lzma_coder::RawDecoder(infos));
    next.init = LZMA_INIT_RAW_DECODER;
    LZMA_OK
}

/// Makes `strm` a raw decoder for the filter chain in `options`, accepting
/// the run and finish actions. The result is as for `lzma_raw_decoder_init`
/// (with `decoders_init_ret`, what the decoders' own set-up returned); on
/// failure the stream is left without a coder.
pub fn lzma_raw_decoder(
    strm: &mut lzma_stream,
    options: &[lzma_filter],
    decoders_init_ret: lzma_ret,
) -> (r: lzma_ret)
    requires
        exists|n: int| chain_len_is(options@, n),
    ensures
        final(strm).total_in == 0 && final(strm).total_out == 0,
        r != LZMA_OK ==> final(strm).internal is None,
        forall|n: int|
            chain_len_is(options@, n) ==> {
                &&& (!chain_valid(options@, n) ==> ((n == 0 && r == LZMA_PROG_ERROR) || (n > 0
                    && r == LZMA_OPTIONS_ERROR)))
                &&& (chain_valid(options@, n) ==> r == decoders_init_ret)
                &&& (r == LZMA_OK ==> (final(strm).internal matches Some(i) && {
                    &&& i.supported_actions@ == seq![true, false, false, true, false]
                    &&& i.sequence == ISEQ_RUN
                    &&& !i.allow_buf_error
                    &&& i.next.id == options@[0].id
                    &&& i.next.init == LZMA_INIT_RAW_DECODER
                    &&& (i.next.coder matches Some(lzma_coder::RawDecoder(infos))
                        && decoder_infos(infos@, options@, n))
                }))
            },
{
    let ret = lzma_strm_init(strm);
    if ret != LZMA_OK {
        return ret;
    }
    let mut internal = match strm.internal.take() {
        Some(b) => b,
        None => {
            return LZMA_PROG_ERROR;
        },
    };
    let ret = lzma_raw_decoder_init(&mut internal.next, options, decoders_init_ret);
    if ret != LZMA_OK {
        strm.internal = Some(internal);
        lzma_end(strm);
        return ret;
    }
    internal.supported_actions[LZMA_RUN] = true;
    internal.supported_actions[LZMA_FINISH] = true;
    strm.internal = Some(internal);
    LZMA_OK
}

/// Fixed amount added to every memory usage estimate, for the coders around
/// the filters and the allocator's overhead.
pub const LZMA_MEMUSAGE_BASE: u64 = 32768;

/// Memory usage assumed for a filter that has no estimate of its own.
pub const LZMA_SMALL_FILTER_MEMUSAGE: u64 = 1024;

/// The memory usage counted for filter `i` of a chain: its decoder's own
/// estimate from `usages`, or 1 KiB for a filter without one.
pub open spec fn filter_usage(filters: Seq<lzma_filter>, usages: Seq<u64>, i: int) -> int {
    if spec_decoder_find(filters[i].id).unwrap().memusage is None {
        LZMA_SMALL_FILTER_MEMUSAGE as int
    } else {
        usages[i] as int
    }
}

/// Sum of the memory usage of the first `k` filters.
pub open spec fn usage_sum(filters: Seq<lzma_filter>, usages: Seq<u64>, k: int) -> int
    decreases k,
{
    if k <= 0 {
        0
    } else {
        usage_sum(filters, usages, k - 1) + filter_usage(filters, usages, k - 1)
    }
}

/// One of the first `n` filters has an estimate that rejected its options.
pub open spec fn usage_rejected(filters: Seq<lzma_filter>, usages: Seq<u64>, n: int) -> bool {
    exists|i: int|
        0 <= i < n && spec_decoder_find(filters[i].id).unwrap().memusage is Some && usages[i]
            == u64::MAX
}

/// Estimates the memory a raw decoder for the filter chain in `filters`
/// (ended by an entry with ID `LZMA_VLI_UNKNOWN`) needs. The estimates of
/// the LZMA1, LZMA2 and delta decoders run outside this library: `usages[i]`
/// is what the estimate of filter `i`'s decoder returned for its options
/// (`u64::MAX` when it rejects them); it is not read for the filters without
/// an estimate, which count 1 KiB. The result is `u64::MAX` for a chain that
/// breaks the chain rules or has rejected options, and otherwise the sum plus
/// `LZMA_MEMUSAGE_BASE`, wrapping around as unsigned arithmetic does.
pub fn lzma_raw_decoder_memusage(filters: &[lzma_filter], usages: &[u64]) -> (r: u64)
    requires
        exists|n: int| chain_len_is(filters@, n),
        forall|n: int| chain_len_is(filters@, n) ==> n <= usages@.len(),
    ensures
        forall|n: int|
            chain_len_is(filters@, n) ==> r == (if !chain_valid(filters@, n) || usage_rejected(
                filters@,
                usages@,
                n,
            ) {
                u64::MAX
            } else {
                #[verifier::truncate] ((usage_sum(filters@, usages@, n) + LZMA_MEMUSAGE_BASE) as u64)
            }),
{
    let ghost n = choose|n: int| chain_len_is(filters@, n);
    let count = match validate_chain(filters) {
        Ok(c) => c,
        Err(_) => {
            return u64::MAX;
        },
    };
    let mut total: u128 = 0;
    let mut i: usize = 0;
    while i < count
        invariant
            chain_len_is(filters@, n),
            count == n,
            n <= usages@.len(),
            chain_valid(filters@, n),
            i <= count,
            total == usage_sum(filters@, usages@, i as int),
            total <= i * 0x1_0000_0000_0000_0000,
            forall|k: int|
                0 <= k < i ==> !(spec_decoder_find(filters@[k].id).unwrap().memusage is Some
                    && usages@[k] == u64::MAX),
        decreases count - i,
    {
        proof {
            assert(spec_feature(filters@[i as int].id) is Some);
            lemma_chain_filters_have_decoders(filters@[i as int].id);
        }
        let fc = match coder_find(filters[i].id) {
            Some(fc) => fc,
            None => {
                return u64::MAX;
            },
        };
        let usage: u64 = match fc.memusage {
            None => LZMA_SMALL_FILTER_MEMUSAGE,
            Some(_) => {
                if usages[i] == u64::MAX {
                    return u64::MAX;
                }
                usages[i]
            },
        };
        total = total + usage as u128;
        i += 1;
    }
    let sum: u128 = total + LZMA_MEMUSAGE_BASE as u128;
    #[verifier::truncate]
    (sum as u64)
}

/// A raw decoder set up for a valid chain decodes each filter with that
/// filter's own decoder, in chain order, and hands it that filter's options.
pub proof fn lemma_raw_decoder_uses_each_filters_decoder(
    infos: Seq<lzma_filter_info>,
    filters: Seq<lzma_filter>,
    n: int,
)
    requires
        chain_valid(filters, n),
        decoder_infos(infos, filters, n),
    ensures
        forall|i: int|
            0 <= i < n ==> init_decodes(#[trigger] infos[i].init, filters[i].id) && infos[i].id
                == filters[i].id && infos[i].options == filters[i].options,
{
    assert forall|i: int| 0 <= i < n implies init_decodes(#[trigger] infos[i].init, filters[i].id)
        by {
        assert(spec_feature(filters[i].id) is Some);
        lemma_supported_decoders(filters[i].id);
    }
}

/// In the memory usage of a valid chain, each LZMA or delta filter counts
/// its own decoder's estimate and each BCJ filter counts 1 KiB; the chain is
/// rejected exactly when one of the estimates counted rejected its options.
pub proof fn lemma_memusage_counts_own_estimates(
    filters: Seq<lzma_filter>,
    usages: Seq<u64>,
    n: int,
)
    requires
        chain_valid(filters, n),
    ensures
        forall|i: int|
            0 <= i < n ==> #[trigger] filter_usage(filters, usages, i) == (if is_bcj_filter(
                filters[i].id,
            ) {
                LZMA_SMALL_FILTER_MEMUSAGE as int
            } else {
                usages[i] as int
            }),
        usage_rejected(filters, usages, n) <==> exists|i: int|
            0 <= i < n && !is_bcj_filter(filters[i].id) && usages[i] == u64::MAX,
{
    assert forall|i: int| 0 <= i < n implies #[trigger] filter_usage(filters, usages, i) == (
    if is_bcj_filter(filters[i].id) {
        LZMA_SMALL_FILTER_MEMUSAGE as int
    } else {
        usages[i] as int
    }) by {
        assert(spec_feature(filters[i].id) is Some);
        lemma_supported_decoders(filters[i].id);
    }
    if usage_rejected(filters, usages, n) {
        let i = choose|i: int|
            0 <= i < n && spec_decoder_find(filters[i].id).unwrap().memusage is Some && usages[i]
                == u64::MAX;
        assert(spec_feature(filters[i].id) is Some);
        lemma_supported_decoders(filters[i].id);
        assert(0 <= i < n && !is_bcj_filter(filters[i].id) && usages[i] == u64::MAX);
    }
    if exists|i: int| 0 <= i < n && !is_bcj_filter(filters[i].id) && usages[i] == u64::MAX {
        let i = choose|i: int| 0 <= i < n && !is_bcj_filter(filters[i].id) && usages[i] == u64::MAX;
        assert(spec_feature(filters[i].id) is Some);
        lemma_supported_decoders(filters[i].id);
        assert(0 <= i < n && spec_decoder_find(filters[i].id).unwrap().memusage is Some
            && usages[i] == u64::MAX);
    }
}

} // verus!
