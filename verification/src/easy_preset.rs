//! Filter chain of the "easy" presets: a single LZMA2 filter set up from a
//! preset.
use vstd::prelude::*;
use crate::options::{
    lzma_filter, lzma_filter_options, lzma_lzma_preset, lzma_options_lzma, options_from_preset,
    preset_accepted, LZMA_FILTER_LZMA2, LZMA_VLI_UNKNOWN,
};

verus! {

/// Room for a filter chain of up to four filters plus its terminator, and
/// the LZMA options its first filter uses.
pub struct lzma_options_easy {
    pub filters: [lzma_filter; 5],
    pub opt_lzma: lzma_options_lzma,
}

/// Sets up `opt_easy` for preset `preset`: its LZMA options get the preset's
/// settings, and its chain becomes LZMA2 (with those options) followed by
/// the terminator. Returns true, changing nothing, when the preset is not
/// supported.
pub fn lzma_easy_preset(opt_easy: &mut lzma_options_easy, preset: u32) -> (r: bool)
    ensures
        r == !preset_accepted(preset),
        r ==> final(opt_easy).opt_lzma == old(opt_easy).opt_lzma && final(opt_easy).filters
            == old(opt_easy).filters,
        !r ==> {
            &&& options_from_preset(old(opt_easy).opt_lzma, final(opt_easy).opt_lzma, preset)
            &&& final(opt_easy).filters[0] == (lzma_filter {
                id: LZMA_FILTER_LZMA2,
                options: lzma_filter_options::Lzma(final(opt_easy).opt_lzma),
            })
            &&& final(opt_easy).filters[1].id == LZMA_VLI_UNKNOWN
            &&& final(opt_easy).filters[1].options == old(opt_easy).filters[1].options
            &&& final(opt_easy).filters[2] == old(opt_easy).filters[2]
            &&& final(opt_easy).filters[3] == old(opt_easy).filters[3]
            &&& final(opt_easy).filters[4] == old(opt_easy).filters[4]
        },
{
    if lzma_lzma_preset(&mut opt_easy.opt_lzma, preset) {
        return true;
    }
    opt_easy.filters[0] = lzma_filter {
        id: LZMA_FILTER_LZMA2,
        options: lzma_filter_options::Lzma(opt_easy.opt_lzma),
    };
    let second = lzma_filter { id: LZMA_VLI_UNKNOWN, options: opt_easy.filters[1].options };
    opt_easy.filters[1] = second;
    false
}

} // verus!
