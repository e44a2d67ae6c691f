//! Rules that every filter chain must follow: which filters exist, which
//! may stand before another filter, which may end a chain, and how many
//! filters a chain may hold.
use vstd::prelude::*;
use crate::options::{
    lzma_filter, lzma_ret, lzma_vli, LZMA_FILTER_ARM, LZMA_FILTER_ARM64, LZMA_FILTER_ARMTHUMB,
    LZMA_FILTER_DELTA, LZMA_FILTER_IA64, LZMA_FILTER_LZMA1, LZMA_FILTER_LZMA1EXT,
    LZMA_FILTER_LZMA2, LZMA_FILTER_POWERPC, LZMA_FILTER_RISCV, LZMA_FILTER_SPARC, LZMA_FILTER_X86,
    LZMA_OPTIONS_ERROR, LZMA_PROG_ERROR, LZMA_VLI_UNKNOWN,
};

verus! {

/// Largest number of filters in a chain.
pub const LZMA_FILTERS_MAX: usize = 4;

/// What a filter allows in a chain: whether another filter may follow it,
/// whether it may be the last one, and whether it changes the size of the
/// data noticeably.
#[derive(Clone, Copy, Debug, PartialEq, Eq)]
pub struct filter_feature {
    pub id: lzma_vli,
    pub non_last_ok: bool,
    pub last_ok: bool,
    pub changes_size: bool,
}

/// The BCJ (branch/call/jump converter) filters: x86, PowerPC, IA-64, ARM,
/// ARM-Thumb, ARM64, SPARC and RISC-V.
pub open spec fn is_bcj_filter(id: lzma_vli) -> bool {
    ||| id == LZMA_FILTER_X86
    ||| id == LZMA_FILTER_POWERPC
    ||| id == LZMA_FILTER_IA64
    ||| id == LZMA_FILTER_ARM
    ||| id == LZMA_FILTER_ARMTHUMB
    ||| id == LZMA_FILTER_ARM64
    ||| id == LZMA_FILTER_SPARC
    ||| id == LZMA_FILTER_RISCV
}

/// The LZMA filters: LZMA1, LZMA1 with extensions, and LZMA2.
pub open spec fn is_lzma_filter(id: lzma_vli) -> bool {
    id == LZMA_FILTER_LZMA1 || id == LZMA_FILTER_LZMA1EXT || id == LZMA_FILTER_LZMA2
}

/// The features of a filter ID, or `None` for an unknown filter. The LZMA
/// filters may only end a chain and change the size of the data; the BCJ
/// and delta filters may not end a chain.
pub open spec fn spec_feature(id: lzma_vli) -> Option<filter_feature> {
    if id == LZMA_FILTER_LZMA1 || id == LZMA_FILTER_LZMA1EXT || id == LZMA_FILTER_LZMA2 {
        Some(filter_feature { id, non_last_ok: false, last_ok: true, changes_size: true })
    } else if id == LZMA_FILTER_X86 || id == LZMA_FILTER_POWERPC || id == LZMA_FILTER_IA64 || id
        == LZMA_FILTER_ARM || id == LZMA_FILTER_ARMTHUMB || id == LZMA_FILTER_ARM64 || id
        == LZMA_FILTER_SPARC || id == LZMA_FILTER_RISCV || id == LZMA_FILTER_DELTA {
        Some(filter_feature { id, non_last_ok: true, last_ok: false, changes_size: false })
    } else {
        None
    }
}

/// Looks up the chain features of filter `id`.
pub fn feature_find(id: lzma_vli) -> (r: Option<filter_feature>)
    ensures
        r == spec_feature(id),
{
    if id == LZMA_FILTER_LZMA1 || id == LZMA_FILTER_LZMA1EXT || id == LZMA_FILTER_LZMA2 {
        Some(filter_feature { id, non_last_ok: false, last_ok: true, changes_size: true })
    } else if id == LZMA_FILTER_X86 || id == LZMA_FILTER_POWERPC || id == LZMA_FILTER_IA64 || id
        == LZMA_FILTER_ARM || id == LZMA_FILTER_ARMTHUMB || id == LZMA_FILTER_ARM64 || id
        == LZMA_FILTER_SPARC || id == LZMA_FILTER_RISCV || id == LZMA_FILTER_DELTA {
        Some(filter_feature { id, non_last_ok: true, last_ok: false, changes_size: false })
    } else {
        None
    }
}

/// The chain in `filters` ends (with the terminator) at position `n`.
pub open spec fn chain_len_is(filters: Seq<lzma_filter>, n: int) -> bool {
    &&& 0 <= n < filters.len()
    &&& filters[n].id == LZMA_VLI_UNKNOWN
    &&& forall|i: int| 0 <= i < n ==> filters[i].id != LZMA_VLI_UNKNOWN
}

/// Number of filters among the first `n` that change the size of the data.
pub open spec fn size_changing_count(filters: Seq<lzma_filter>, n: int) -> nat
    decreases n,
{
    if n <= 0 {
        0
    } else {
        size_changing_count(filters, n - 1) + (if spec_feature(filters[n - 1].id) matches Some(f)
            && f.changes_size {
            1nat
        } else {
            0nat
        })
    }
}

/// A chain of `n` filters is valid: one to four known filters, each but the
/// last allowing a successor, the last allowed to end a chain, and at most
/// three changing the size of the data.
pub open spec fn chain_valid(filters: Seq<lzma_filter>, n: int) -> bool {
    &&& 1 <= n <= LZMA_FILTERS_MAX
    &&& forall|i: int| 0 <= i < n ==> #[trigger] spec_feature(filters[i].id) is Some
    &&& forall|i: int| 0 <= i < n - 1 ==> #[trigger] spec_feature(filters[i].id).unwrap().non_last_ok
    &&& spec_feature(filters[n - 1].id).unwrap().last_ok
    &&& size_changing_count(filters, n) <= 3
}

/// The known filters are the LZMA, BCJ and delta filters. An LZMA filter
/// changes the size of the data and may only end a chain; a BCJ or delta
/// filter keeps the size and may only stand before another filter.
pub proof fn lemma_chain_features(id: lzma_vli)
    ensures
        spec_feature(id) is Some <==> (is_lzma_filter(id) || is_bcj_filter(id) || id
            == LZMA_FILTER_DELTA),
        spec_feature(id) matches Some(f) ==> f.id == id,
        is_lzma_filter(id) ==> (spec_feature(id) matches Some(f) && !f.non_last_ok && f.last_ok
            && f.changes_size),
        is_bcj_filter(id) || id == LZMA_FILTER_DELTA ==> (spec_feature(id) matches Some(f)
            && f.non_last_ok && !f.last_ok && !f.changes_size),
{
}

/// A BCJ or delta filter followed by an LZMA filter is a valid chain of two
/// filters.
pub proof fn lemma_filter_before_lzma_is_valid(filters: Seq<lzma_filter>)
    requires
        chain_len_is(filters, 2),
        is_bcj_filter(filters[0].id) || filters[0].id == LZMA_FILTER_DELTA,
        is_lzma_filter(filters[1].id),
    ensures
        chain_valid(filters, 2),
{
    lemma_chain_features(filters[0].id);
    lemma_chain_features(filters[1].id);
    assert(size_changing_count(filters, 0) == 0);
    assert(size_changing_count(filters, 1) == 0);
    assert(size_changing_count(filters, 2) == 1);
}

/// Checks the filter chain in `filters` (ended by an entry with ID
/// `LZMA_VLI_UNKNOWN`) and returns the number of filters in it. An empty
/// chain is a programming error (`LZMA_PROG_ERROR`); a chain that breaks
/// the rules gives `LZMA_OPTIONS_ERROR`.
pub fn validate_chain(filters: &[lzma_filter]) -> (r: Result<usize, lzma_ret>)
    requires
        exists|n: int| chain_len_is(filters@, n),
    ensures
        forall|n: int|
            chain_len_is(filters@, n) ==> match r {
                Ok(count) => count == n && chain_valid(filters@, n),
                Err(e) => (n == 0 && e == LZMA_PROG_ERROR) || (n > 0 && e == LZMA_OPTIONS_ERROR
                    && !chain_valid(filters@, n)),
            },
{
    let ghost n = choose|n: int| chain_len_is(filters@, n);
    if filters[0].id == LZMA_VLI_UNKNOWN {
        return Err(LZMA_PROG_ERROR);
    }
    let mut changes_size_count: usize = 0;
    let mut non_last_ok = true;
    let mut last_ok = false;
    let mut i: usize = 0;
    loop
        invariant_except_break
            changes_size_count == size_changing_count(filters@, i as int),
            changes_size_count <= i,
            i > 0 ==> spec_feature(filters@[i - 1].id) is Some,
            i > 0 ==> non_last_ok == spec_feature(filters@[i - 1].id).unwrap().non_last_ok,
            i > 0 ==> last_ok == spec_feature(filters@[i - 1].id).unwrap().last_ok,
            i == 0 ==> non_last_ok,
            forall|k: int| 0 <= k < i ==> #[trigger] spec_feature(filters@[k].id) is Some,
            forall|k: int| 0 <= k < i - 1 ==> #[trigger] spec_feature(
                filters@[k].id,
            ).unwrap().non_last_ok,
        invariant
            chain_len_is(filters@, n),
            0 <= i < n,
        ensures
            i == n - 1,
            spec_feature(filters@[i as int].id) is Some,
            last_ok == spec_feature(filters@[i as int].id).unwrap().last_ok,
            changes_size_count == size_changing_count(filters@, n),
            changes_size_count <= n,
            forall|k: int| 0 <= k < n ==> #[trigger] spec_feature(filters@[k].id) is Some,
            forall|k: int| 0 <= k < n - 1 ==> #[trigger] spec_feature(
                filters@[k].id,
            ).unwrap().non_last_ok,
        decreases n - i,
    {
        let f = match feature_find(filters[i].id) {
            Some(f) => f,
            None => {
                return Err(LZMA_OPTIONS_ERROR);
            },
        };
        if !non_last_ok {
            return Err(LZMA_OPTIONS_ERROR);
        }
        non_last_ok = f.non_last_ok;
        last_ok = f.last_ok;
        if f.changes_size {
            changes_size_count = changes_size_count + 1;
        }
        if filters[i + 1].id == LZMA_VLI_UNKNOWN {
            break;
        }
        i += 1;
    }
    let count = i + 1;
    if count > LZMA_FILTERS_MAX || !last_ok || changes_size_count > 3 {
        return Err(LZMA_OPTIONS_ERROR);
    }
    Ok(count)
}

} // verus!
