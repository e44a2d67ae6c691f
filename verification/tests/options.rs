use lib::easy_preset::{lzma_easy_preset, lzma_options_easy};
use lib::options::{
    lzma_filter, lzma_filter_options, lzma_lzma_lclppb_decode, lzma_lzma_lclppb_encode,
    lzma_lzma_preset, lzma_options_lzma, LZMA_FILTER_LZMA2, LZMA_MF_BT4, LZMA_MF_HC3,
    LZMA_MF_HC4, LZMA_MODE_FAST, LZMA_MODE_NORMAL, LZMA_PRESET_EXTREME, LZMA_VLI_UNKNOWN,
};

fn opts(lc: u32, lp: u32, pb: u32) -> lzma_options_lzma {
    let mut o = lzma_options_lzma::zeroed();
    o.lc = lc;
    o.lp = lp;
    o.pb = pb;
    o
}

#[test]
fn lclppb_encode_values() {
    assert_eq!(lzma_lzma_lclppb_encode(&opts(3, 0, 2)), Some(0x5D));
    assert_eq!(lzma_lzma_lclppb_encode(&opts(0, 0, 0)), Some(0));
    assert_eq!(lzma_lzma_lclppb_encode(&opts(4, 0, 4)), Some(184));
    assert_eq!(lzma_lzma_lclppb_encode(&opts(0, 4, 4)), Some(216));
    assert_eq!(lzma_lzma_lclppb_encode(&opts(5, 0, 0)), None);
    assert_eq!(lzma_lzma_lclppb_encode(&opts(3, 2, 0)), None);
    assert_eq!(lzma_lzma_lclppb_encode(&opts(0, 0, 5)), None);
}

#[test]
fn lclppb_decode_values() {
    assert_eq!(lzma_lzma_lclppb_decode(0x5D), Some((3, 0, 2)));
    assert_eq!(lzma_lzma_lclppb_decode(224), None);
    assert_eq!(lzma_lzma_lclppb_decode(225), None);
    assert_eq!(lzma_lzma_lclppb_decode(13), None);
    assert_eq!(lzma_lzma_lclppb_decode(216), Some((0, 4, 4)));
}

#[test]
fn lclppb_roundtrip_over_all_valid_settings() {
    for pb in 0..=4 {
        for lp in 0..=4 {
            for lc in 0..=(4 - lp) {
                let b = lzma_lzma_lclppb_encode(&opts(lc, lp, pb)).unwrap();
                assert_eq!(lzma_lzma_lclppb_decode(b), Some((lc, lp, pb)));
            }
        }
    }
    for b in 0..=255u8 {
        if let Some((lc, lp, pb)) = lzma_lzma_lclppb_decode(b) {
            assert_eq!(lzma_lzma_lclppb_encode(&opts(lc, lp, pb)), Some(b));
        }
    }
}

#[test]
fn presets_set_the_documented_settings() {
    let mut o = lzma_options_lzma::zeroed();
    o.ext_flags = 7;
    assert!(!lzma_lzma_preset(&mut o, 6));
    assert_eq!((o.dict_size, o.lc, o.lp, o.pb), (1 << 23, 3, 0, 2));
    assert_eq!((o.mode, o.mf, o.nice_len, o.depth), (LZMA_MODE_NORMAL, LZMA_MF_BT4, 64, 0));
    assert_eq!(o.ext_flags, 7);

    assert!(!lzma_lzma_preset(&mut o, 0));
    assert_eq!(o.dict_size, 1 << 18);
    assert_eq!((o.mode, o.mf, o.nice_len, o.depth), (LZMA_MODE_FAST, LZMA_MF_HC3, 128, 4));

    assert!(!lzma_lzma_preset(&mut o, 2));
    assert_eq!(o.dict_size, 1 << 21);
    assert_eq!((o.mode, o.mf, o.nice_len, o.depth), (LZMA_MODE_FAST, LZMA_MF_HC4, 273, 24));

    assert!(!lzma_lzma_preset(&mut o, 4));
    assert_eq!((o.mf, o.nice_len, o.depth), (LZMA_MF_BT4, 16, 0));

    assert!(!lzma_lzma_preset(&mut o, 9 | LZMA_PRESET_EXTREME));
    assert_eq!(o.dict_size, 1 << 26);
    assert_eq!((o.mode, o.mf, o.nice_len, o.depth), (LZMA_MODE_NORMAL, LZMA_MF_BT4, 273, 512));

    assert!(!lzma_lzma_preset(&mut o, 3 | LZMA_PRESET_EXTREME));
    assert_eq!(o.dict_size, 1 << 22);
    assert_eq!((o.mode, o.mf, o.nice_len, o.depth), (LZMA_MODE_NORMAL, LZMA_MF_BT4, 192, 0));
}

#[test]
fn unsupported_presets_change_nothing() {
    let mut o = lzma_options_lzma::zeroed();
    o.dict_size = 12345;
    let before = o;
    assert!(lzma_lzma_preset(&mut o, 10));
    assert!(lzma_lzma_preset(&mut o, 0x4000_0000));
    assert!(lzma_lzma_preset(&mut o, 0x20));
    assert_eq!(o, before);
}

#[test]
fn easy_preset_builds_a_single_lzma2_chain() {
    let unset = lzma_filter { id: 0x99, options: lzma_filter_options::Unset };
    let mut easy = lzma_options_easy { filters: [unset; 5], opt_lzma: lzma_options_lzma::zeroed() };
    assert!(!lzma_easy_preset(&mut easy, 1));
    assert_eq!(easy.opt_lzma.dict_size, 1 << 20);
    assert_eq!(easy.filters[0].id, LZMA_FILTER_LZMA2);
    assert_eq!(easy.filters[0].options, lzma_filter_options::Lzma(easy.opt_lzma));
    assert_eq!(easy.filters[1].id, LZMA_VLI_UNKNOWN);
    assert_eq!(easy.filters[2], unset);

    let mut bad = lzma_options_easy { filters: [unset; 5], opt_lzma: lzma_options_lzma::zeroed() };
    assert!(lzma_easy_preset(&mut bad, 12));
    assert_eq!(bad.filters[0], unset);
    assert_eq!(bad.opt_lzma, lzma_options_lzma::zeroed());
}
