use lib::coder::{lzma_coder, lzma_stream_new, LZMA_INIT_MICROLZMA_ENCODER};
use lib::microlzma_encoder::{lzma_microlzma_encoder, microlzma_encode, microlzma_out_limit};
use lib::options::{
    lzma_lzma_preset, lzma_options_lzma, LZMA_OK, LZMA_OPTIONS_ERROR,
    LZMA_PROG_ERROR, LZMA_STREAM_END,
};

#[test]
fn microlzma_encoder_setup_and_finish() {
    let mut opts = lzma_options_lzma::zeroed();
    assert!(!lzma_lzma_preset(&mut opts, 6));
    let mut strm = lzma_stream_new();
    assert_eq!(lzma_microlzma_encoder(&mut strm, &opts, LZMA_OK), LZMA_OK);
    let internal = strm.internal.as_ref().unwrap();
    assert_eq!(internal.supported_actions, [false, false, false, true, false]);
    assert_eq!(internal.next.init, LZMA_INIT_MICROLZMA_ENCODER);
    let coder = match internal.next.coder.as_ref().unwrap() {
        lzma_coder::MicroLzma(c) => c,
        _ => panic!("not a MicroLZMA coder"),
    };
    assert_eq!(coder.props, 0x5D);

    assert_eq!(microlzma_out_limit(3, 100), 97);

    let mut out = [0u8; 8];
    let mut in_pos = 0;
    let r = microlzma_encode(coder, LZMA_OK, 40, LZMA_STREAM_END, 10, &mut in_pos, &mut out, 2);
    assert_eq!(r, LZMA_STREAM_END);
    assert_eq!(out[2], 0xA2);
    assert_eq!(in_pos, 50);

    let mut in_pos = 5;
    assert_eq!(microlzma_encode(coder, LZMA_OK, 40, LZMA_OK, 10, &mut in_pos, &mut out, 0), LZMA_PROG_ERROR);
    assert_eq!(microlzma_encode(coder, 1, 40, LZMA_STREAM_END, 10, &mut in_pos, &mut out, 0), LZMA_PROG_ERROR);
    assert_eq!(
        microlzma_encode(coder, LZMA_OK, 40, 9, 10, &mut in_pos, &mut out, 0),
        9
    );
    assert_eq!(in_pos, 5);
    assert_eq!(out[0], 0);
}

#[test]
fn microlzma_encoder_rejects_bad_lclppb() {
    let mut opts = lzma_options_lzma::zeroed();
    opts.pb = 5;
    let mut strm = lzma_stream_new();
    assert_eq!(lzma_microlzma_encoder(&mut strm, &opts, LZMA_OK), LZMA_OPTIONS_ERROR);
    assert!(strm.internal.is_none());
}

#[test]
fn microlzma_encoder_reports_the_lzma1_encoder_setup_result() {
    let mut opts = lzma_options_lzma::zeroed();
    assert!(!lzma_lzma_preset(&mut opts, 6));
    opts.dict_size = u32::MAX;
    opts.mode = 0;
    opts.mf = 0;
    opts.nice_len = 0;
    let mut strm = lzma_stream_new();
    assert_eq!(lzma_microlzma_encoder(&mut strm, &opts, LZMA_OPTIONS_ERROR), LZMA_OPTIONS_ERROR);
    assert!(strm.internal.is_none());
}
