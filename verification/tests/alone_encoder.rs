use lib::alone_encoder::{
    alone_dict_size, alone_encode, alone_encoder_init, alone_header_bytes, coder_step,
    lzma_alone_encoder,
};
use lib::coder::{
    lzma_coder, lzma_next_coder_init, lzma_stream_new, LZMA_INIT_ALONE_ENCODER, SEQ_CODE,
    SEQ_HEADER,
};
use lib::filter_decoder::lzma_lzma_props_decode;
use lib::options::{
    lzma_lzma_preset, lzma_options_lzma, LZMA_FILTER_LZMA1, LZMA_MEM_ERROR, LZMA_OK, LZMA_OPTIONS_ERROR,
    LZMA_PROG_ERROR,
};

fn preset_options(preset: u32) -> lzma_options_lzma {
    let mut o = lzma_options_lzma::zeroed();
    assert!(!lzma_lzma_preset(&mut o, preset));
    o
}

#[test]
fn dictionary_sizes_round_up_to_two_or_three_times_a_power_of_two() {
    assert_eq!(alone_dict_size(4096), 4096);
    assert_eq!(alone_dict_size(4097), 6144);
    assert_eq!(alone_dict_size(6144), 6144);
    assert_eq!(alone_dict_size(6145), 8192);
    assert_eq!(alone_dict_size(10_000_000), 12_582_912);
    assert_eq!(alone_dict_size(1 << 23), 1 << 23);
    assert_eq!(alone_dict_size(0x7FFF_FFFF), 0x8000_0000);
    assert_eq!(alone_dict_size(0xC000_0000), 0xC000_0000);
    assert_eq!(alone_dict_size(0xC000_0001), u32::MAX);
    assert_eq!(alone_dict_size(u32::MAX), u32::MAX);
}

#[test]
fn header_layout() {
    let h = alone_header_bytes(0x5D, 0x0080_0000);
    assert_eq!(
        h,
        [0x5D, 0x00, 0x00, 0x80, 0x00, 0xFF, 0xFF, 0xFF, 0xFF, 0xFF, 0xFF, 0xFF, 0xFF]
    );
}

#[test]
fn alone_encoder_accepts_presets_and_writes_the_header() {
    let opts = preset_options(6);
    let mut strm = lzma_stream_new();
    assert_eq!(lzma_alone_encoder(&mut strm, &opts, LZMA_OK), LZMA_OK);
    let internal = strm.internal.as_mut().unwrap();
    assert_eq!(internal.supported_actions, [true, false, false, true, false]);
    assert_eq!(internal.next.init, LZMA_INIT_ALONE_ENCODER);
    let coder = match internal.next.coder.as_mut().unwrap() {
        lzma_coder::Alone(c) => c,
        _ => panic!("not an alone coder"),
    };
    assert_eq!(
        coder.header,
        [0x5D, 0x00, 0x00, 0x80, 0x00, 0xFF, 0xFF, 0xFF, 0xFF, 0xFF, 0xFF, 0xFF, 0xFF]
    );
    assert_eq!(coder.next.id, LZMA_FILTER_LZMA1);
    match coder.next.coder.as_ref().unwrap() {
        lzma_coder::Lzma1Encoder(o) => assert_eq!(*o, opts),
        _ => panic!("not an LZMA1 encoder"),
    }

    // The header in pieces: five bytes, then eight, then the LZMA1 encoder.
    let mut out = [0u8; 16];
    let mut out_pos = 0;
    assert!(matches!(alone_encode(coder, &mut out, &mut out_pos, 5), coder_step::Return(LZMA_OK)));
    assert_eq!(out_pos, 5);
    assert_eq!(coder.sequence, SEQ_HEADER);
    assert!(matches!(alone_encode(coder, &mut out, &mut out_pos, 13), coder_step::Return(LZMA_OK)));
    assert_eq!(out_pos, 13);
    assert_eq!(coder.sequence, SEQ_CODE);
    assert_eq!(&out[..13], &coder.header[..]);
    assert!(matches!(alone_encode(coder, &mut out, &mut out_pos, 16), coder_step::RunNext));
    assert_eq!(out_pos, 13);

    // A full output buffer asks for nothing.
    assert!(matches!(alone_encode(coder, &mut out, &mut out_pos, 13), coder_step::Return(LZMA_OK)));
}

#[test]
fn alone_encode_writes_header_and_hands_over_in_one_call() {
    let opts = preset_options(1);
    let mut next = lzma_next_coder_init();
    assert_eq!(alone_encoder_init(&mut next, &opts, LZMA_OK), LZMA_OK);
    let coder = match next.coder.as_mut().unwrap() {
        lzma_coder::Alone(c) => c,
        _ => panic!("not an alone coder"),
    };
    let mut out = [0u8; 20];
    let mut out_pos = 2;
    assert!(matches!(alone_encode(coder, &mut out, &mut out_pos, 20), coder_step::RunNext));
    assert_eq!(out_pos, 15);
    assert_eq!(out[2], 0x5D);
    assert_eq!(&out[3..7], &(1u32 << 20).to_le_bytes());

    coder.sequence = 7;
    let mut out_pos = 0;
    assert!(matches!(
        alone_encode(coder, &mut out, &mut out_pos, 20),
        coder_step::Return(LZMA_PROG_ERROR)
    ));
}

#[test]
fn alone_header_decodes_as_lzma1_properties() {
    let opts = preset_options(6);
    let mut next = lzma_next_coder_init();
    assert_eq!(alone_encoder_init(&mut next, &opts, LZMA_OK), LZMA_OK);
    let header = match next.coder.as_ref().unwrap() {
        lzma_coder::Alone(c) => c.header,
        _ => panic!("not an alone coder"),
    };
    let decoded = lzma_lzma_props_decode(&header[..5]).unwrap();
    assert_eq!((decoded.lc, decoded.lp, decoded.pb), (opts.lc, opts.lp, opts.pb));
    assert_eq!(decoded.dict_size, 1 << 23);
}

#[test]
fn alone_encoder_rejects_bad_options() {
    let mut small = preset_options(6);
    small.dict_size = 4095;
    let mut strm = lzma_stream_new();
    assert_eq!(lzma_alone_encoder(&mut strm, &small, LZMA_OK), LZMA_OPTIONS_ERROR);
    assert!(strm.internal.is_none());

    let mut lclp = preset_options(6);
    lclp.lc = 4;
    lclp.lp = 1;
    assert_eq!(lzma_alone_encoder(&mut strm, &lclp, LZMA_OK), LZMA_OPTIONS_ERROR);
    assert!(strm.internal.is_none());
    assert_eq!((strm.total_in, strm.total_out), (0, 0));
}

#[test]
fn alone_encoder_reports_the_lzma1_encoder_setup_result() {
    // A 4 GiB - 1 dictionary passes the header checks (the header states
    // u32::MAX); the LZMA1 encoder's own set-up rejects it.
    let mut huge = preset_options(6);
    huge.dict_size = u32::MAX;
    let mut strm = lzma_stream_new();
    assert_eq!(lzma_alone_encoder(&mut strm, &huge, LZMA_OPTIONS_ERROR), LZMA_OPTIONS_ERROR);
    assert!(strm.internal.is_none());

    let mut next = lzma_next_coder_init();
    assert_eq!(alone_encoder_init(&mut next, &huge, LZMA_MEM_ERROR), LZMA_MEM_ERROR);
    assert_eq!(next.init, LZMA_INIT_ALONE_ENCODER);
    match next.coder.as_ref().unwrap() {
        lzma_coder::Alone(c) => assert!(c.next.coder.is_none()),
        _ => panic!("not an alone coder"),
    }

    // Invalid header options are rejected whatever the LZMA1 encoder says.
    let mut small = preset_options(6);
    small.dict_size = 100;
    assert_eq!(lzma_alone_encoder(&mut strm, &small, LZMA_MEM_ERROR), LZMA_OPTIONS_ERROR);
}

#[test]
fn alone_header_comes_out_once_whatever_the_buffer_sizes() {
    let opts = preset_options(6);
    let setup = || {
        let mut next = lzma_next_coder_init();
        assert_eq!(alone_encoder_init(&mut next, &opts, LZMA_OK), LZMA_OK);
        match next.coder.take().unwrap() {
            lzma_coder::Alone(c) => c,
            _ => panic!("not an alone coder"),
        }
    };

    // One byte of output space per call.
    let mut a = setup();
    let mut out_a = [0u8; 32];
    let mut pos_a = 0;
    let mut calls = 0;
    loop {
        let size = pos_a + 1;
        match alone_encode(&mut a, &mut out_a, &mut pos_a, size) {
            coder_step::Return(r) => assert_eq!(r, LZMA_OK),
            coder_step::RunNext => break,
        }
        calls += 1;
        assert!(calls <= 14);
    }
    assert_eq!(pos_a, 13);
    assert_eq!(calls, 13);

    // All of it in one buffer.
    let mut b = setup();
    let mut out_b = [0u8; 32];
    let mut pos_b = 0;
    assert!(matches!(alone_encode(&mut b, &mut out_b, &mut pos_b, 32), coder_step::RunNext));
    assert_eq!(pos_b, 13);
    assert_eq!(out_a[..13], out_b[..13]);
    assert_eq!(out_a[..13], a.header[..]);

    // Once written, the header is never written again.
    assert!(matches!(alone_encode(&mut b, &mut out_b, &mut pos_b, 32), coder_step::RunNext));
    assert_eq!(pos_b, 13);
}
