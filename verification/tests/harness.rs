use lib::harness::{
    chunk_len, control, controls, encode_input, output_len, preset, upstream_encode_expected,
    upstream_encode_input, PRESET_EXTREME,
};

#[test]
fn preset_maps_control_bytes() {
    assert_eq!(preset(0), 0);
    assert_eq!(preset(1), 1);
    assert_eq!(preset(5), 5);
    assert_eq!(preset(6), PRESET_EXTREME);
    assert_eq!(preset(7), 3 | PRESET_EXTREME);
    assert_eq!(preset(8), 4);
    assert_eq!(preset(9), 6);
    assert_eq!(preset(10), 7);
    assert_eq!(preset(11), 9 | PRESET_EXTREME);
    assert_eq!(preset(12), 2);
    assert_eq!(preset(13), 3);
    assert_eq!(preset(255), 6);
}

#[test]
fn controls_take_at_most_eight_bytes() {
    let data: Vec<u8> = (1..=10).collect();
    assert_eq!(controls(&data), &data[..8]);
    assert_eq!(controls(&[1, 2]), &[1, 2]);
    assert_eq!(controls(&[]), &[] as &[u8]);
}

#[test]
fn upstream_input_skips_first_byte() {
    assert_eq!(upstream_encode_input(&[]), &[] as &[u8]);
    assert_eq!(upstream_encode_input(&[9]), &[] as &[u8]);
    assert_eq!(upstream_encode_input(&[9, 8, 7]), &[8, 7]);
}

#[test]
fn upstream_expected_is_half_then_whole() {
    assert_eq!(upstream_encode_expected(&[1, 2, 3, 4, 5]), vec![1, 2, 1, 2, 3, 4, 5]);
    assert_eq!(upstream_encode_expected(&[7]), vec![7]);
    assert_eq!(upstream_encode_expected(&[]), Vec::<u8>::new());
}

#[test]
fn encode_input_skips_controls_and_caps_length() {
    let data: Vec<u8> = (0..20).collect();
    assert_eq!(encode_input(&data), &data[8..20]);
    assert_eq!(encode_input(&data[..5]), &[] as &[u8]);
    let big = vec![3u8; 8 + 200_000];
    assert_eq!(encode_input(&big).len(), 131_072);
}

#[test]
fn control_cycles_and_falls_back_to_index() {
    assert_eq!(control(&[], 300), 44);
    assert_eq!(control(&[], 7), 7);
    assert_eq!(control(&[5, 6, 7], 4), 6);
    assert_eq!(control(&[5, 6, 7], 2), 7);
}

#[test]
fn output_len_values() {
    assert_eq!(output_len(0), 1);
    assert_eq!(output_len(1), 2);
    assert_eq!(output_len(2), 3);
    assert_eq!(output_len(3), 35);
    assert_eq!(output_len(11), 43);
    assert_eq!(output_len(255), 287);
}

#[test]
fn chunk_len_values() {
    assert_eq!(chunk_len(0, 10), 1);
    assert_eq!(chunk_len(1, 10), 2);
    assert_eq!(chunk_len(2, 10), 3);
    assert_eq!(chunk_len(3, 10), 7);
    assert_eq!(chunk_len(3, 5), 5);
    assert_eq!(chunk_len(4, 10), 5);
    assert_eq!(chunk_len(10, 3), 2);
    assert_eq!(chunk_len(5, 5000), 6);
    assert_eq!(chunk_len(9, 0), 0);
}
