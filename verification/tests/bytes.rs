use lib::bytes::{lzma_bufcpy, read16le, read32le, read64le, write32le};

#[test]
fn little_endian_reads() {
    let buf = [0x01, 0x02, 0x03, 0x04, 0x05, 0x06, 0x07, 0x08, 0x09];
    assert_eq!(read16le(&buf, 0), 0x0201);
    assert_eq!(read32le(&buf, 1), 0x0504_0302);
    assert_eq!(read64le(&buf, 1), 0x0908_0706_0504_0302);
}

#[test]
fn write32le_then_read32le() {
    let mut buf = [0xAAu8; 7];
    write32le(&mut buf, 2, 0xDEAD_BEEF);
    assert_eq!(buf, [0xAA, 0xAA, 0xEF, 0xBE, 0xAD, 0xDE, 0xAA]);
    assert_eq!(read32le(&buf, 2), 0xDEAD_BEEF);
}

#[test]
fn bufcpy_copies_what_fits() {
    let input = [1u8, 2, 3, 4, 5];
    let mut out = [0u8; 6];
    let mut in_pos = 1;
    let mut out_pos = 4;
    let n = lzma_bufcpy(&input, &mut in_pos, 5, &mut out, &mut out_pos, 6);
    assert_eq!(n, 2);
    assert_eq!((in_pos, out_pos), (3, 6));
    assert_eq!(out, [0, 0, 0, 0, 2, 3]);

    let mut out_pos = 0;
    let n = lzma_bufcpy(&input, &mut in_pos, 5, &mut out, &mut out_pos, 6);
    assert_eq!(n, 2);
    assert_eq!((in_pos, out_pos), (5, 2));
    assert_eq!(out, [4, 5, 0, 0, 2, 3]);
}
