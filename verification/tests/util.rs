use scsi_lib::util::{
    all_ascii, be16, be16_bytes, be24, be24_bytes, be32, be32_bytes, be32_signed,
    be32_signed_bytes, trim_trailing_spaces, BitReader,
};

#[test]
fn bit_reader_masks() {
    let b = BitReader(0b1010_0101);
    assert!(b.bit(0b1000_0000));
    assert!(!b.bit(0b0100_0000));
    assert!(b.bit(0b0010_0000));
    assert!(b.bit(0b0000_0001));
    assert!(!b.bit(0b0000_1000));
    // Any selected bit suffices.
    assert!(b.bit(0b1100_0000));
}

#[test]
fn big_endian_reads() {
    assert_eq!(be16(0x12, 0x34), 0x1234);
    assert_eq!(be24(0x12, 0x34, 0x56), 0x123456);
    assert_eq!(be32(0x12, 0x34, 0x56, 0x78), 0x12345678);
    assert_eq!(be32_signed(0xFF, 0xFF, 0xFF, 0x6A), -150);
    assert_eq!(be32_signed(0x00, 0x00, 0x00, 0x96), 150);
}

#[test]
fn big_endian_splits_invert_reads() {
    let (h, l) = be16_bytes(0xBEEF);
    assert_eq!((h, l), (0xBE, 0xEF));
    assert_eq!(be16(h, l), 0xBEEF);
    let (a, b, c) = be24_bytes(0xABCDEF);
    assert_eq!(be24(a, b, c), 0xABCDEF);
    let (a, b, c, d) = be32_bytes(0xDEADBEEF);
    assert_eq!(be32(a, b, c, d), 0xDEADBEEF);
    let (a, b, c, d) = be32_signed_bytes(-45150);
    assert_eq!(be32_signed(a, b, c, d), -45150);
}

#[test]
fn trimming_and_ascii() {
    assert_eq!(trim_trailing_spaces(b"AB  "), b"AB".to_vec());
    assert_eq!(trim_trailing_spaces(b"  "), Vec::<u8>::new());
    assert_eq!(trim_trailing_spaces(b" A B"), b" A B".to_vec());
    assert!(all_ascii(b"plain text"));
    assert!(!all_ascii(&[0x41, 0x80]));
    assert!(all_ascii(&[]));
}
