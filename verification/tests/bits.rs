use srt_ingest::bits::{get_bit, u32_from_bits, u64_from_bits, Bit};

#[test]
fn functions_test_get_bit() {
    let buf: [u8; 2] = [0b0000_0001, 0b1000_0000];

    assert_eq!(get_bit(&buf, 6), 0);
    assert_eq!(get_bit(&buf, 7), 1);
    assert_eq!(get_bit(&buf, 8), 1);
    assert_eq!(get_bit(&buf, 9), 0);
}

#[test]
fn functions_test_slice_full() {
    let buf: [u8; 5] = [
        0b0000_1111,
        0b1111_1111,
        0b1111_1111,
        0b1111_1111,
        0b1111_0000,
    ];

    let x = u32_from_bits(&buf, 4, 32);
    assert_eq!(x, u32::MAX);
}

#[test]
fn functions_test_slice_part() {
    let buf: [u8; 5] = [
        0b0000_0000,
        0b0000_1111,
        0b1111_1111,
        0b1111_1111,
        0b1111_0000,
    ];

    let x = u32_from_bits(&buf, 12, 24);
    assert_eq!(x, 0x00_FF_FF_FF);
}

#[test]
fn lib_test_get_bit() {
    let buf: [u8; 2] = [0b0000_0001, 0b1000_0000];

    assert_eq!(get_bit(&buf, 6), 0);
    assert_eq!(get_bit(&buf, 7), 1);
    assert_eq!(get_bit(&buf, 8), 1);
    assert_eq!(get_bit(&buf, 9), 0);
}

#[test]
fn lib_test_slice_full() {
    let buf: [u8; 5] = [
        0b0000_1111,
        0b1111_1111,
        0b1111_1111,
        0b1111_1111,
        0b1111_0000,
    ];

    let x = u32_from_bits(&buf, 4, 32);
    assert_eq!(x, u32::MAX);
}

#[test]
fn lib_test_slice_part() {
    let buf: [u8; 5] = [
        0b0000_0000,
        0b0000_1111,
        0b1111_1111,
        0b1111_1111,
        0b1111_0000,
    ];

    let x = u32_from_bits(&buf, 12, 24);
    assert_eq!(x, 0x00_FF_FF_FF);
}

#[test]
fn test_u64_from_bits() {
    let buf: [u8; 9] = [0x01, 0xFF, 0xFF, 0xFF, 0xFF, 0xFF, 0xFF, 0xFF, 0xFE];

    assert_eq!(u64_from_bits(&buf, 7, 64), u64::MAX);
    assert_eq!(u64_from_bits(&buf, 0, 8), 1);
    assert_eq!(u64_from_bits(&buf, 0, 0), 0);
}

#[test]
fn test_bit_trait() {
    assert!(0b1000_0000u8.bit(0));
    assert!(!0b0111_1111u8.bit(0));
    assert!(0b0000_0001u8.bit(7));
    let buf: [u8; 2] = [0b0000_0001, 0b1000_0000];
    let slice: &[u8] = &buf;
    assert!(!slice.bit(6));
    assert!(slice.bit(7));
    assert!(slice.bit(8));
    assert!(!slice.bit(9));
}
