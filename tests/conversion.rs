use scannit_core::conversion::{as_hex_string, get_bits_as_u16, get_bits_as_u32, get_bits_as_u64, get_bits_as_u8};
use scannit_core::error::DecodeError;

#[test]
fn to_bits_should_handle_trailing_and_leading_bits() {
    // -------- ---XXXXX XXXXXX--: the 11 bits starting at bit 11.
    let three_bytes: [u8; 3] = [0x00, 0x1F, 0xFC];
    let expected = 2047u64;
    let actual = get_bits_as_u64(&three_bytes, 11, 11);
    assert_eq!(Ok(expected), actual);
}

#[test]
fn to_bits_should_handle_u8() {
    let byte: [u8; 1] = [0b0011_0100];
    let expected = 0b0000_1101;
    // four bits that span a nybble boundary
    let actual = get_bits_as_u8(&byte, 2, 4);
    assert_eq!(Ok(expected), actual);
}

#[test]
fn to_bits_should_handle_u16() {
    let bytes: [u8; 3] = [0b1111_0001, 0b0000_0001, 0b0010_0000];
    let expected = 0b10001000_00001001;
    let actual = get_bits_as_u16(&bytes, 3, 16);
    assert_eq!(Ok(expected), actual);
}

#[test]
fn to_bits_should_handle_u32() {
    let bytes: [u8; 5] = [0b1100_1001, 0b0000_1000, 0b0000_0001, 0b1101_0000, 0b0110_0011];
    let expected: u32 = 0b10000100_00000000_11101000_00110001;
    let actual = get_bits_as_u32(&bytes, 7, 32);
    assert_eq!(Ok(expected), actual);
}

#[test]
fn to_bits_should_handle_values_that_dont_need_shifting() {
    let bytes: [u8; 2] = [0x00, 0x12];
    let expected = 0b0000_0010;
    let actual = get_bits_as_u8(&bytes, 14, 2);
    assert_eq!(Ok(expected), actual);
}

#[test]
fn to_bits_should_handle_straddled_values_at_end_of_array() {
    let bytes: [u8; 3] = [0b1000_0010, 0b0101_1011, 0b0000_0101];
    let expected = 0b0000_0010;
    let actual = get_bits_as_u16(&bytes, 15, 2);
    assert_eq!(Ok(expected), actual);
}

/// Reads bit by bit, most significant bit of byte 0 first.
fn reference_bits(bytes: &[u8], off: usize, len: usize) -> u64 {
    let mut v = 0u64;
    for i in off..off + len {
        let bit = (bytes[i / 8] >> (7 - i % 8)) & 1;
        v = (v << 1) | bit as u64;
    }
    v
}

#[test]
fn get_bits_matches_bitwise_reading_on_every_window() {
    let bytes: [u8; 10] = [0xA5, 0x3C, 0xFF, 0x00, 0x81, 0x7E, 0x12, 0x34, 0xC3, 0x5A];
    for off in 0..80 {
        for len in 1..=64 {
            if off + len <= 80 {
                assert_eq!(get_bits_as_u64(&bytes, off, len), Ok(reference_bits(&bytes, off, len)), "{} {}", off, len);
            } else {
                assert_eq!(get_bits_as_u64(&bytes, off, len), Err(DecodeError::OutOfRange));
            }
        }
    }
}

#[test]
fn get_bits_reads_a_full_aligned_64_bit_window() {
    let bytes: [u8; 8] = [0x01, 0x23, 0x45, 0x67, 0x89, 0xAB, 0xCD, 0xEF];
    assert_eq!(get_bits_as_u64(&bytes, 0, 64), Ok(0x0123_4567_89AB_CDEF));
}

#[test]
fn get_bits_reads_64_bits_across_nine_bytes() {
    let bytes: [u8; 9] = [0x0F, 0xFF, 0xFF, 0xFF, 0xFF, 0xFF, 0xFF, 0xFF, 0xF0];
    assert_eq!(get_bits_as_u64(&bytes, 4, 64), Ok(u64::MAX));
}

#[test]
fn get_bits_rejects_windows_past_the_end() {
    let bytes: [u8; 2] = [0xFF, 0xFF];
    assert_eq!(get_bits_as_u8(&bytes, 9, 8), Err(DecodeError::OutOfRange));
    assert_eq!(get_bits_as_u8(&[], 0, 1), Err(DecodeError::OutOfRange));
    assert_eq!(get_bits_as_u64(&bytes, usize::MAX, 1), Err(DecodeError::OutOfRange));
    assert_eq!(get_bits_as_u8(&bytes, 8, 8), Ok(0xFF));
}

#[test]
fn narrow_getters_keep_the_low_bits() {
    let bytes: [u8; 2] = [0xAB, 0xCD];
    assert_eq!(get_bits_as_u8(&bytes, 0, 16), Ok(0xCD));
    assert_eq!(get_bits_as_u16(&bytes, 0, 16), Ok(0xABCD));
}

#[test]
fn hex_string_has_no_leading_zeros() {
    assert_eq!(as_hex_string(&[0x0a, 0xbc, 0x00, 0x10]), "abc010");
    assert_eq!(as_hex_string(&[]), "");
    assert_eq!(as_hex_string(&[0xff]), "ff");
}
