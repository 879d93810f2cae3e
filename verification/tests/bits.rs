use gps_qzss::GpsError;
use gps_qzss::extract;

#[test]
fn extract_single_bits() {
    // 0xAB = 1010_1011
    let buf = [0xABu8, 0xCD, 0xEF];
    assert_eq!(extract(&buf, 0, 1), Ok(1));
    assert_eq!(extract(&buf, 1, 1), Ok(0));
    assert_eq!(extract(&buf, 6, 1), Ok(1));
    assert_eq!(extract(&buf, 7, 1), Ok(1));
}

#[test]
fn extract_within_one_byte() {
    let buf = [0xABu8, 0xCD, 0xEF];
    assert_eq!(extract(&buf, 0, 8), Ok(0xAB));
    assert_eq!(extract(&buf, 0, 4), Ok(0xA));
    assert_eq!(extract(&buf, 4, 4), Ok(0xB));
    assert_eq!(extract(&buf, 20, 4), Ok(0xF));
}

#[test]
fn extract_across_byte_boundary() {
    let buf = [0xABu8, 0xCD, 0xEF];
    // bits 4..=11 are the low nibble of 0xAB and the high nibble of 0xCD
    assert_eq!(extract(&buf, 4, 8), Ok(0xBC));
    // bits 7..=8 straddle the first boundary: 1 then 1
    assert_eq!(extract(&buf, 7, 2), Ok(3));
    // a field spanning all three bytes
    assert_eq!(extract(&buf, 2, 20), Ok((0xABCDEF >> 2) & 0xFFFFF));
}

#[test]
fn extract_whole_buffer() {
    let buf = [0xABu8, 0xCD, 0xEF];
    assert_eq!(extract(&buf, 0, 24), Ok(0xABCDEF));
}

#[test]
fn extract_32_bit_field() {
    let buf = [0x12u8, 0x34, 0x56, 0x78, 0x9A];
    assert_eq!(extract(&buf, 0, 32), Ok(0x12345678));
    assert_eq!(extract(&buf, 8, 32), Ok(0x3456789A));
    assert_eq!(extract(&buf, 4, 32), Ok(0x23456789));
}

#[test]
fn extract_refuses_out_of_range() {
    let buf = [0xABu8, 0xCD, 0xEF];
    assert_eq!(extract(&buf, 0, 25), Err(GpsError::OutOfRange));
    assert_eq!(extract(&buf, 17, 8), Err(GpsError::OutOfRange));
    assert_eq!(extract(&buf, 24, 1), Err(GpsError::OutOfRange));
    let empty: [u8; 0] = [];
    assert_eq!(extract(&empty, 0, 1), Err(GpsError::OutOfRange));
}

#[test]
fn extract_refuses_bad_width() {
    let buf = [0xABu8, 0xCD, 0xEF];
    assert_eq!(extract(&buf, 0, 0), Err(GpsError::OutOfRange));
    assert_eq!(extract(&buf, 0, 33), Err(GpsError::OutOfRange));
}
