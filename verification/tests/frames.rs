use gps_qzss::GpsQzssFrame2;
use gps_qzss::GpsQzssFrame3;

#[test]
fn frame2_assembles_the_eight_words() {
    // word 3: iode 0x5A, crs raw 0x8000
    let w3 = (0x5Au32 << 22) | (0x8000 << 6);
    // word 4: dn raw 0x7FFF, m0 msb 0x80
    let w4 = (0x7FFFu32 << 14) | (0x80 << 6);
    // word 5: m0 lsb 0x000001
    let w5 = 0x000001u32 << 6;
    // word 6: cuc raw 0x0001, e msb 0x12
    let w6 = (0x0001u32 << 14) | (0x12 << 6);
    // word 7: e lsb 0x345678
    let w7 = 0x345678u32 << 6;
    // word 8: cus raw 0xFFFF, sqrt_a msb 0xA0
    let w8 = (0xFFFFu32 << 14) | (0xA0 << 6);
    // word 9: sqrt_a lsb 0x123456
    let w9 = 0x123456u32 << 6;
    // word 10: toe raw 0x4567, fit interval set, aodo 0x15
    let w10 = (0x4567u32 << 14) | (1 << 13) | (0x15 << 8);
    let f = GpsQzssFrame2::from_words(w3, w4, w5, w6, w7, w8, w9, w10);
    assert_eq!(f.iode, 0x5A);
    assert_eq!(f.crs, -32768);
    assert_eq!(f.dn, 32767);
    assert_eq!(f.m0, 0x8000_0001u32 as i32);
    assert_eq!(f.cuc, 1);
    assert_eq!(f.e, 0x1234_5678);
    assert_eq!(f.cus, -1);
    assert_eq!(f.sqrt_a, 0xA012_3456);
    assert_eq!(f.toe, 0x4567 * 16);
    assert!(f.fit_interval);
    assert_eq!(f.aodo, 0x15);
}

#[test]
fn frame2_mean_anomaly_reconstruction_is_msb_first() {
    // MSB byte 0xFF with zero LSB gives the sign-extended top byte
    let w4 = 0xFFu32 << 6;
    let f = GpsQzssFrame2::from_words(0, w4, 0, 0, 0, 0, 0, 0);
    assert_eq!(f.m0, 0xFF00_0000u32 as i32);
    assert_eq!(f.m0, -16777216);

    // LSB alone never reaches the sign bit
    let w5 = 0xFFFFFFu32 << 6;
    let f = GpsQzssFrame2::from_words(0, 0, w5, 0, 0, 0, 0, 0);
    assert_eq!(f.m0, 0x00FF_FFFF);
}

#[test]
fn frame2_zero_words_give_the_zero_frame() {
    let f = GpsQzssFrame2::from_words(0, 0, 0, 0, 0, 0, 0, 0);
    assert_eq!(f, GpsQzssFrame2::default());
}

#[test]
fn frame3_assembles_the_eight_words() {
    // word 3: cic raw 0x1234, omega0 msb 0xFF
    let w3 = (0x1234u32 << 14) | (0xFF << 6);
    // word 4: omega0 lsb 0xFFFFFF
    let w4 = 0xFFFFFFu32 << 6;
    // word 5: cis raw 0x8001, i0 msb 0x40
    let w5 = (0x8001u32 << 14) | (0x40 << 6);
    // word 6: i0 lsb 0
    let w6 = 0u32;
    // word 7: crc raw 0x0123, omega msb 0
    let w7 = 0x0123u32 << 14;
    // word 8: omega lsb 0x00FF00
    let w8 = 0x00FF00u32 << 6;
    // word 9: omega_dot raw 0x800000
    let w9 = 0x800000u32 << 6;
    // word 10: iode 0x5A, idot raw 0x2000
    let w10 = (0x5Au32 << 22) | (0x2000 << 8);
    let f = GpsQzssFrame3::from_words(w3, w4, w5, w6, w7, w8, w9, w10);
    assert_eq!(f.cic, 0x1234);
    assert_eq!(f.omega0, -1);
    assert_eq!(f.cis, -32767);
    assert_eq!(f.i0, 0x4000_0000);
    assert_eq!(f.crc, 0x0123);
    assert_eq!(f.omega, 0x00FF00);
    assert_eq!(f.omega_dot, -8388608);
    assert_eq!(f.iode, 0x5A);
    assert_eq!(f.idot, -8192);
}

#[test]
fn frame3_zero_words_give_the_zero_frame() {
    let f = GpsQzssFrame3::from_words(0, 0, 0, 0, 0, 0, 0, 0);
    assert_eq!(f, GpsQzssFrame3::default());
}
