use gps_qzss::GpsQzssFrame1;
use gps_qzss::Word3;
use gps_qzss::Word4;
use gps_qzss::Word5;
use gps_qzss::Word6;
use gps_qzss::Word7;
use gps_qzss::Word8;
use gps_qzss::Word9;
use gps_qzss::Word10;

#[test]
fn word3_week_only() {
    // week in the top ten bits of the word, every other field zero
    let d = Word3::decode(0x08B0_0000);
    assert_eq!(d.week, 139);
    assert_eq!(d.ca_or_p_l2, 0);
    assert_eq!(d.ura, 0);
    assert_eq!(d.health, 0);
    assert_eq!(d.iodc_msb, 0);

    let d = Word3::decode(0x22C0_0000);
    assert_eq!(d.week, 0x22C);
    assert_eq!(d.ca_or_p_l2, 0);
    assert_eq!(d.ura, 0);
    assert_eq!(d.health, 0);
    assert_eq!(d.iodc_msb, 0);
}

#[test]
fn word3_all_fields() {
    // week 0x155, l2 code 2, ura 9, health 0x2A, iodc msb 1
    let w = (0x155u32 << 20) | (2 << 18) | (9 << 14) | (0x2A << 8) | (1 << 6);
    let d = Word3::decode(w);
    assert_eq!(d.week, 0x155);
    assert_eq!(d.ca_or_p_l2, 2);
    assert_eq!(d.ura, 9);
    assert_eq!(d.health, 0x2A);
    assert_eq!(d.iodc_msb, 1);
}

#[test]
fn word3_parity_region_is_ignored() {
    let d = Word3::decode(0x0000_003F);
    assert_eq!(d.week, 0);
    assert_eq!(d.ca_or_p_l2, 0);
    assert_eq!(d.ura, 0);
    assert_eq!(d.health, 0);
    assert_eq!(d.iodc_msb, 0);
}

#[test]
fn word3_fields_recombine_to_the_data_region() {
    // re-encoding the decoded fields reproduces every data bit of the word
    let w: u32 = 0x2ABC_DEF5;
    let d = Word3::decode(w);
    let e = ((d.week as u32) << 20) | ((d.ca_or_p_l2 as u32) << 18) | ((d.ura as u32) << 14)
        | ((d.health as u32) << 8) | ((d.iodc_msb as u32) << 6);
    assert_eq!(e, w & 0x3FFF_FFC0);
}

#[test]
fn word4_flag_and_reserved() {
    let w = (1u32 << 29) | (0x2AAAAA << 6);
    let d = Word4::decode(w);
    assert!(d.l2_p_data_flag);
    assert_eq!(d.reserved, 0x2AAAAA);

    let d = Word4::decode(0x2AAAAA << 6);
    assert!(!d.l2_p_data_flag);
    assert_eq!(d.reserved, 0x2AAAAA);
}

#[test]
fn word5_and_word6_reserved() {
    assert_eq!(Word5::decode(0x123456 << 6).reserved, 0x123456);
    assert_eq!(Word6::decode(0x654321 << 6).reserved, 0x654321);
}

#[test]
fn word7_tgd_sign_bit() {
    // TGD byte 0x80: sign bit set, decodes to -128 before scaling
    let d = Word7::decode(0x80u32 << 6);
    assert_eq!(d.tgd, -128);
    assert_eq!(d.reserved, 0);

    let d = Word7::decode((0xBEEFu32 << 14) | (0x7F << 6));
    assert_eq!(d.tgd, 127);
    assert_eq!(d.reserved, 0xBEEF);
}

#[test]
fn word8_iodc_lsb_and_toc() {
    let d = Word8::decode((0xCDu32 << 22) | (0x1234 << 6));
    assert_eq!(d.iodc_lsb, 0xCD);
    assert_eq!(d.toc, 0x1234);
}

#[test]
fn word9_clock_drift_terms() {
    let d = Word9::decode((0x01u32 << 22) | (0x8001 << 6));
    assert_eq!(d.af2, 1);
    assert_eq!(d.af1, -32767);

    let d = Word9::decode((0xFFu32 << 22) | (0x7FFF << 6));
    assert_eq!(d.af2, -1);
    assert_eq!(d.af1, 32767);
}

#[test]
fn word10_clock_bias() {
    assert_eq!(Word10::decode(0x3FFFFFu32 << 8).af0, -1);
    assert_eq!(Word10::decode(0x200000u32 << 8).af0, -2097152);
    assert_eq!(Word10::decode(0x1FFFFFu32 << 8).af0, 2097151);
    assert_eq!(Word10::decode(0x000001u32 << 8).af0, 1);
}

#[test]
fn frame1_assembles_the_eight_words() {
    let w3 = (139u32 << 20) | (1 << 18) | (2 << 14) | (0 << 8) | (3 << 6);
    let w4 = (1u32 << 29) | (0x2AAAAA << 6);
    let w5 = 0x123456u32 << 6;
    let w6 = 0x654321u32 << 6;
    let w7 = (0xBEEFu32 << 14) | (0x80 << 6);
    let w8 = (0xCDu32 << 22) | (0x1234 << 6);
    let w9 = (0x01u32 << 22) | (0x8001 << 6);
    let w10 = 0x3FFFFFu32 << 8;
    let f = GpsQzssFrame1::from_words(w3, w4, w5, w6, w7, w8, w9, w10);
    assert_eq!(f.week, 139);
    assert_eq!(f.ca_or_p_l2, 1);
    assert_eq!(f.ura, 2);
    assert_eq!(f.health, 0);
    assert_eq!(f.iodc, (3 << 8) | 0xCD);
    assert_eq!(f.toc, 0x1234 * 16);
    assert_eq!(f.tgd, -128);
    assert_eq!(f.af2, 1);
    assert_eq!(f.af1, -32767);
    assert_eq!(f.af0, -1);
    assert!(f.l2_p_data_flag);
    assert_eq!(f.reserved_word4, 0x2AAAAA);
    assert_eq!(f.reserved_word5, 0x123456);
    assert_eq!(f.reserved_word6, 0x654321);
    assert_eq!(f.reserved_word7, 0xBEEF);
}

#[test]
fn iodc_reconstruction_stays_ten_bit() {
    // largest MSB and LSB give the largest ten-bit IODC
    let w3 = 3u32 << 6;
    let w8 = 0xFFu32 << 22;
    let f = GpsQzssFrame1::from_words(w3, 0, 0, 0, 0, w8, 0, 0);
    assert_eq!(f.iodc, 1023);

    let f = GpsQzssFrame1::from_words(1 << 6, 0, 0, 0, 0, 0x01u32 << 22, 0, 0);
    assert_eq!(f.iodc, 257);
}

#[test]
fn health_zero_means_healthy_nonzero_kept_verbatim() {
    let f = GpsQzssFrame1::from_words(0, 0, 0, 0, 0, 0, 0, 0);
    assert_eq!(f.health, 0);
    assert!(f.is_healthy());

    let w3 = 0x2Au32 << 8;
    let f = GpsQzssFrame1::from_words(w3, 0, 0, 0, 0, 0, 0, 0);
    assert_eq!(f.health, 0x2A);
    assert!(!f.is_healthy());

    let w3 = 0x3Fu32 << 8;
    let f = GpsQzssFrame1::from_words(w3, 0, 0, 0, 0, 0, 0, 0);
    assert_eq!(f.health, 0x3F);
    assert!(!f.is_healthy());
}

#[test]
fn frame1_builders_replace_single_fields() {
    let f = GpsQzssFrame1::default()
        .with_week(139)
        .with_health(0x2A)
        .with_toc(74560)
        .with_ura(7)
        .with_tgd(-128)
        .with_af0(-1)
        .with_af1(-32767)
        .with_af2(1);
    assert_eq!(f.week, 139);
    assert_eq!(f.health, 0x2A);
    assert_eq!(f.toc, 74560);
    assert_eq!(f.ura, 7);
    assert_eq!(f.tgd, -128);
    assert_eq!(f.af0, -1);
    assert_eq!(f.af1, -32767);
    assert_eq!(f.af2, 1);
    assert_eq!(f.iodc, 0);
    assert!(!f.l2_p_data_flag);
}
