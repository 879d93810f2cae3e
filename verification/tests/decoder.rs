use gps_qzss::GPS_MIN_SIZE;
use gps_qzss::GPS_PREAMBLE;
use gps_qzss::GPS_WORD_SIZE;
use gps_qzss::GpsDecoderState;
use gps_qzss::GpsError;
use gps_qzss::GpsQzssDecoder;
use gps_qzss::GpsQzssFrameId;
use gps_qzss::GpsQzssSubframe;
use gps_qzss::check_parity;
use gps_qzss::decode_frame;
use gps_qzss::parity_encoding;

/// 30-bit word holding the 24-bit data value and its parity.
fn build_word(data24: u32) -> u32 {
    (data24 << 6) | (parity_encoding(data24) as u32)
}

/// Packs 30-bit words MSB-first into bytes after `lead_bits` zero bits.
fn pack_words(words: &[u32], lead_bits: usize) -> Vec<u8> {
    let mut bits: Vec<bool> = Vec::new();
    for _ in 0..lead_bits {
        bits.push(false);
    }
    for &w in words {
        for i in 0..30 {
            bits.push((w >> (29 - i)) & 1 == 1);
        }
    }
    while bits.len() % 8 != 0 {
        bits.push(false);
    }
    let mut bytes = Vec::new();
    for chunk in bits.chunks(8) {
        let mut b = 0u8;
        for (i, &bit) in chunk.iter().enumerate() {
            if bit {
                b |= 1 << (7 - i);
            }
        }
        bytes.push(b);
    }
    bytes
}

/// Telemetry data region: preamble, 14-bit message, two flag bits.
fn tlm_data(preamble: u8, message: u16, integrity: bool, reserved: bool) -> u32 {
    ((preamble as u32) << 16) | ((message as u32) << 2) | ((integrity as u32) << 1)
        | (reserved as u32)
}

/// Handover data region: 17-bit time of week, two flags, subframe id,
/// two solved bits left clear.
fn how_data(tow: u32, alert: bool, anti_spoof: bool, subframe_id: u8) -> u32 {
    (tow << 7) | ((alert as u32) << 6) | ((anti_spoof as u32) << 5) | ((subframe_id as u32) << 2)
}

/// A complete, parity-valid subframe-1 stream.
fn subframe1_words() -> Vec<u32> {
    let mut data = vec![
        tlm_data(GPS_PREAMBLE, 0x1ABC, true, false),
        how_data(0x155AA, false, true, 1),
    ];
    // week 139, l2 code 1, ura 2, health 0, iodc msb 3
    data.push((139 << 14) | (1 << 12) | (2 << 8) | 3);
    // word 4: l2 p flag set, reserved 0x2AAAAA
    data.push((1 << 23) | 0x2AAAAA);
    data.push(0x123456);
    data.push(0x654321);
    // word 7: reserved 0xBEEF, tgd raw 0x80
    data.push((0xBEEF << 8) | 0x80);
    // word 8: iodc lsb 0xCD, toc raw 0x1234
    data.push((0xCD << 16) | 0x1234);
    // word 9: af2 raw 0x01, af1 raw 0x8001
    data.push((0x01 << 16) | 0x8001);
    // word 10: af0 raw 0x3FFFFF, two trailing data bits clear
    data.push(0x3FFFFF << 2);
    data.into_iter().map(build_word).collect()
}

#[test]
fn constants_describe_the_wire_format() {
    assert_eq!(GPS_WORD_SIZE, 30);
    assert_eq!(GPS_MIN_SIZE, 300);
    assert_eq!(GPS_PREAMBLE, 0x8B);
}

#[test]
fn parity_encoding_known_values() {
    assert_eq!(parity_encoding(0), 0);
    assert_eq!(parity_encoding(1), 0x21);
    assert!(check_parity((1 << 6) | 0x21));
    assert!(!check_parity((1 << 6) | 0x20));
    assert!(check_parity(build_word(0xABCDEF)));
    assert!(!check_parity(build_word(0xABCDEF) ^ (1 << 17)));
}

#[test]
fn decodes_a_subframe_1() {
    let buf = pack_words(&subframe1_words(), 0);
    let (frame, next) = decode_frame(&buf, 0, true).unwrap();
    assert_eq!(next, 300);
    assert_eq!(frame.telemetry.preamble, GPS_PREAMBLE);
    assert_eq!(frame.telemetry.message, 0x1ABC);
    assert!(frame.telemetry.integrity);
    assert!(!frame.telemetry.reserved);
    assert_eq!(frame.how.tow, 0x155AA);
    assert!(!frame.how.alert);
    assert!(frame.how.anti_spoof);
    assert_eq!(frame.how.subframe_id, 1);
    match frame.subframe {
        GpsQzssSubframe::Ephemeris1(f) => {
            assert_eq!(f.week, 139);
            assert_eq!(f.ca_or_p_l2, 1);
            assert_eq!(f.ura, 2);
            assert_eq!(f.health, 0);
            assert!(f.is_healthy());
            assert_eq!(f.iodc, (3 << 8) | 0xCD);
            assert_eq!(f.toc, 0x1234 * 16);
            assert_eq!(f.tgd, -128);
            assert_eq!(f.af2, 1);
            assert_eq!(f.af1, -32767);
            assert_eq!(f.af0, -1);
            assert!(f.l2_p_data_flag);
            assert_eq!(f.reserved_word4, 0x2AAAAA);
            assert_eq!(f.reserved_word5, 0x123456);
            assert_eq!(f.reserved_word6, 0x654321);
            assert_eq!(f.reserved_word7, 0xBEEF);
        },
        _ => panic!("expected subframe 1"),
    }
}

#[test]
fn decodes_at_an_unaligned_offset() {
    let buf = pack_words(&subframe1_words(), 5);
    let (frame, next) = decode_frame(&buf, 5, true).unwrap();
    assert_eq!(next, 305);
    assert_eq!(frame.how.subframe_id, 1);
    match frame.subframe {
        GpsQzssSubframe::Ephemeris1(f) => assert_eq!(f.week, 139),
        _ => panic!("expected subframe 1"),
    }
}

#[test]
fn decodes_a_subframe_2() {
    let mut data = vec![
        tlm_data(GPS_PREAMBLE, 0, false, false),
        how_data(7, false, false, 2),
    ];
    data.push((0x5A << 16) | 0x8000);
    data.push((0x7FFF << 8) | 0x80);
    data.push(0x000001);
    data.push((0x0001 << 8) | 0x12);
    data.push(0x345678);
    data.push((0xFFFF << 8) | 0xA0);
    data.push(0x123456);
    data.push((0x4567 << 8) | (1 << 7) | (0x15 << 2));
    let words: Vec<u32> = data.into_iter().map(build_word).collect();
    let buf = pack_words(&words, 0);
    let (frame, _) = decode_frame(&buf, 0, true).unwrap();
    assert_eq!(frame.how.subframe_id, 2);
    match frame.subframe {
        GpsQzssSubframe::Ephemeris2(f) => {
            assert_eq!(f.iode, 0x5A);
            assert_eq!(f.crs, -32768);
            assert_eq!(f.dn, 32767);
            assert_eq!(f.m0, 0x8000_0001u32 as i32);
            assert_eq!(f.cuc, 1);
            assert_eq!(f.e, 0x1234_5678);
            assert_eq!(f.cus, -1);
            assert_eq!(f.sqrt_a, 0xA012_3456);
            assert_eq!(f.toe, 0x4567 * 16);
            assert!(f.fit_interval);
            assert_eq!(f.aodo, 0x15);
        },
        _ => panic!("expected subframe 2"),
    }
}

#[test]
fn decodes_a_subframe_3() {
    let mut data = vec![
        tlm_data(GPS_PREAMBLE, 0x3FFF, false, true),
        how_data(0x1FFFF, true, false, 3),
    ];
    data.push((0x1234 << 8) | 0xFF);
    data.push(0xFFFFFF);
    data.push((0x8001 << 8) | 0x40);
    data.push(0);
    data.push(0x0123 << 8);
    data.push(0x00FF00);
    data.push(0x800000);
    data.push((0x5A << 16) | (0x2000 << 2));
    let words: Vec<u32> = data.into_iter().map(build_word).collect();
    let buf = pack_words(&words, 0);
    let (frame, _) = decode_frame(&buf, 0, true).unwrap();
    assert_eq!(frame.telemetry.message, 0x3FFF);
    assert!(frame.telemetry.reserved);
    assert_eq!(frame.how.tow, 0x1FFFF);
    assert!(frame.how.alert);
    assert_eq!(frame.how.subframe_id, 3);
    match frame.subframe {
        GpsQzssSubframe::Ephemeris3(f) => {
            assert_eq!(f.cic, 0x1234);
            assert_eq!(f.omega0, -1);
            assert_eq!(f.cis, -32767);
            assert_eq!(f.i0, 0x4000_0000);
            assert_eq!(f.crc, 0x0123);
            assert_eq!(f.omega, 0x00FF00);
            assert_eq!(f.omega_dot, -8388608);
            assert_eq!(f.iode, 0x5A);
            assert_eq!(f.idot, -8192);
        },
        _ => panic!("expected subframe 3"),
    }
}

#[test]
fn short_buffer_is_insufficient() {
    // 100 bits at offset 0: refused before any field extraction
    let buf = [0xFFu8; 13];
    assert_eq!(
        decode_frame(&buf[..12], 0, true),
        Err(GpsError::InsufficientBuffer)
    );
    // 296 bits are one word short of a frame
    let buf = pack_words(&subframe1_words(), 0);
    assert_eq!(
        decode_frame(&buf[..37], 0, true),
        Err(GpsError::InsufficientBuffer)
    );
    // the 304-bit buffer holds no 300-bit frame past offset 4
    assert_eq!(
        decode_frame(&buf, 5, true),
        Err(GpsError::InsufficientBuffer)
    );
    let empty: [u8; 0] = [];
    assert_eq!(decode_frame(&empty, 0, true), Err(GpsError::InsufficientBuffer));
}

#[test]
fn exactly_300_bits_suffice() {
    let buf = pack_words(&subframe1_words(), 0);
    assert_eq!(buf.len(), 38);
    // 304 bits in the buffer: offsets 0 through 4 still hold 300
    assert!(decode_frame(&buf, 4, true).is_err());
    assert_ne!(
        decode_frame(&buf, 4, true),
        Err(GpsError::InsufficientBuffer)
    );
}

#[test]
fn preamble_mismatch_is_reported() {
    let mut words = subframe1_words();
    words[0] = build_word(tlm_data(0x7B, 0x1ABC, true, false));
    let buf = pack_words(&words, 0);
    assert_eq!(decode_frame(&buf, 0, true), Err(GpsError::PreambleMismatch));
}

#[test]
fn unsupported_subframe_ids_are_reported() {
    for id in [0u8, 4, 5, 6, 7] {
        let mut words = subframe1_words();
        words[1] = build_word(how_data(0x155AA, false, true, id));
        let buf = pack_words(&words, 0);
        assert_eq!(
            decode_frame(&buf, 0, true),
            Err(GpsError::UnsupportedSubframeId),
            "subframe id {}",
            id
        );
    }
}

#[test]
fn parity_failure_is_reported_and_optional() {
    let mut words = subframe1_words();
    // flip one data bit of word 5: its parity no longer matches
    words[4] ^= 1 << 17;
    let buf = pack_words(&words, 0);
    assert_eq!(decode_frame(&buf, 0, true), Err(GpsError::ParityFailure));
    // with parity checking off the same stream decodes
    let (frame, _) = decode_frame(&buf, 0, false).unwrap();
    match frame.subframe {
        GpsQzssSubframe::Ephemeris1(f) => {
            assert_ne!(f.reserved_word5, 0x123456);
        },
        _ => panic!("expected subframe 1"),
    }
}

#[test]
fn corrupted_parity_bits_alone_fail_the_check() {
    let mut words = subframe1_words();
    // flip a parity bit of the telemetry word: fields intact, parity not
    words[0] ^= 1;
    let buf = pack_words(&words, 0);
    assert_eq!(decode_frame(&buf, 0, true), Err(GpsError::ParityFailure));
}

#[test]
fn decoder_tracks_synchronization() {
    let mut decoder = GpsQzssDecoder::new();
    assert!(decoder.parity_check);
    assert_eq!(decoder.state, GpsDecoderState::Seeking);

    let buf = pack_words(&subframe1_words(), 0);
    assert!(decoder.decode(&buf, 0).is_ok());
    assert_eq!(decoder.state, GpsDecoderState::Synchronized);

    // a short buffer keeps the lock
    assert_eq!(
        decoder.decode(&buf[..12], 0),
        Err(GpsError::InsufficientBuffer)
    );
    assert_eq!(decoder.state, GpsDecoderState::Synchronized);

    // a framing failure drops back to seeking
    let mut bad = subframe1_words();
    bad[0] = build_word(tlm_data(0x00, 0, false, false));
    let bad_buf = pack_words(&bad, 0);
    assert_eq!(
        decoder.decode(&bad_buf, 0),
        Err(GpsError::PreambleMismatch)
    );
    assert_eq!(decoder.state, GpsDecoderState::Seeking);

    // an explicit reset drops the lock too
    assert!(decoder.decode(&buf, 0).is_ok());
    assert_eq!(decoder.state, GpsDecoderState::Synchronized);
    decoder.reset();
    assert_eq!(decoder.state, GpsDecoderState::Seeking);
}

#[test]
fn decoder_parity_switch_is_kept() {
    let mut words = subframe1_words();
    words[4] ^= 1 << 17;
    let buf = pack_words(&words, 0);

    let mut strict = GpsQzssDecoder::new();
    assert_eq!(strict.decode(&buf, 0), Err(GpsError::ParityFailure));

    let mut lenient = GpsQzssDecoder::new().with_parity_check(false);
    assert!(!lenient.parity_check);
    assert!(lenient.decode(&buf, 0).is_ok());
    assert_eq!(lenient.state, GpsDecoderState::Synchronized);
}

#[test]
fn default_decoder_checks_parity_and_seeks() {
    let decoder = GpsQzssDecoder::default();
    assert!(decoder.parity_check);
    assert_eq!(decoder.state, GpsDecoderState::Seeking);
}

#[test]
fn frame_id_maps_exactly_the_supported_ids() {
    assert_eq!(GpsQzssFrameId::from_id(1), Ok(GpsQzssFrameId::Ephemeris1));
    assert_eq!(GpsQzssFrameId::from_id(2), Ok(GpsQzssFrameId::Ephemeris2));
    assert_eq!(GpsQzssFrameId::from_id(3), Ok(GpsQzssFrameId::Ephemeris3));
    for id in [0u8, 4, 5, 6, 7, 255] {
        assert_eq!(
            GpsQzssFrameId::from_id(id),
            Err(GpsError::UnsupportedSubframeId)
        );
    }
    assert_eq!(GpsQzssFrameId::Ephemeris1.id(), 1);
    assert_eq!(GpsQzssFrameId::Ephemeris2.id(), 2);
    assert_eq!(GpsQzssFrameId::Ephemeris3.id(), 3);
}

#[test]
fn subframe_accessors_match_the_variant() {
    let buf = pack_words(&subframe1_words(), 0);
    let (frame, _) = decode_frame(&buf, 0, true).unwrap();
    assert!(frame.subframe.as_eph1().is_some());
    assert!(frame.subframe.as_eph2().is_none());
    assert!(frame.subframe.as_eph3().is_none());
    assert_eq!(frame.subframe.as_eph1().unwrap().week, 139);
}

#[test]
fn consecutive_subframes_stream_through_the_buffer() {
    let mut words = subframe1_words();
    let mut second = subframe1_words();
    second[2] = build_word((140 << 14) | (1 << 12) | (2 << 8) | 3);
    words.extend_from_slice(&second);
    let buf = pack_words(&words, 0);
    let (frame, next) = decode_frame(&buf, 0, true).unwrap();
    match frame.subframe {
        GpsQzssSubframe::Ephemeris1(f) => assert_eq!(f.week, 139),
        _ => panic!("expected subframe 1"),
    }
    assert_eq!(next, 300);
    let (frame, next) = decode_frame(&buf, next, true).unwrap();
    match frame.subframe {
        GpsQzssSubframe::Ephemeris1(f) => assert_eq!(f.week, 140),
        _ => panic!("expected subframe 1"),
    }
    assert_eq!(next, 600);
}
