use ql_raster::commands::{
    encode_advanced_mode, encode_compression_mode, encode_init, encode_invalidate, encode_margin,
    encode_null, encode_page_no, encode_print, encode_print_and_feed, encode_print_info,
    encode_raster_line, encode_raster_zero, encode_switch_mode, encode_various_mode, AdvancedMode,
    CompressionMode, Mode, PrintInfo, VariousMode,
};
use ql_raster::status::MediaKind;

#[test]
fn fixed_frames() {
    assert_eq!(encode_null(), [0x00]);
    assert_eq!(encode_init(), [0x1b, 0x40]);
    assert_eq!(encode_raster_zero(), [0x5a]);
    assert_eq!(encode_print(), [0x0c]);
    assert_eq!(encode_print_and_feed(), [0x1a]);
}

#[test]
fn invalidate_is_400_zero_bytes() {
    let frame = encode_invalidate();
    assert_eq!(frame.len(), 400);
    assert!(frame.iter().all(|b| *b == 0));
}

#[test]
fn switch_mode_ends_in_the_mode_tag() {
    assert_eq!(encode_switch_mode(Mode::EscP), [0x1b, 0x69, 0x61, 0x00]);
    assert_eq!(encode_switch_mode(Mode::Raster), [0x1b, 0x69, 0x61, 0x01]);
    assert_eq!(
        encode_switch_mode(Mode::PTouchTemplate),
        [0x1b, 0x69, 0x61, 0x03]
    );
    assert_eq!(u8::from(Mode::PTouchTemplate), 0x03);
    assert_eq!(Mode::default(), Mode::Raster);
}

#[test]
fn print_info_of_a_job() {
    let info = PrintInfo {
        kind: Some(MediaKind::ContinuousLengthTape),
        width: Some(50),
        length: None,
        raster_no: 1,
        recover: true,
    };
    assert_eq!(
        encode_print_info(&info),
        [0x1b, 0x69, 0x7a, 0x86, 0x4a, 50, 0, 1, 0, 0, 0, 0, 0]
    );
}

#[test]
fn print_info_default() {
    let info = PrintInfo::default();
    assert_eq!(
        info,
        PrintInfo {
            kind: None,
            width: None,
            length: Some(0),
            raster_no: 0,
            recover: true,
        }
    );
    assert_eq!(
        encode_print_info(&info),
        [0x1b, 0x69, 0x7a, 0x88, 0, 0, 0, 0, 0, 0, 0, 0, 0]
    );
}

#[test]
fn print_info_raster_number_is_little_endian() {
    let info = PrintInfo {
        kind: None,
        width: None,
        length: None,
        raster_no: 0x0102_0304,
        recover: false,
    };
    assert_eq!(
        encode_print_info(&info),
        [0x1b, 0x69, 0x7a, 0x00, 0, 0, 0, 0x04, 0x03, 0x02, 0x01, 0, 0]
    );
    let info = PrintInfo {
        raster_no: u32::MAX,
        ..info
    };
    assert_eq!(&encode_print_info(&info)[7..11], &[0xff, 0xff, 0xff, 0xff]);
}

#[test]
fn print_info_mask_tells_which_fields_are_given() {
    for combination in 0..16u8 {
        let kind = if combination & 1 != 0 {
            Some(MediaKind::DieCutLabels)
        } else {
            None
        };
        let width = if combination & 2 != 0 { Some(62) } else { None };
        let length = if combination & 4 != 0 { Some(100) } else { None };
        let recover = combination & 8 != 0;
        let info = PrintInfo {
            kind,
            width,
            length,
            raster_no: 7,
            recover,
        };
        let frame = encode_print_info(&info);
        assert_eq!(frame.len(), 13);
        assert_eq!(&frame[..3], &[0x1b, 0x69, 0x7a]);
        assert_eq!(frame[3] & 0x02 != 0, kind.is_some());
        assert_eq!(frame[3] & 0x04 != 0, width.is_some());
        assert_eq!(frame[3] & 0x08 != 0, length.is_some());
        assert_eq!(frame[3] & 0x80 != 0, recover);
        assert_eq!(frame[3] & 0x71, 0);
        assert_eq!(frame[4], if kind.is_some() { 0x4b } else { 0 });
        assert_eq!(frame[5], if width.is_some() { 62 } else { 0 });
        assert_eq!(frame[6], if length.is_some() { 100 } else { 0 });
        assert_eq!(&frame[7..], &[7, 0, 0, 0, 0, 0]);
    }
}

#[test]
fn print_info_zero_is_a_value_not_an_absence() {
    let given = PrintInfo {
        kind: Some(MediaKind::NoMedia),
        width: Some(0),
        length: Some(0),
        raster_no: 0,
        recover: false,
    };
    let absent = PrintInfo {
        kind: None,
        width: None,
        length: None,
        raster_no: 0,
        recover: false,
    };
    assert_eq!(encode_print_info(&given)[3], 0x0e);
    assert_eq!(encode_print_info(&absent)[3], 0x00);
    assert_eq!(&encode_print_info(&given)[4..], &encode_print_info(&absent)[4..]);
}

#[test]
fn print_info_keeps_an_unknown_kind_byte() {
    let info = PrintInfo {
        kind: Some(MediaKind::IncompatibleTape(0x77)),
        width: None,
        length: None,
        raster_no: 0,
        recover: false,
    };
    assert_eq!(encode_print_info(&info)[4], 0x77);
}

#[test]
fn various_mode_frame() {
    let cut = VariousMode::from_bits_truncate(VariousMode::AUTO_CUT);
    assert_eq!(encode_various_mode(cut), [0x1b, 0x69, 0x4d, 0x40]);
    let both = cut.union(VariousMode::from_bits_truncate(VariousMode::MIRROR));
    assert_eq!(encode_various_mode(both), [0x1b, 0x69, 0x4d, 0xc0]);
    assert_eq!(
        encode_various_mode(VariousMode::empty()),
        [0x1b, 0x69, 0x4d, 0x00]
    );
}

#[test]
fn various_mode_flags() {
    assert_eq!(VariousMode::AUTO_CUT, 1 << 6);
    assert_eq!(VariousMode::MIRROR, 1 << 7);
    assert_eq!(VariousMode::all().bits(), 0xc0);
    assert_eq!(VariousMode::empty().bits(), 0);
    for bits in 0..=255u8 {
        let mode = VariousMode::from_bits_truncate(bits);
        assert_eq!(mode.bits(), bits & 0xc0);
        assert_eq!(VariousMode::from_bits_truncate(mode.bits()), mode);
        assert_eq!(mode.contains(VariousMode::MIRROR), bits & 0x80 != 0);
    }
    let cut = VariousMode::from_bits_truncate(VariousMode::AUTO_CUT);
    let mirror = VariousMode::from_bits_truncate(VariousMode::MIRROR);
    assert_eq!(cut.union(mirror), mirror.union(cut));
    assert_eq!(cut.union(mirror), VariousMode::all());
}

#[test]
fn advanced_mode_frame() {
    let mode = AdvancedMode::from_bits_truncate(AdvancedMode::HALF_CUT | AdvancedMode::HIGH_RES);
    assert_eq!(encode_advanced_mode(mode), [0x1b, 0x69, 0x4b, 0x44]);
    assert_eq!(
        encode_advanced_mode(AdvancedMode::all()),
        [0x1b, 0x69, 0x4b, 0xdc]
    );
}

#[test]
fn advanced_mode_flags() {
    assert_eq!(AdvancedMode::HALF_CUT, 1 << 2);
    assert_eq!(AdvancedMode::NO_CHAIN, 1 << 3);
    assert_eq!(AdvancedMode::SPECIAL_TAPE, 1 << 4);
    assert_eq!(AdvancedMode::HIGH_RES, 1 << 6);
    assert_eq!(AdvancedMode::NO_BUFF_CLEAR, 1 << 7);
    assert_eq!(AdvancedMode::empty().bits(), 0);
    for bits in 0..=255u8 {
        let mode = AdvancedMode::from_bits_truncate(bits);
        assert_eq!(mode.bits(), bits & 0xdc);
        assert_eq!(mode.contains(AdvancedMode::NO_CHAIN), bits & 0x08 != 0);
    }
    let a = AdvancedMode::from_bits_truncate(AdvancedMode::NO_CHAIN);
    let b = AdvancedMode::from_bits_truncate(AdvancedMode::SPECIAL_TAPE);
    assert_eq!(a.union(b).bits(), 0x18);
    assert_eq!(a.union(b), b.union(a));
}

#[test]
fn margin_is_little_endian() {
    assert_eq!(encode_margin(0), [0x1b, 0x69, 0x64, 0x00, 0x00]);
    assert_eq!(encode_margin(35), [0x1b, 0x69, 0x64, 35, 0x00]);
    assert_eq!(encode_margin(0x1234), [0x1b, 0x69, 0x64, 0x34, 0x12]);
    assert_eq!(encode_margin(u16::MAX), [0x1b, 0x69, 0x64, 0xff, 0xff]);
}

#[test]
fn page_number_frame() {
    assert_eq!(encode_page_no(1), [0x1b, 0x69, 0x41, 1]);
    assert_eq!(encode_page_no(255), [0x1b, 0x69, 0x41, 255]);
}

#[test]
fn compression_mode_frame() {
    assert_eq!(
        encode_compression_mode(CompressionMode::NoCompression),
        [0x4d, 0x00]
    );
    assert_eq!(encode_compression_mode(CompressionMode::Tiff), [0x4d, 0x02]);
}

#[test]
fn raster_line_of_80_bytes() {
    let line = [0xf0u8; 80];
    let frame = encode_raster_line(&line);
    assert_eq!(frame.len(), 83);
    assert_eq!(&frame[..3], &[0x67, 0x00, 0x50]);
    assert!(frame[3..].iter().all(|b| *b == 0xf0));
    assert_eq!(frame[3..].len(), 80);
}

#[test]
fn raster_line_of_90_bytes() {
    let line: Vec<u8> = (0..90).collect();
    let frame = encode_raster_line(&line);
    assert_eq!(&frame[..3], &[0x67, 0x00, 90]);
    assert_eq!(&frame[3..], line.as_slice());
}

#[test]
fn raster_line_length_is_cut_to_one_byte() {
    assert_eq!(encode_raster_line(&[]), vec![0x67, 0x00, 0x00]);
    assert_eq!(encode_raster_line(&[0u8; 255])[2], 255);
    let frame = encode_raster_line(&[1u8; 256]);
    assert_eq!(frame[2], 0);
    assert_eq!(frame.len(), 259);
    assert_eq!(encode_raster_line(&[1u8; 300])[2], 44);
}
