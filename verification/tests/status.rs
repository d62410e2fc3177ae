use ql_raster::status::{
    reply_payload, DeviceStatus, ErrorStatus, MediaKind, Model, Status, TapeColour, TextColour,
};
use ql_raster::PTouchError;

const EXAMPLE: [u8; 32] = [
    128, 32, 66, 52, 57, 48, 4, 0, 0, 0, 50, 10, 0, 0, 27, 0, 0, 0, 0, 0, 0, 0, 0, 0, 0, 1, 0, 0,
    0, 0, 0, 0,
];

#[test]
fn parse_status() {
    // 80204234393004000000320a00001b0000000000000000000001000000000000
    let status_example = [
        128, 32, 66, 52, 57, 48, 4, 0, 0, 0, 50, 10, 0, 0, 27, 0, 0, 0, 0, 0, 0, 0, 0, 0, 0, 1, 0,
        0, 0, 0, 0, 0,
    ];
    let status = Status::from(status_example);
    assert_eq!(status.model, Model::QL810W);
    assert_eq!(status.error_status.bits(), 0);
    assert_eq!(status.media_width, 50);
    assert_eq!(status.media_length, 0);
    assert_eq!(status.media_kind, MediaKind::ContinuousLengthTape);
    assert_eq!(status.status_type, DeviceStatus::Reply);
    assert_eq!(status.tape_colour, TapeColour::Unknown);
    assert_eq!(status.text_colour, TextColour::White);
}

#[test]
fn known_payload_decodes_by_offset() {
    let status = Status::try_from(&EXAMPLE[..]).unwrap();
    assert_eq!(status.media_width, 0x32);
    assert_eq!(status.media_kind, MediaKind::ContinuousLengthTape);
    assert_eq!(status, Status::from(EXAMPLE));
    // The bytes 0x42 and 0x1b of the payload lie at offsets 2 and 14, which
    // hold no field; as a model and a status type they would be fallbacks.
    assert_eq!(EXAMPLE[2], 0x42);
    assert_eq!(EXAMPLE[14], 0x1b);
    assert_eq!(Model::from(0x42), Model::Unknown(0x42));
    assert_eq!(DeviceStatus::from(0x1b), DeviceStatus::Unknown(0x1b));
}

#[test]
fn every_field_is_read_at_its_offset() {
    let mut payload = [0u8; 32];
    payload[4] = 0x38;
    payload[8] = 0x04;
    payload[9] = 0x10;
    payload[10] = 62;
    payload[11] = 0x4b;
    payload[17] = 100;
    payload[18] = 0x02;
    payload[24] = 0x08;
    payload[25] = 0x0a;
    let status = Status::from(payload);
    assert_eq!(status.model, Model::QL800);
    assert_eq!(status.error_status.bits(), 0x1004);
    assert_eq!(status.media_width, 62);
    assert_eq!(status.media_kind, MediaKind::DieCutLabels);
    assert_eq!(status.media_length, 100);
    assert_eq!(status.status_type, DeviceStatus::Error);
    assert_eq!(status.tape_colour, TapeColour::Black);
    assert_eq!(status.text_colour, TextColour::Gold);
}

#[test]
fn bytes_off_the_fields_do_not_matter() {
    let mut payload = [0xffu8; 32];
    for at in [4, 8, 9, 10, 11, 17, 18, 24, 25] {
        payload[at] = EXAMPLE[at];
    }
    assert_eq!(Status::from(payload), Status::from(EXAMPLE));
}

#[test]
fn wrong_length_is_an_invalid_payload() {
    for len in [0usize, 1, 31, 33, 64] {
        let bytes = vec![0u8; len];
        assert!(matches!(
            Status::try_from(bytes.as_slice()),
            Err(PTouchError::InvalidStatusPayload)
        ));
    }
}

#[test]
fn every_payload_of_32_bytes_decodes() {
    for fill in 0..=255u8 {
        let bytes = vec![fill; 32];
        assert!(Status::try_from(bytes.as_slice()).is_ok());
    }
}

#[test]
fn reply_is_parsed_or_passed_on() {
    let status = Status::from_reply(Ok(EXAMPLE.to_vec())).unwrap();
    assert_eq!(status, Status::from(EXAMPLE));
    assert!(matches!(
        Status::from_reply(Ok(vec![1, 2, 3])),
        Err(PTouchError::InvalidStatusPayload)
    ));
    assert!(matches!(
        Status::from_reply(Ok(Vec::new())),
        Err(PTouchError::InvalidStatusPayload)
    ));
    assert!(matches!(
        Status::from_reply(Err(PTouchError::SNMPError)),
        Err(PTouchError::SNMPError)
    ));
    let io = std::io::Error::new(std::io::ErrorKind::TimedOut, "timeout");
    assert!(matches!(
        Status::from_reply(Err(PTouchError::from(io))),
        Err(PTouchError::IoError(_))
    ));
}

#[test]
fn reply_without_octets_is_a_query_failure() {
    assert!(matches!(reply_payload(None), Err(PTouchError::SNMPError)));
    assert_eq!(reply_payload(Some(vec![1, 2, 3])).unwrap(), vec![1, 2, 3]);
    assert_eq!(reply_payload(Some(vec![0])).unwrap(), vec![0]);
    assert!(matches!(
        reply_payload(Some(Vec::new())),
        Err(PTouchError::SNMPError)
    ));
    assert!(matches!(
        Status::from_reply(reply_payload(None)),
        Err(PTouchError::SNMPError)
    ));
    assert_eq!(
        Status::from_reply(reply_payload(Some(EXAMPLE.to_vec()))).unwrap(),
        Status::from(EXAMPLE)
    );
}

#[test]
fn model_bytes() {
    let known = [
        (0x36, Model::QL710W),
        (0x37, Model::QL720NW),
        (0x38, Model::QL800),
        (0x39, Model::QL810W),
        (0x41, Model::QL820NWB),
        (0x47, Model::QL600),
        (0x64, Model::PTH500),
        (0x65, Model::PTE500),
        (0x67, Model::PTP700),
    ];
    for b in 0..=255u8 {
        let expected = known
            .iter()
            .find(|(tag, _)| *tag == b)
            .map(|(_, model)| *model)
            .unwrap_or(Model::Unknown(b));
        assert_eq!(Model::from(b), expected);
    }
}

#[test]
fn model_resolution() {
    for model in [
        Model::QL710W,
        Model::QL720NW,
        Model::QL800,
        Model::QL810W,
        Model::QL820NWB,
        Model::QL600,
    ] {
        assert_eq!(model.dpi(), 300);
        assert!(model.support_double_dpi());
    }
    for model in [Model::PTH500, Model::PTE500, Model::PTP700] {
        assert_eq!(model.dpi(), 180);
        assert!(!model.support_double_dpi());
    }
    assert_eq!(Model::Unknown(0x42).dpi(), 0);
    assert!(!Model::Unknown(0x42).support_double_dpi());
    assert_eq!(Model::Unknown(0x36).dpi(), 0);
}

#[test]
fn media_kind_bytes() {
    let known = [
        (0x00, MediaKind::NoMedia),
        (0x01, MediaKind::LaminatedTape),
        (0x03, MediaKind::NonLaminatedTape),
        (0x11, MediaKind::HeatShrinkTube),
        (0x17, MediaKind::HeatShrinkTube),
        (0x14, MediaKind::FlexibleTape),
        (0x4a, MediaKind::ContinuousLengthTape),
        (0x0a, MediaKind::ContinuousLengthTape),
        (0x4b, MediaKind::DieCutLabels),
    ];
    for b in 0..=255u8 {
        let expected = known
            .iter()
            .find(|(tag, _)| *tag == b)
            .map(|(_, kind)| *kind)
            .unwrap_or(MediaKind::IncompatibleTape(b));
        assert_eq!(MediaKind::from(b), expected);
    }
}

#[test]
fn media_kind_tags() {
    assert_eq!(u8::from(MediaKind::NoMedia), 0x00);
    assert_eq!(u8::from(MediaKind::LaminatedTape), 0x01);
    assert_eq!(u8::from(MediaKind::NonLaminatedTape), 0x03);
    assert_eq!(u8::from(MediaKind::HeatShrinkTube), 0x11);
    assert_eq!(u8::from(MediaKind::FlexibleTape), 0x14);
    assert_eq!(u8::from(MediaKind::ContinuousLengthTape), 0x4a);
    assert_eq!(u8::from(MediaKind::DieCutLabels), 0x4b);
    assert_eq!(u8::from(MediaKind::IncompatibleTape(0x99)), 0x99);
    // Decoding what was encoded gives the same kind for every byte.
    for b in 0..=255u8 {
        let kind = MediaKind::from(b);
        assert_eq!(MediaKind::from(u8::from(kind)), kind);
    }
}

#[test]
fn device_status_bytes() {
    let known = [
        DeviceStatus::Reply,
        DeviceStatus::Completed,
        DeviceStatus::Error,
        DeviceStatus::ExitIF,
        DeviceStatus::TurnedOff,
        DeviceStatus::Notification,
        DeviceStatus::PhaseChange,
    ];
    for b in 0..=255u8 {
        let expected = if (b as usize) < known.len() {
            known[b as usize]
        } else {
            DeviceStatus::Unknown(b)
        };
        assert_eq!(DeviceStatus::from(b), expected);
    }
}

#[test]
fn tape_colour_bytes() {
    let known = [
        (0x01, TapeColour::White),
        (0x02, TapeColour::Other),
        (0x03, TapeColour::ClearBlack),
        (0x04, TapeColour::Red),
        (0x05, TapeColour::Blue),
        (0x08, TapeColour::Black),
        (0x09, TapeColour::ClearWhite),
        (0x20, TapeColour::MatteWhite),
        (0x21, TapeColour::MatteClear),
        (0x22, TapeColour::MatteSilver),
        (0x23, TapeColour::SatinGold),
        (0x24, TapeColour::SatinSilver),
        (0x30, TapeColour::BlueD),
        (0x31, TapeColour::RedD),
        (0x40, TapeColour::FluroOrange),
        (0x41, TapeColour::FluroYellow),
        (0x50, TapeColour::BerryPinkS),
        (0x51, TapeColour::LightGrayS),
        (0x52, TapeColour::LimeGreenS),
        (0x60, TapeColour::YellowF),
        (0x61, TapeColour::PinkF),
        (0x62, TapeColour::BlueF),
        (0x70, TapeColour::WhiteHst),
        (0x90, TapeColour::WhiteFlexId),
        (0x91, TapeColour::YellowFlexId),
        (0xf0, TapeColour::Cleaning),
        (0xf1, TapeColour::Stencil),
    ];
    for b in 0..=255u8 {
        let expected = known
            .iter()
            .find(|(tag, _)| *tag == b)
            .map(|(_, colour)| *colour)
            .unwrap_or(TapeColour::Unknown);
        assert_eq!(TapeColour::from(b), expected);
    }
}

#[test]
fn text_colour_bytes() {
    let known = [
        (0x01, TextColour::White),
        (0x04, TextColour::Red),
        (0x05, TextColour::Blue),
        (0x08, TextColour::Black),
        (0x0a, TextColour::Gold),
        (0x62, TextColour::BlueF),
        (0xf0, TextColour::Cleaning),
        (0xf1, TextColour::Stencil),
        (0x02, TextColour::Other),
    ];
    for b in 0..=255u8 {
        let expected = known
            .iter()
            .find(|(tag, _)| *tag == b)
            .map(|(_, colour)| *colour)
            .unwrap_or(TextColour::Unknown);
        assert_eq!(TextColour::from(b), expected);
    }
}

#[test]
fn error_flags_round_trip() {
    for bits in 0..=u16::MAX {
        assert_eq!(ErrorStatus::from_bits_truncate(bits).bits(), bits);
    }
}

#[test]
fn error_flag_names_follow_the_bits() {
    let names = [
        "NO_MEDIA",
        "END_OF_MEDIA",
        "CUTTER_JAM",
        "WEAK_BATT",
        "IN_USE",
        "PRINTER_OFF",
        "HIGH_VOLT",
        "FAN_MOTOR_ERROR",
        "WRONG_MEDIA",
        "EXP_BUFFER_FULL",
        "COMMS_ERROR",
        "COMMS_BUFFFER_FULL",
        "COVER_OPEN",
        "OVERHEAT",
        "MEDIA_END",
        "SYSTEM_ERROR",
    ];
    for bits in [0u16, 0x0001, 0x8000, 0x1004, 0x00ff, 0xff00, 0xa5a5, 0xffff] {
        let set = ErrorStatus::from_bits_truncate(bits);
        let expected: Vec<(&str, ErrorStatus)> = (0..16)
            .filter(|k| bits & (1 << k) != 0)
            .map(|k| (names[k], ErrorStatus::from_bits_truncate(1 << k)))
            .collect();
        assert_eq!(set.iter_names(), expected);
    }
}

#[test]
fn error_flag_names_of_two_flags() {
    let set = ErrorStatus::from_bits_truncate(ErrorStatus::COVER_OPEN | ErrorStatus::CUTTER_JAM);
    let names: Vec<&str> = set.iter_names().iter().map(|(name, _)| *name).collect();
    assert_eq!(names, vec!["CUTTER_JAM", "COVER_OPEN"]);
}

#[test]
fn error_flag_queries() {
    let set = ErrorStatus::from_bits_truncate(0x1004);
    assert!(set.contains(ErrorStatus::COVER_OPEN));
    assert!(set.contains(ErrorStatus::COVER_OPEN | ErrorStatus::CUTTER_JAM));
    assert!(!set.contains(ErrorStatus::COVER_OPEN | ErrorStatus::NO_MEDIA));
    assert!(set.intersects(ErrorStatus::COVER_OPEN | ErrorStatus::NO_MEDIA));
    assert!(!set.intersects(ErrorStatus::NO_MEDIA));
    assert!(!set.is_empty());
    assert!(ErrorStatus::empty().is_empty());
    assert_eq!(ErrorStatus::empty().bits(), 0);
    let both = set.union(ErrorStatus::from_bits_truncate(ErrorStatus::NO_MEDIA));
    assert_eq!(both.bits(), 0x1005);
    assert_eq!(
        both,
        ErrorStatus::from_bits_truncate(ErrorStatus::NO_MEDIA).union(set)
    );
}

#[test]
fn error_flag_bits() {
    assert_eq!(ErrorStatus::NO_MEDIA, 0x0001);
    assert_eq!(ErrorStatus::END_OF_MEDIA, 0x0002);
    assert_eq!(ErrorStatus::CUTTER_JAM, 0x0004);
    assert_eq!(ErrorStatus::WEAK_BATT, 0x0008);
    assert_eq!(ErrorStatus::IN_USE, 0x0010);
    assert_eq!(ErrorStatus::PRINTER_OFF, 0x0020);
    assert_eq!(ErrorStatus::HIGH_VOLT, 0x0040);
    assert_eq!(ErrorStatus::FAN_MOTOR_ERROR, 0x0080);
    assert_eq!(ErrorStatus::WRONG_MEDIA, 0x0100);
    assert_eq!(ErrorStatus::EXP_BUFFER_FULL, 0x0200);
    assert_eq!(ErrorStatus::COMMS_ERROR, 0x0400);
    assert_eq!(ErrorStatus::COMMS_BUFFFER_FULL, 0x0800);
    assert_eq!(ErrorStatus::COVER_OPEN, 0x1000);
    assert_eq!(ErrorStatus::OVERHEAT, 0x2000);
    assert_eq!(ErrorStatus::MEDIA_END, 0x4000);
    assert_eq!(ErrorStatus::SYSTEM_ERROR, 0x8000);
}

#[test]
fn error_flags_are_little_endian() {
    let mut payload = [0u8; 32];
    payload[8] = 0x01;
    assert_eq!(Status::from(payload).error_status.bits(), ErrorStatus::NO_MEDIA);
    payload[8] = 0x00;
    payload[9] = 0x80;
    assert_eq!(
        Status::from(payload).error_status.bits(),
        ErrorStatus::SYSTEM_ERROR
    );
}
