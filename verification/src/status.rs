//! The 32-byte status payload and the values it decodes to.
//!
//! Decoding is positional and total: every byte value of every enumerated
//! field has a variant, so a payload of the right length always decodes.
use vstd::prelude::*;
use vstd::std_specs::convert::{FromSpecImpl, TryFromSpecImpl};
use crate::{PTouchError, Result};
use crate::wire::{le16, u16_from_le};

verus! {

/// Length of a status payload in bytes.
pub const STATUS_LEN: usize = 32;

/// Something that can be asked for the device's status.
pub trait GetStatus {
    fn get_status(&mut self) -> Result<Status>;
}

/// Device status message.
#[derive(Clone, Copy, PartialEq, Eq, Debug, Structural)]
pub struct Status {
    pub model: Model,
    pub error_status: ErrorStatus,
    pub status_type: DeviceStatus,
    /// Media width in mm.
    pub media_width: u8,
    /// Media length in mm; 0 for continuous media.
    pub media_length: u8,
    pub media_kind: MediaKind,
    pub tape_colour: TapeColour,
    pub text_colour: TextColour,
}

/// Device identity; a byte that names no known model is kept as it came.
#[derive(Clone, Copy, PartialEq, Eq, Debug, Structural)]
pub enum Model {
    QL710W,
    QL720NW,
    QL800,
    QL810W,
    QL820NWB,
    QL600,
    PTH500,
    PTE500,
    PTP700,
    Unknown(u8),
}

/// Kind of media loaded in the printer; a byte that names no known kind is
/// kept as it came.
#[derive(Clone, Copy, PartialEq, Eq, Debug, Structural)]
pub enum MediaKind {
    NoMedia,
    LaminatedTape,
    NonLaminatedTape,
    HeatShrinkTube,
    FlexibleTape,
    ContinuousLengthTape,
    DieCutLabels,
    IncompatibleTape(u8),
}

/// Kind of response that a status payload is.
#[derive(Clone, Copy, PartialEq, Eq, Debug, Structural)]
pub enum DeviceStatus {
    Reply,
    Completed,
    Error,
    ExitIF,
    TurnedOff,
    Notification,
    PhaseChange,
    Unknown(u8),
}

/// Tape colour.
#[derive(Clone, Copy, PartialEq, Eq, Debug, Structural)]
pub enum TapeColour {
    White,
    Other,
    ClearBlack,
    Red,
    Blue,
    Black,
    ClearWhite,
    MatteWhite,
    MatteClear,
    MatteSilver,
    SatinGold,
    SatinSilver,
    BlueD,
    RedD,
    FluroOrange,
    FluroYellow,
    BerryPinkS,
    LightGrayS,
    LimeGreenS,
    YellowF,
    PinkF,
    BlueF,
    WhiteHst,
    WhiteFlexId,
    YellowFlexId,
    Cleaning,
    Stencil,
    Unknown,
}

/// Text colour.
#[derive(Clone, Copy, PartialEq, Eq, Debug, Structural)]
pub enum TextColour {
    White,
    Red,
    Blue,
    Black,
    Gold,
    BlueF,
    Cleaning,
    Stencil,
    Other,
    Unknown,
}

impl Model {
    /// Whether `b` is the tag of a known model.
    pub open spec fn is_known_tag(b: u8) -> bool {
        b == 0x36 || b == 0x37 || b == 0x38 || b == 0x39 || b == 0x41 || b == 0x47 || b == 0x64
            || b == 0x65 || b == 0x67
    }

    /// The model that the byte `b` names.
    pub open spec fn of_byte(b: u8) -> Model {
        match b {
            0x36 => Model::QL710W,
            0x37 => Model::QL720NW,
            0x38 => Model::QL800,
            0x39 => Model::QL810W,
            0x41 => Model::QL820NWB,
            0x47 => Model::QL600,
            0x64 => Model::PTH500,
            0x65 => Model::PTE500,
            0x67 => Model::PTP700,
            _ => Model::Unknown(b),
        }
    }

    /// Print resolution in dots per inch; 0 where the model is not known.
    pub open spec fn spec_dpi(&self) -> u16 {
        match *self {
            Model::QL710W
            | Model::QL720NW
            | Model::QL800
            | Model::QL810W
            | Model::QL820NWB
            | Model::QL600 => 300,
            Model::PTH500 | Model::PTE500 | Model::PTP700 => 180,
            Model::Unknown(_) => 0,
        }
    }

    /// Whether the model is one of the 300 dpi desk printers.
    pub open spec fn is_desk_printer(&self) -> bool {
        self.spec_dpi() == 300
    }

    /// Print resolution in dots per inch; 0 where the model is not known.
    #[verifier::when_used_as_spec(spec_dpi)]
    pub fn dpi(&self) -> (r: u16)
        ensures
            r == self.spec_dpi(),
    {
        match self {
            Self::QL710W
            | Self::QL720NW
            | Self::QL800
            | Self::QL810W
            | Self::QL820NWB
            | Self::QL600 => 300,
            Self::PTH500 | Self::PTE500 | Self::PTP700 => 180,
            Self::Unknown(_) => 0,
        }
    }

    /// Does the printer support double vertical resolution (half speed)?
    pub fn support_double_dpi(&self) -> (r: bool)
        ensures
            r == self.is_desk_printer(),
    {
        match self {
            Self::QL710W
            | Self::QL720NW
            | Self::QL800
            | Self::QL810W
            | Self::QL820NWB
            | Self::QL600 => true,
            Self::PTH500 | Self::PTE500 | Self::PTP700 => false,
            Self::Unknown(_) => false,
        }
    }
}

impl From<u8> for Model {
    fn from(b: u8) -> (m: Model) {
        match b {
            0x36 => Model::QL710W,
            0x37 => Model::QL720NW,
            0x38 => Model::QL800,
            0x39 => Model::QL810W,
            0x41 => Model::QL820NWB,
            0x47 => Model::QL600,
            0x64 => Model::PTH500,
            0x65 => Model::PTE500,
            0x67 => Model::PTP700,
            _ => Model::Unknown(b),
        }
    }
}

impl FromSpecImpl<u8> for Model {
    open spec fn obeys_from_spec() -> bool {
        true
    }

    open spec fn from_spec(b: u8) -> Model {
        Model::of_byte(b)
    }
}

impl MediaKind {
    /// Whether `b` names a known kind of media, by its own tag or by an
    /// alternative one.
    pub open spec fn is_known_tag(b: u8) -> bool {
        b == 0x00 || b == 0x01 || b == 0x03 || b == 0x11 || b == 0x17 || b == 0x14 || b == 0x4a
            || b == 0x0a || b == 0x4b
    }

    /// The kind of media that the byte `b` names. Heat-shrink tube and
    /// continuous tape are each named by two bytes.
    pub open spec fn of_byte(b: u8) -> MediaKind {
        match b {
            0x00 => MediaKind::NoMedia,
            0x01 => MediaKind::LaminatedTape,
            0x03 => MediaKind::NonLaminatedTape,
            0x11 | 0x17 => MediaKind::HeatShrinkTube,
            0x14 => MediaKind::FlexibleTape,
            0x4a | 0x0a => MediaKind::ContinuousLengthTape,
            0x4b => MediaKind::DieCutLabels,
            _ => MediaKind::IncompatibleTape(b),
        }
    }

    /// The byte that stands for this kind on the wire.
    pub open spec fn tag(self) -> u8 {
        match self {
            MediaKind::NoMedia => 0x00,
            MediaKind::LaminatedTape => 0x01,
            MediaKind::NonLaminatedTape => 0x03,
            MediaKind::HeatShrinkTube => 0x11,
            MediaKind::FlexibleTape => 0x14,
            MediaKind::ContinuousLengthTape => 0x4a,
            MediaKind::DieCutLabels => 0x4b,
            MediaKind::IncompatibleTape(b) => b,
        }
    }
}

impl From<u8> for MediaKind {
    fn from(b: u8) -> (k: MediaKind) {
        match b {
            0x00 => MediaKind::NoMedia,
            0x01 => MediaKind::LaminatedTape,
            0x03 => MediaKind::NonLaminatedTape,
            0x11 | 0x17 => MediaKind::HeatShrinkTube,
            0x14 => MediaKind::FlexibleTape,
            0x4a | 0x0a => MediaKind::ContinuousLengthTape,
            0x4b => MediaKind::DieCutLabels,
            _ => MediaKind::IncompatibleTape(b),
        }
    }
}

impl FromSpecImpl<u8> for MediaKind {
    open spec fn obeys_from_spec() -> bool {
        true
    }

    open spec fn from_spec(b: u8) -> MediaKind {
        MediaKind::of_byte(b)
    }
}

impl From<MediaKind> for u8 {
    fn from(kind: MediaKind) -> (b: u8) {
        match kind {
            MediaKind::NoMedia => 0x00,
            MediaKind::LaminatedTape => 0x01,
            MediaKind::NonLaminatedTape => 0x03,
            MediaKind::HeatShrinkTube => 0x11,
            MediaKind::FlexibleTape => 0x14,
            MediaKind::ContinuousLengthTape => 0x4a,
            MediaKind::DieCutLabels => 0x4b,
            MediaKind::IncompatibleTape(b) => b,
        }
    }
}

impl FromSpecImpl<MediaKind> for u8 {
    open spec fn obeys_from_spec() -> bool {
        true
    }

    open spec fn from_spec(kind: MediaKind) -> u8 {
        kind.tag()
    }
}

impl DeviceStatus {
    /// Whether `b` is the tag of a known kind of response.
    pub open spec fn is_known_tag(b: u8) -> bool {
        b <= 0x06
    }

    /// The kind of response that the byte `b` names.
    pub open spec fn of_byte(b: u8) -> DeviceStatus {
        match b {
            0x00 => DeviceStatus::Reply,
            0x01 => DeviceStatus::Completed,
            0x02 => DeviceStatus::Error,
            0x03 => DeviceStatus::ExitIF,
            0x04 => DeviceStatus::TurnedOff,
            0x05 => DeviceStatus::Notification,
            0x06 => DeviceStatus::PhaseChange,
            _ => DeviceStatus::Unknown(b),
        }
    }
}

impl From<u8> for DeviceStatus {
    fn from(b: u8) -> (s: DeviceStatus) {
        match b {
            0x00 => DeviceStatus::Reply,
            0x01 => DeviceStatus::Completed,
            0x02 => DeviceStatus::Error,
            0x03 => DeviceStatus::ExitIF,
            0x04 => DeviceStatus::TurnedOff,
            0x05 => DeviceStatus::Notification,
            0x06 => DeviceStatus::PhaseChange,
            _ => DeviceStatus::Unknown(b),
        }
    }
}

impl FromSpecImpl<u8> for DeviceStatus {
    open spec fn obeys_from_spec() -> bool {
        true
    }

    open spec fn from_spec(b: u8) -> DeviceStatus {
        DeviceStatus::of_byte(b)
    }
}

impl TapeColour {
    /// Whether `b` is the tag of a known tape colour.
    pub open spec fn is_known_tag(b: u8) -> bool {
        b == 0x01 || b == 0x02 || b == 0x03 || b == 0x04 || b == 0x05 || b == 0x08 || b == 0x09
            || b == 0x20 || b == 0x21 || b == 0x22 || b == 0x23 || b == 0x24 || b == 0x30 || b
            == 0x31 || b == 0x40 || b == 0x41 || b == 0x50 || b == 0x51 || b == 0x52 || b == 0x60
            || b == 0x61 || b == 0x62 || b == 0x70 || b == 0x90 || b == 0x91 || b == 0xf0 || b
            == 0xf1
    }

    /// The tape colour that the byte `b` names.
    pub open spec fn of_byte(b: u8) -> TapeColour {
        match b {
            0x01 => TapeColour::White,
            0x02 => TapeColour::Other,
            0x03 => TapeColour::ClearBlack,
            0x04 => TapeColour::Red,
            0x05 => TapeColour::Blue,
            0x08 => TapeColour::Black,
            0x09 => TapeColour::ClearWhite,
            0x20 => TapeColour::MatteWhite,
            0x21 => TapeColour::MatteClear,
            0x22 => TapeColour::MatteSilver,
            0x23 => TapeColour::SatinGold,
            0x24 => TapeColour::SatinSilver,
            0x30 => TapeColour::BlueD,
            0x31 => TapeColour::RedD,
            0x40 => TapeColour::FluroOrange,
            0x41 => TapeColour::FluroYellow,
            0x50 => TapeColour::BerryPinkS,
            0x51 => TapeColour::LightGrayS,
            0x52 => TapeColour::LimeGreenS,
            0x60 => TapeColour::YellowF,
            0x61 => TapeColour::PinkF,
            0x62 => TapeColour::BlueF,
            0x70 => TapeColour::WhiteHst,
            0x90 => TapeColour::WhiteFlexId,
            0x91 => TapeColour::YellowFlexId,
            0xf0 => TapeColour::Cleaning,
            0xf1 => TapeColour::Stencil,
            _ => TapeColour::Unknown,
        }
    }
}

impl From<u8> for TapeColour {
    fn from(b: u8) -> (c: TapeColour) {
        match b {
            0x01 => TapeColour::White,
            0x02 => TapeColour::Other,
            0x03 => TapeColour::ClearBlack,
            0x04 => TapeColour::Red,
            0x05 => TapeColour::Blue,
            0x08 => TapeColour::Black,
            0x09 => TapeColour::ClearWhite,
            0x20 => TapeColour::MatteWhite,
            0x21 => TapeColour::MatteClear,
            0x22 => TapeColour::MatteSilver,
            0x23 => TapeColour::SatinGold,
            0x24 => TapeColour::SatinSilver,
            0x30 => TapeColour::BlueD,
            0x31 => TapeColour::RedD,
            0x40 => TapeColour::FluroOrange,
            0x41 => TapeColour::FluroYellow,
            0x50 => TapeColour::BerryPinkS,
            0x51 => TapeColour::LightGrayS,
            0x52 => TapeColour::LimeGreenS,
            0x60 => TapeColour::YellowF,
            0x61 => TapeColour::PinkF,
            0x62 => TapeColour::BlueF,
            0x70 => TapeColour::WhiteHst,
            0x90 => TapeColour::WhiteFlexId,
            0x91 => TapeColour::YellowFlexId,
            0xf0 => TapeColour::Cleaning,
            0xf1 => TapeColour::Stencil,
            _ => TapeColour::Unknown,
        }
    }
}

impl FromSpecImpl<u8> for TapeColour {
    open spec fn obeys_from_spec() -> bool {
        true
    }

    open spec fn from_spec(b: u8) -> TapeColour {
        TapeColour::of_byte(b)
    }
}

impl TextColour {
    /// Whether `b` is the tag of a known text colour.
    pub open spec fn is_known_tag(b: u8) -> bool {
        b == 0x01 || b == 0x04 || b == 0x05 || b == 0x08 || b == 0x0a || b == 0x62 || b == 0xf0
            || b == 0xf1 || b == 0x02
    }

    /// The text colour that the byte `b` names.
    pub open spec fn of_byte(b: u8) -> TextColour {
        match b {
            0x01 => TextColour::White,
            0x04 => TextColour::Red,
            0x05 => TextColour::Blue,
            0x08 => TextColour::Black,
            0x0a => TextColour::Gold,
            0x62 => TextColour::BlueF,
            0xf0 => TextColour::Cleaning,
            0xf1 => TextColour::Stencil,
            0x02 => TextColour::Other,
            _ => TextColour::Unknown,
        }
    }
}

impl From<u8> for TextColour {
    fn from(b: u8) -> (c: TextColour) {
        match b {
            0x01 => TextColour::White,
            0x04 => TextColour::Red,
            0x05 => TextColour::Blue,
            0x08 => TextColour::Black,
            0x0a => TextColour::Gold,
            0x62 => TextColour::BlueF,
            0xf0 => TextColour::Cleaning,
            0xf1 => TextColour::Stencil,
            0x02 => TextColour::Other,
            _ => TextColour::Unknown,
        }
    }
}

impl FromSpecImpl<u8> for TextColour {
    open spec fn obeys_from_spec() -> bool {
        true
    }

    open spec fn from_spec(b: u8) -> TextColour {
        TextColour::of_byte(b)
    }
}

/// Of the numbers below `n`, a filter keeps exactly those that pass it.
proof fn lemma_filter_of_range(n: nat, pass: spec_fn(int) -> bool, k: int)
    ensures
        Seq::new(n, |i: int| i).filter(pass).contains(k) <==> (0 <= k < n && pass(k)),
    decreases n,
{
    reveal(Seq::filter);
    let all = Seq::new(n, |i: int| i);
    if n > 0 {
        assert(all.drop_last() =~= Seq::new((n - 1) as nat, |i: int| i));
        lemma_filter_of_range((n - 1) as nat, pass, k);
        let kept = all.drop_last().filter(pass);
        if pass(n - 1) {
            let with_last = kept.push(n - 1);
            if kept.contains(k) {
                let j = choose|j: int| 0 <= j < kept.len() && kept[j] == k;
                assert(with_last[j] == k);
            }
            if k == n - 1 {
                assert(with_last[kept.len() as int] == k);
            }
        }
    }
}

/// The 16 error flags of a status payload, one bit each.
#[derive(Clone, Copy, PartialEq, Eq, Debug, Structural)]
pub struct ErrorStatus {
    bits: u16,
}

impl ErrorStatus {
    pub const NO_MEDIA: u16 = 0x0001;
    pub const END_OF_MEDIA: u16 = 0x0002;
    pub const CUTTER_JAM: u16 = 0x0004;
    pub const WEAK_BATT: u16 = 0x0008;
    pub const IN_USE: u16 = 0x0010;
    pub const PRINTER_OFF: u16 = 0x0020;
    pub const HIGH_VOLT: u16 = 0x0040;
    pub const FAN_MOTOR_ERROR: u16 = 0x0080;
    pub const WRONG_MEDIA: u16 = 0x0100;
    pub const EXP_BUFFER_FULL: u16 = 0x0200;
    pub const COMMS_ERROR: u16 = 0x0400;
    pub const COMMS_BUFFFER_FULL: u16 = 0x0800;
    pub const COVER_OPEN: u16 = 0x1000;
    pub const OVERHEAT: u16 = 0x2000;
    pub const MEDIA_END: u16 = 0x4000;
    pub const SYSTEM_ERROR: u16 = 0x8000;

    /// The bit pattern of the set: bit `k` is flag `k`.
    pub closed spec fn view(&self) -> u16 {
        self.bits
    }

    /// The set that a 16-bit word stands for.
    pub closed spec fn spec_from_bits_truncate(bits: u16) -> ErrorStatus {
        ErrorStatus { bits }
    }

    /// The bits of the 16 flags, lowest first.
    pub open spec fn flag_bits() -> Seq<u16> {
        seq![
            0x0001u16, 0x0002u16, 0x0004u16, 0x0008u16, 0x0010u16, 0x0020u16, 0x0040u16, 0x0080u16,
            0x0100u16, 0x0200u16, 0x0400u16, 0x0800u16, 0x1000u16, 0x2000u16, 0x4000u16, 0x8000u16,
        ]
    }

    /// The documented names of the 16 flags, in the order of their bits.
    pub open spec fn flag_names() -> Seq<&'static str> {
        seq![
            "NO_MEDIA",
            "END_OF_MEDIA",
            "CUTTER_JAM",
            "WEAK_BATT",
            "IN_USE",
            "PRINTER_OFF",
            "HIGH_VOLT",
            "FAN_MOTOR_ERROR",
            "WRONG_MEDIA",
            "EXP_BUFFER_FULL",
            "COMMS_ERROR",
            "COMMS_BUFFFER_FULL",
            "COVER_OPEN",
            "OVERHEAT",
            "MEDIA_END",
            "SYSTEM_ERROR",
        ]
    }

    /// The bit of flag `k`, for `k` below 16.
    pub open spec fn flag_bit(k: int) -> u16 {
        Self::flag_bits()[k]
    }

    /// The documented name of flag `k`, for `k` below 16.
    pub open spec fn flag_name(k: int) -> &'static str {
        Self::flag_names()[k]
    }

    /// Whether flag `k` is in the set.
    pub open spec fn has_flag(&self, k: int) -> bool {
        self@ & Self::flag_bit(k) != 0
    }

    /// The flags of the set, lowest bit first.
    pub open spec fn flags(&self) -> Seq<int> {
        Seq::new(16, |k: int| k).filter(|k: int| self.has_flag(k))
    }

    /// The set that a 16-bit word stands for. Every bit is a flag, so
    /// nothing is cut off.
    #[verifier::when_used_as_spec(spec_from_bits_truncate)]
    pub fn from_bits_truncate(bits: u16) -> (e: ErrorStatus)
        ensures
            e == Self::spec_from_bits_truncate(bits),
            e@ == bits,
    {
        ErrorStatus { bits }
    }

    /// The empty set.
    pub fn empty() -> (e: ErrorStatus)
        ensures
            e@ == 0,
    {
        ErrorStatus { bits: 0 }
    }

    /// The bit pattern of the set.
    #[verifier::when_used_as_spec(view)]
    pub fn bits(&self) -> (bits: u16)
        ensures
            bits == self@,
    {
        self.bits
    }

    /// Whether no flag is set.
    pub fn is_empty(&self) -> (r: bool)
        ensures
            r == (self@ == 0),
    {
        self.bits == 0
    }

    /// Whether every flag of `mask` is set.
    pub fn contains(&self, mask: u16) -> (r: bool)
        ensures
            r == (self@ & mask == mask),
    {
        self.bits & mask == mask
    }

    /// Whether some flag of `mask` is set.
    pub fn intersects(&self, mask: u16) -> (r: bool)
        ensures
            r == (self@ & mask != 0),
    {
        self.bits & mask != 0
    }

    /// The flags of either set.
    pub closed spec fn spec_union(self, other: ErrorStatus) -> ErrorStatus {
        ErrorStatus { bits: self.bits | other.bits }
    }

    /// Sets combine in any order.
    pub proof fn lemma_union_commutes(a: ErrorStatus, b: ErrorStatus)
        ensures
            a.union(b) == b.union(a),
    {
        let x = a.bits;
        let y = b.bits;
        assert(x | y == y | x) by (bit_vector);
    }

    /// The flags of either set.
    #[verifier::when_used_as_spec(spec_union)]
    pub fn union(self, other: ErrorStatus) -> (e: ErrorStatus)
        ensures
            e == self.spec_union(other),
            e@ == self@ | other@,
    {
        ErrorStatus { bits: self.bits | other.bits }
    }

    /// Name and bit of flag `k`.
    fn flag_at(k: usize) -> (f: (&'static str, u16))
        requires
            k < 16,
        ensures
            f.0 == Self::flag_name(k as int),
            f.1 == Self::flag_bit(k as int),
    {
        match k {
            0 => ("NO_MEDIA", Self::NO_MEDIA),
            1 => ("END_OF_MEDIA", Self::END_OF_MEDIA),
            2 => ("CUTTER_JAM", Self::CUTTER_JAM),
            3 => ("WEAK_BATT", Self::WEAK_BATT),
            4 => ("IN_USE", Self::IN_USE),
            5 => ("PRINTER_OFF", Self::PRINTER_OFF),
            6 => ("HIGH_VOLT", Self::HIGH_VOLT),
            7 => ("FAN_MOTOR_ERROR", Self::FAN_MOTOR_ERROR),
            8 => ("WRONG_MEDIA", Self::WRONG_MEDIA),
            9 => ("EXP_BUFFER_FULL", Self::EXP_BUFFER_FULL),
            10 => ("COMMS_ERROR", Self::COMMS_ERROR),
            11 => ("COMMS_BUFFFER_FULL", Self::COMMS_BUFFFER_FULL),
            12 => ("COVER_OPEN", Self::COVER_OPEN),
            13 => ("OVERHEAT", Self::OVERHEAT),
            14 => ("MEDIA_END", Self::MEDIA_END),
            _ => ("SYSTEM_ERROR", Self::SYSTEM_ERROR),
        }
    }

    /// The flags that are set, each with its name, lowest bit first.
    pub fn iter_names(&self) -> (names: Vec<(&'static str, ErrorStatus)>)
        ensures
            names@ == self.flags().map_values(
                |k: int| (Self::flag_name(k), Self::from_bits_truncate(Self::flag_bit(k))),
            ),
    {
        let ghost in_set = |k: int| self.has_flag(k);
        let ghost entry = |k: int|
            (Self::flag_name(k), Self::from_bits_truncate(Self::flag_bit(k)));
        let mut names: Vec<(&'static str, ErrorStatus)> = Vec::new();
        let mut k: usize = 0;
        proof {
            reveal(Seq::filter);
            assert(Seq::new(0, |k: int| k).filter(in_set) =~= Seq::<int>::empty());
        }
        while k < 16
            invariant
                k <= 16,
                in_set == |k: int| self.has_flag(k),
                entry == |k: int| (Self::flag_name(k), Self::from_bits_truncate(Self::flag_bit(k))),
                names@ == Seq::new(k as nat, |k: int| k).filter(in_set).map_values(entry),
            decreases 16 - k,
        {
            let (name, bit) = Self::flag_at(k);
            proof {
                let upto = Seq::new((k + 1) as nat, |k: int| k);
                reveal(Seq::filter);
                assert(upto.drop_last() =~= Seq::new(k as nat, |k: int| k));
                assert(upto.last() == k);
            }
            if self.bits & bit != 0 {
                names.push((name, ErrorStatus { bits: bit }));
            }
            k += 1;
        }
        names
    }

    /// Decoding a 16-bit word and encoding it again gives the word back.
    pub proof fn lemma_bits_round_trip(bits: u16)
        ensures
            Self::from_bits_truncate(bits).bits() == bits,
    {
    }

    /// The flags that are iterated are exactly the flags that are set.
    pub proof fn lemma_flags_exact(&self, k: int)
        ensures
            self.flags().contains(k) <==> (0 <= k < 16 && self.has_flag(k)),
    {
        lemma_filter_of_range(16, |k: int| self.has_flag(k), k);
    }

    /// A set is known by its bit pattern.
    pub proof fn lemma_same_bits_same_set(a: ErrorStatus, b: ErrorStatus)
        requires
            a@ == b@,
        ensures
            a == b,
    {
    }
}

/// The payload of a side-channel reply: the octet string that the device
/// answered with. A reply with no octet string, or with an empty one, is a
/// query failure.
pub fn reply_payload(octets: Option<Vec<u8>>) -> (r: Result<Vec<u8>>)
    ensures
        r == match octets {
            Some(payload) if payload@.len() > 0 => Ok::<Vec<u8>, PTouchError>(payload),
            _ => Err(PTouchError::SNMPError),
        },
{
    match octets {
        Some(payload) => {
            if payload.len() > 0 {
                Ok(payload)
            } else {
                Err(PTouchError::SNMPError)
            }
        },
        None => Err(PTouchError::SNMPError),
    }
}

impl Status {
    /// The status that a payload of 32 bytes stands for, field by field at
    /// its fixed offset.
    pub open spec fn decode(payload: Seq<u8>) -> Status {
        Status {
            model: Model::of_byte(payload[4]),
            error_status: ErrorStatus::from_bits_truncate(le16(payload[8], payload[9])),
            status_type: DeviceStatus::of_byte(payload[18]),
            media_width: payload[10],
            media_length: payload[17],
            media_kind: MediaKind::of_byte(payload[11]),
            tape_colour: TapeColour::of_byte(payload[24]),
            text_colour: TextColour::of_byte(payload[25]),
        }
    }

    /// What decoding makes of any byte sequence: a status for exactly 32
    /// bytes, the payload error for every other length.
    pub open spec fn parse(bytes: Seq<u8>) -> Result<Status> {
        if bytes.len() == STATUS_LEN {
            Ok(Self::decode(bytes))
        } else {
            Err(PTouchError::InvalidStatusPayload)
        }
    }

    /// Decodes what a status query gave: a failed query stays the failure
    /// it was, and the bytes of a successful one are parsed.
    pub fn from_reply(reply: Result<Vec<u8>>) -> (r: Result<Status>)
        ensures
            r == match reply {
                Ok(bytes) => Self::parse(bytes@),
                Err(e) => Err(e),
            },
    {
        match reply {
            Ok(bytes) => Status::try_from(bytes.as_slice()),
            Err(e) => Err(e),
        }
    }

    /// A payload of 32 bytes always decodes, and no other length does.
    pub proof fn lemma_parse_total(bytes: Seq<u8>)
        ensures
            bytes.len() == 32 <==> Self::parse(bytes) is Ok,
            bytes.len() != 32 <==> Self::parse(bytes) == Err::<Status, PTouchError>(
                PTouchError::InvalidStatusPayload,
            ),
    {
    }

    /// The error flags of a decoded payload have the bit pattern of its
    /// bytes 8 and 9, read as a little-endian word.
    pub proof fn lemma_decode_error_bits(payload: Seq<u8>)
        ensures
            Self::decode(payload).error_status@ == le16(payload[8], payload[9]),
    {
        ErrorStatus::lemma_bits_round_trip(le16(payload[8], payload[9]));
    }

    /// A byte that names no known value of its field decodes to the
    /// fallback of that field, and a fallback that carries a byte carries
    /// that one; a byte that names a known value never decodes to the
    /// fallback.
    pub proof fn lemma_decode_fallbacks(payload: Seq<u8>)
        ensures
            !Model::is_known_tag(payload[4]) <==> Self::decode(payload).model == Model::Unknown(
                payload[4],
            ),
            Model::is_known_tag(payload[4]) <==> !(Self::decode(payload).model is Unknown),
            !MediaKind::is_known_tag(payload[11]) <==> Self::decode(payload).media_kind
                == MediaKind::IncompatibleTape(payload[11]),
            MediaKind::is_known_tag(payload[11]) <==> !(Self::decode(
                payload,
            ).media_kind is IncompatibleTape),
            !DeviceStatus::is_known_tag(payload[18]) <==> Self::decode(payload).status_type
                == DeviceStatus::Unknown(payload[18]),
            DeviceStatus::is_known_tag(payload[18]) <==> !(Self::decode(
                payload,
            ).status_type is Unknown),
            !TapeColour::is_known_tag(payload[24]) <==> Self::decode(payload).tape_colour
                == TapeColour::Unknown,
            !TextColour::is_known_tag(payload[25]) <==> Self::decode(payload).text_colour
                == TextColour::Unknown,
    {
    }
}

impl From<[u8; 32]> for Status {
    fn from(r: [u8; 32]) -> (s: Status) {
        Status {
            model: Model::from(r[4]),
            error_status: ErrorStatus::from_bits_truncate(u16_from_le(r[8], r[9])),
            media_width: r[10],
            media_length: r[17],
            media_kind: MediaKind::from(r[11]),
            status_type: DeviceStatus::from(r[18]),
            tape_colour: TapeColour::from(r[24]),
            text_colour: TextColour::from(r[25]),
        }
    }
}

impl FromSpecImpl<[u8; 32]> for Status {
    open spec fn obeys_from_spec() -> bool {
        true
    }

    open spec fn from_spec(r: [u8; 32]) -> Status {
        Status::decode(r@)
    }
}

impl<'a> TryFrom<&'a [u8]> for Status {
    type Error = PTouchError;

    fn try_from(value: &'a [u8]) -> (r: Result<Self>) {
        if value.len() != STATUS_LEN {
            return Err(PTouchError::InvalidStatusPayload);
        }
        let mut ary = [0u8; 32];
        let mut i: usize = 0;
        while i < 32
            invariant
                i <= 32,
                value@.len() == 32,
                forall|j: int| 0 <= j < i ==> ary@[j] == value@[j],
            decreases 32 - i,
        {
            ary[i] = value[i];
            i += 1;
        }
        assert(ary@ =~= value@);
        Ok(Status::from(ary))
    }
}

impl<'a> TryFromSpecImpl<&'a [u8]> for Status {
    open spec fn obeys_try_from_spec() -> bool {
        true
    }

    open spec fn try_from_spec(value: &'a [u8]) -> Result<Self> {
        Status::parse(value@)
    }
}

} // verus!
