//! The command set of the device: what each command looks like on the
//! wire, and the session operations that send it.
//!
//! Encoding is pure. Every frame is given twice: as a specification over
//! byte sequences (`*_frame`), and as the function that builds it.
use vstd::prelude::*;
use vstd::std_specs::convert::FromSpecImpl;
use crate::Result;
use crate::interface::PTouchInterface;
use crate::printer::PTouchPrinter;
use crate::status::MediaKind;
use crate::wire::{le_byte, lemma_le_bytes_weigh, u16_to_le, u32_to_le};

verus! {

/// Device mode for the switch-mode command.
#[derive(Copy, Clone, PartialEq, Eq, Debug, Structural)]
pub enum Mode {
    /// ESC/P mode (legacy high-level text mode).
    EscP,
    /// Raster mode, which every raster transfer needs.
    Raster,
    /// Template mode; not available on most devices.
    PTouchTemplate,
}

impl Mode {
    /// The byte that stands for the mode on the wire.
    pub open spec fn tag(self) -> u8 {
        match self {
            Mode::EscP => 0x00,
            Mode::Raster => 0x01,
            Mode::PTouchTemplate => 0x03,
        }
    }
}

impl Default for Mode {
    fn default() -> (m: Mode)
        ensures
            m == Mode::Raster,
    {
        Mode::Raster
    }
}

impl From<Mode> for u8 {
    fn from(mode: Mode) -> (b: u8) {
        match mode {
            Mode::EscP => 0x00,
            Mode::Raster => 0x01,
            Mode::PTouchTemplate => 0x03,
        }
    }
}

impl FromSpecImpl<Mode> for u8 {
    open spec fn obeys_from_spec() -> bool {
        true
    }

    open spec fn from_spec(mode: Mode) -> u8 {
        mode.tag()
    }
}

/// Compression of raster lines. The encoder takes both modes, but lines
/// are always transferred uncompressed: only `NoCompression` is sure to
/// print.
#[derive(Copy, Clone, PartialEq, Eq, Debug, Structural)]
pub enum CompressionMode {
    NoCompression,
    Tiff,
}

impl CompressionMode {
    /// The byte that stands for the mode on the wire.
    pub open spec fn tag(self) -> u8 {
        match self {
            CompressionMode::NoCompression => 0x00,
            CompressionMode::Tiff => 0x02,
        }
    }
}

impl From<CompressionMode> for u8 {
    fn from(mode: CompressionMode) -> (b: u8) {
        match mode {
            CompressionMode::NoCompression => 0x00,
            CompressionMode::Tiff => 0x02,
        }
    }
}

impl FromSpecImpl<CompressionMode> for u8 {
    open spec fn obeys_from_spec() -> bool {
        true
    }

    open spec fn from_spec(mode: CompressionMode) -> u8 {
        mode.tag()
    }
}

/// Various mode flags.
#[derive(Copy, Clone, PartialEq, Eq, Debug, Structural)]
pub struct VariousMode {
    bits: u8,
}

impl VariousMode {
    pub const AUTO_CUT: u8 = 0x40;
    pub const MIRROR: u8 = 0x80;

    /// Every flag at once.
    pub const ALL: u8 = 0xc0;

    /// The bit pattern of the set.
    pub closed spec fn view(&self) -> u8 {
        self.bits
    }

    /// A set holds flags only: no other bit is ever set in it.
    #[verifier::type_invariant]
    pub closed spec fn flags_only(&self) -> bool {
        self.bits & !Self::ALL == 0
    }

    /// The empty set.
    pub fn empty() -> (m: VariousMode)
        ensures
            m@ == 0,
    {
        assert(0u8 & !0xc0u8 == 0) by (bit_vector);
        VariousMode { bits: 0 }
    }

    /// The set of every flag.
    pub fn all() -> (m: VariousMode)
        ensures
            m@ == Self::ALL,
    {
        assert(0xc0u8 & !0xc0u8 == 0) by (bit_vector);
        VariousMode { bits: Self::ALL }
    }

    /// The flags among `bits`.
    pub closed spec fn spec_from_bits_truncate(bits: u8) -> VariousMode {
        VariousMode { bits: bits & Self::ALL }
    }

    /// The flags among `bits`; bits that are no flag are dropped.
    #[verifier::when_used_as_spec(spec_from_bits_truncate)]
    pub fn from_bits_truncate(bits: u8) -> (m: VariousMode)
        ensures
            m == Self::spec_from_bits_truncate(bits),
            m@ == bits & Self::ALL,
    {
        assert((bits & 0xc0u8) & !0xc0u8 == 0) by (bit_vector);
        VariousMode { bits: bits & Self::ALL }
    }

    /// The bit pattern of the set.
    #[verifier::when_used_as_spec(view)]
    pub fn bits(&self) -> (bits: u8)
        ensures
            bits == self@,
            bits & !Self::ALL == 0,
    {
        proof {
            use_type_invariant(self);
        }
        self.bits
    }

    /// Whether every flag of `mask` is set.
    pub fn contains(&self, mask: u8) -> (r: bool)
        ensures
            r == (self@ & mask == mask),
    {
        self.bits & mask == mask
    }

    /// The bit pattern of the flags among `bits` is `bits` without the
    /// bits that are no flag.
    pub proof fn lemma_from_bits_truncate(bits: u8)
        ensures
            Self::from_bits_truncate(bits).bits() == bits & Self::ALL,
    {
    }

    /// The flags of either set.
    pub closed spec fn spec_union(self, other: VariousMode) -> VariousMode {
        VariousMode { bits: self.bits | other.bits }
    }

    /// Sets combine in any order.
    pub proof fn lemma_union_commutes(a: VariousMode, b: VariousMode)
        ensures
            a.union(b) == b.union(a),
    {
        let x = a.bits;
        let y = b.bits;
        assert(x | y == y | x) by (bit_vector);
    }

    /// The flags of either set.
    #[verifier::when_used_as_spec(spec_union)]
    pub fn union(self, other: VariousMode) -> (m: VariousMode)
        ensures
            m == self.spec_union(other),
            m@ == self@ | other@,
    {
        proof {
            use_type_invariant(&self);
            use_type_invariant(&other);
        }
        let a = self.bits;
        let b = other.bits;
        assert((a | b) & !0xc0u8 == 0) by (bit_vector)
            requires
                a & !0xc0u8 == 0,
                b & !0xc0u8 == 0,
        ;
        VariousMode { bits: a | b }
    }
}

/// Advanced mode flags.
#[derive(Copy, Clone, PartialEq, Eq, Debug, Structural)]
pub struct AdvancedMode {
    bits: u8,
}

impl AdvancedMode {
    pub const HALF_CUT: u8 = 0x04;
    pub const NO_CHAIN: u8 = 0x08;
    pub const SPECIAL_TAPE: u8 = 0x10;
    pub const HIGH_RES: u8 = 0x40;
    pub const NO_BUFF_CLEAR: u8 = 0x80;

    /// Every flag at once.
    pub const ALL: u8 = 0xdc;

    /// The bit pattern of the set.
    pub closed spec fn view(&self) -> u8 {
        self.bits
    }

    /// A set holds flags only: no other bit is ever set in it.
    #[verifier::type_invariant]
    pub closed spec fn flags_only(&self) -> bool {
        self.bits & !Self::ALL == 0
    }

    /// The empty set.
    pub fn empty() -> (m: AdvancedMode)
        ensures
            m@ == 0,
    {
        assert(0u8 & !0xdcu8 == 0) by (bit_vector);
        AdvancedMode { bits: 0 }
    }

    /// The set of every flag.
    pub fn all() -> (m: AdvancedMode)
        ensures
            m@ == Self::ALL,
    {
        assert(0xdcu8 & !0xdcu8 == 0) by (bit_vector);
        AdvancedMode { bits: Self::ALL }
    }

    /// The flags among `bits`.
    pub closed spec fn spec_from_bits_truncate(bits: u8) -> AdvancedMode {
        AdvancedMode { bits: bits & Self::ALL }
    }

    /// The flags among `bits`; bits that are no flag are dropped.
    #[verifier::when_used_as_spec(spec_from_bits_truncate)]
    pub fn from_bits_truncate(bits: u8) -> (m: AdvancedMode)
        ensures
            m == Self::spec_from_bits_truncate(bits),
            m@ == bits & Self::ALL,
    {
        assert((bits & 0xdcu8) & !0xdcu8 == 0) by (bit_vector);
        AdvancedMode { bits: bits & Self::ALL }
    }

    /// The bit pattern of the set.
    #[verifier::when_used_as_spec(view)]
    pub fn bits(&self) -> (bits: u8)
        ensures
            bits == self@,
            bits & !Self::ALL == 0,
    {
        proof {
            use_type_invariant(self);
        }
        self.bits
    }

    /// Whether every flag of `mask` is set.
    pub fn contains(&self, mask: u8) -> (r: bool)
        ensures
            r == (self@ & mask == mask),
    {
        self.bits & mask == mask
    }

    /// The bit pattern of the flags among `bits` is `bits` without the
    /// bits that are no flag.
    pub proof fn lemma_from_bits_truncate(bits: u8)
        ensures
            Self::from_bits_truncate(bits).bits() == bits & Self::ALL,
    {
    }

    /// The flags of either set.
    pub closed spec fn spec_union(self, other: AdvancedMode) -> AdvancedMode {
        AdvancedMode { bits: self.bits | other.bits }
    }

    /// Sets combine in any order.
    pub proof fn lemma_union_commutes(a: AdvancedMode, b: AdvancedMode)
        ensures
            a.union(b) == b.union(a),
    {
        let x = a.bits;
        let y = b.bits;
        assert(x | y == y | x) by (bit_vector);
    }

    /// The flags of either set.
    #[verifier::when_used_as_spec(spec_union)]
    pub fn union(self, other: AdvancedMode) -> (m: AdvancedMode)
        ensures
            m == self.spec_union(other),
            m@ == self@ | other@,
    {
        proof {
            use_type_invariant(&self);
            use_type_invariant(&other);
        }
        let a = self.bits;
        let b = other.bits;
        assert((a | b) & !0xdcu8 == 0) by (bit_vector)
            requires
                a & !0xdcu8 == 0,
                b & !0xdcu8 == 0,
        ;
        AdvancedMode { bits: a | b }
    }
}

/// Print information: what the device is told about the job before the
/// raster lines come.
#[derive(Clone, Copy, PartialEq, Eq, Debug, Structural)]
pub struct PrintInfo {
    /// Media kind.
    pub kind: Option<MediaKind>,
    /// Tape width in mm.
    pub width: Option<u8>,
    /// Tape length in mm.
    pub length: Option<u8>,
    /// Number of raster lines that will be sent.
    pub raster_no: u32,
    /// Enable print recovery.
    pub recover: bool,
}

impl PrintInfo {
    /// Mask bit that says the media kind is given.
    pub const KIND_VALID: u8 = 0x02;

    /// Mask bit that says the width is given.
    pub const WIDTH_VALID: u8 = 0x04;

    /// Mask bit that says the length is given.
    pub const LENGTH_VALID: u8 = 0x08;

    /// Mask bit that turns print recovery on.
    pub const RECOVER: u8 = 0x80;

    /// The validity mask: one bit for each field that is given, and one for
    /// recovery.
    pub open spec fn mask(&self) -> u8 {
        (if self.kind is Some { 0x02u8 } else { 0u8 })
            | (if self.width is Some { 0x04u8 } else { 0u8 })
            | (if self.length is Some { 0x08u8 } else { 0u8 })
            | (if self.recover { 0x80u8 } else { 0u8 })
    }

    /// The media kind byte: 0 where no kind is given.
    pub open spec fn kind_byte(&self) -> u8 {
        match self.kind {
            Some(kind) => kind.tag(),
            None => 0,
        }
    }

    /// The width byte: 0 where no width is given.
    pub open spec fn width_byte(&self) -> u8 {
        match self.width {
            Some(width) => width,
            None => 0,
        }
    }

    /// The length byte: 0 where no length is given.
    pub open spec fn length_byte(&self) -> u8 {
        match self.length {
            Some(length) => length,
            None => 0,
        }
    }

    /// A bit of the validity mask is set exactly if its field is given, the
    /// recovery bit exactly if recovery is on, and no other bit is set.
    pub proof fn lemma_mask_tells_presence(&self)
        ensures
            self.mask() & Self::KIND_VALID != 0 <==> self.kind is Some,
            self.mask() & Self::WIDTH_VALID != 0 <==> self.width is Some,
            self.mask() & Self::LENGTH_VALID != 0 <==> self.length is Some,
            self.mask() & Self::RECOVER != 0 <==> self.recover,
            self.mask() & 0x71 == 0,
    {
        let k: u8 = if self.kind is Some { 0x02u8 } else { 0u8 };
        let w: u8 = if self.width is Some { 0x04u8 } else { 0u8 };
        let l: u8 = if self.length is Some { 0x08u8 } else { 0u8 };
        let r: u8 = if self.recover { 0x80u8 } else { 0u8 };
        assert({
            &&& ((k | w | l | r) & 0x02 != 0 <==> k == 0x02)
            &&& ((k | w | l | r) & 0x04 != 0 <==> w == 0x04)
            &&& ((k | w | l | r) & 0x08 != 0 <==> l == 0x08)
            &&& ((k | w | l | r) & 0x80 != 0 <==> r == 0x80)
            &&& (k | w | l | r) & 0x71 == 0
        }) by (bit_vector)
            requires
                k == 0x02 || k == 0,
                w == 0x04 || w == 0,
                l == 0x08 || l == 0,
                r == 0x80 || r == 0,
        ;
    }
}

impl Default for PrintInfo {
    fn default() -> (info: PrintInfo)
        ensures
            info == (PrintInfo {
                kind: None,
                width: None,
                length: Some(0),
                raster_no: 0,
                recover: true,
            }),
    {
        PrintInfo { kind: None, width: None, length: Some(0), raster_no: 0, recover: true }
    }
}

/// The null command: one zero byte.
pub open spec fn null_frame() -> Seq<u8> {
    seq![0x00u8]
}

/// The reset sequence: 400 zero bytes.
pub open spec fn invalidate_frame() -> Seq<u8> {
    Seq::new(400, |i: int| 0u8)
}

/// The initialise command.
pub open spec fn init_frame() -> Seq<u8> {
    seq![0x1bu8, 0x40u8]
}

/// The switch-mode command: its header, then the tag of the mode.
pub open spec fn switch_mode_frame(mode: Mode) -> Seq<u8> {
    seq![0x1bu8, 0x69u8, 0x61u8, mode.tag()]
}

/// The print-information command, 13 bytes: its header, the validity
/// mask, the kind, width and length bytes (each 0 where the field is not
/// given), the number of raster lines as four little-endian bytes, and two
/// zero bytes.
pub open spec fn print_info_frame(info: PrintInfo) -> Seq<u8> {
    seq![
        0x1bu8,
        0x69u8,
        0x7au8,
        info.mask(),
        info.kind_byte(),
        info.width_byte(),
        info.length_byte(),
        le_byte(info.raster_no as int, 0),
        le_byte(info.raster_no as int, 1),
        le_byte(info.raster_no as int, 2),
        le_byte(info.raster_no as int, 3),
        0x00u8,
        0x00u8,
    ]
}

/// The shape of the print-information command: 13 bytes behind a fixed
/// header; a mask whose bits tell which fields are given; a zero byte for
/// each field that is not; and the number of raster lines, low byte first.
pub proof fn lemma_print_info_frame(info: PrintInfo)
    ensures
        print_info_frame(info).len() == 13,
        print_info_frame(info).subrange(0, 3) == seq![0x1bu8, 0x69u8, 0x7au8],
        print_info_frame(info)[3] & PrintInfo::KIND_VALID != 0 <==> info.kind is Some,
        print_info_frame(info)[3] & PrintInfo::WIDTH_VALID != 0 <==> info.width is Some,
        print_info_frame(info)[3] & PrintInfo::LENGTH_VALID != 0 <==> info.length is Some,
        print_info_frame(info)[3] & PrintInfo::RECOVER != 0 <==> info.recover,
        print_info_frame(info)[3] & 0x71 == 0,
        info.kind matches Some(kind) ==> print_info_frame(info)[4] == kind.tag(),
        info.width matches Some(width) ==> print_info_frame(info)[5] == width,
        info.length matches Some(length) ==> print_info_frame(info)[6] == length,
        info.kind is None ==> print_info_frame(info)[4] == 0,
        info.width is None ==> print_info_frame(info)[5] == 0,
        info.length is None ==> print_info_frame(info)[6] == 0,
        info.raster_no == print_info_frame(info)[7] + 0x100 * print_info_frame(info)[8] + 0x1_0000
            * print_info_frame(info)[9] + 0x100_0000 * print_info_frame(info)[10],
        print_info_frame(info)[11] == 0,
        print_info_frame(info)[12] == 0,
{
    info.lemma_mask_tells_presence();
    lemma_le_bytes_weigh(info.raster_no);
    assert(print_info_frame(info).subrange(0, 3) =~= seq![0x1bu8, 0x69u8, 0x7au8]);
}

/// The various-mode command: its header, then the flags.
pub open spec fn various_mode_frame(mode: VariousMode) -> Seq<u8> {
    seq![0x1bu8, 0x69u8, 0x4du8, mode@]
}

/// The advanced-mode command: its header, then the flags.
pub open spec fn advanced_mode_frame(mode: AdvancedMode) -> Seq<u8> {
    seq![0x1bu8, 0x69u8, 0x4bu8, mode@]
}

/// The margin command: its header, then the margin in dots as two
/// little-endian bytes.
pub open spec fn margin_frame(dots: u16) -> Seq<u8> {
    seq![0x1bu8, 0x69u8, 0x64u8, le_byte(dots as int, 0), le_byte(dots as int, 1)]
}

/// The page-number command: its header, then the number.
pub open spec fn page_no_frame(no: u8) -> Seq<u8> {
    seq![0x1bu8, 0x69u8, 0x41u8, no]
}

/// The compression-mode command: its command byte, then the tag of the
/// mode.
pub open spec fn compression_mode_frame(mode: CompressionMode) -> Seq<u8> {
    seq![0x4du8, mode.tag()]
}

/// The raster-line command: its command byte, a zero byte, the length of
/// the line cut to one byte, then the line as it is.
pub open spec fn raster_line_frame(data: Seq<u8>) -> Seq<u8> {
    seq![0x67u8, 0x00u8, (data.len() % 256) as u8] + data
}

/// The command for a blank raster line.
pub open spec fn raster_zero_frame() -> Seq<u8> {
    seq![0x5au8]
}

/// The command that prints without feeding.
pub open spec fn print_frame() -> Seq<u8> {
    seq![0x0cu8]
}

/// The command that prints and feeds.
pub open spec fn print_and_feed_frame() -> Seq<u8> {
    seq![0x1au8]
}

/// Builds the null command.
pub fn encode_null() -> (frame: [u8; 1])
    ensures
        frame@ == null_frame(),
{
    let frame = [0x00u8];
    assert(frame@ =~= null_frame());
    frame
}

/// Builds the reset sequence.
pub fn encode_invalidate() -> (frame: [u8; 400])
    ensures
        frame@ == invalidate_frame(),
{
    let frame = [0u8; 400];
    assert(frame@ =~= invalidate_frame());
    frame
}

/// Builds the initialise command.
pub fn encode_init() -> (frame: [u8; 2])
    ensures
        frame@ == init_frame(),
{
    let frame = [0x1bu8, 0x40u8];
    assert(frame@ =~= init_frame());
    frame
}

/// Builds the switch-mode command.
pub fn encode_switch_mode(mode: Mode) -> (frame: [u8; 4])
    ensures
        frame@ == switch_mode_frame(mode),
{
    let frame = [0x1bu8, 0x69u8, 0x61u8, u8::from(mode)];
    assert(frame@ =~= switch_mode_frame(mode));
    frame
}

/// Builds the print-information command.
pub fn encode_print_info(info: &PrintInfo) -> (frame: [u8; 13])
    ensures
        frame@ == print_info_frame(*info),
{
    let kind_valid: u8 = if info.kind.is_some() {
        PrintInfo::KIND_VALID
    } else {
        0
    };
    let width_valid: u8 = if info.width.is_some() {
        PrintInfo::WIDTH_VALID
    } else {
        0
    };
    let length_valid: u8 = if info.length.is_some() {
        PrintInfo::LENGTH_VALID
    } else {
        0
    };
    let recover: u8 = if info.recover {
        PrintInfo::RECOVER
    } else {
        0
    };
    let kind: u8 = match info.kind {
        Some(kind) => u8::from(kind),
        None => 0,
    };
    let width: u8 = match info.width {
        Some(width) => width,
        None => 0,
    };
    let length: u8 = match info.length {
        Some(length) => length,
        None => 0,
    };
    let raster_no = u32_to_le(info.raster_no);
    let frame = [
        0x1bu8,
        0x69u8,
        0x7au8,
        kind_valid | width_valid | length_valid | recover,
        kind,
        width,
        length,
        raster_no[0],
        raster_no[1],
        raster_no[2],
        raster_no[3],
        0x00u8,
        0x00u8,
    ];
    assert(frame@ =~= print_info_frame(*info));
    frame
}

/// Builds the various-mode command.
pub fn encode_various_mode(mode: VariousMode) -> (frame: [u8; 4])
    ensures
        frame@ == various_mode_frame(mode),
{
    let frame = [0x1bu8, 0x69u8, 0x4du8, mode.bits()];
    assert(frame@ =~= various_mode_frame(mode));
    frame
}

/// Builds the advanced-mode command.
pub fn encode_advanced_mode(mode: AdvancedMode) -> (frame: [u8; 4])
    ensures
        frame@ == advanced_mode_frame(mode),
{
    let frame = [0x1bu8, 0x69u8, 0x4bu8, mode.bits()];
    assert(frame@ =~= advanced_mode_frame(mode));
    frame
}

/// Builds the margin command.
pub fn encode_margin(dots: u16) -> (frame: [u8; 5])
    ensures
        frame@ == margin_frame(dots),
{
    let le = u16_to_le(dots);
    let frame = [0x1bu8, 0x69u8, 0x64u8, le[0], le[1]];
    assert(frame@ =~= margin_frame(dots));
    frame
}

/// Builds the page-number command.
pub fn encode_page_no(no: u8) -> (frame: [u8; 4])
    ensures
        frame@ == page_no_frame(no),
{
    let frame = [0x1bu8, 0x69u8, 0x41u8, no];
    assert(frame@ =~= page_no_frame(no));
    frame
}

/// Builds the compression-mode command.
pub fn encode_compression_mode(mode: CompressionMode) -> (frame: [u8; 2])
    ensures
        frame@ == compression_mode_frame(mode),
{
    let frame = [0x4du8, u8::from(mode)];
    assert(frame@ =~= compression_mode_frame(mode));
    frame
}

/// Builds the raster-line command for one uncompressed line.
pub fn encode_raster_line(data: &[u8]) -> (frame: Vec<u8>)
    ensures
        frame@ == raster_line_frame(data@),
{
    let mut frame: Vec<u8> = Vec::new();
    frame.push(0x67);
    frame.push(0x00);
    frame.push((data.len() % 256) as u8);
    frame.extend_from_slice(data);
    assert(frame@ =~= raster_line_frame(data@));
    frame
}

/// Builds the command for a blank raster line.
pub fn encode_raster_zero() -> (frame: [u8; 1])
    ensures
        frame@ == raster_zero_frame(),
{
    let frame = [0x5au8];
    assert(frame@ =~= raster_zero_frame());
    frame
}

/// Builds the command that prints without feeding.
pub fn encode_print() -> (frame: [u8; 1])
    ensures
        frame@ == print_frame(),
{
    let frame = [0x0cu8];
    assert(frame@ =~= print_frame());
    frame
}

/// Builds the command that prints and feeds.
pub fn encode_print_and_feed() -> (frame: [u8; 1])
    ensures
        frame@ == print_and_feed_frame(),
{
    let frame = [0x1au8];
    assert(frame@ =~= print_and_feed_frame());
    frame
}

/// Raw command API of the device.
///
/// Each operation hands one frame to the endpoint. Where it succeeds, the
/// endpoint has accepted exactly that frame, after all it had accepted
/// before.
pub trait Commands {
    /// Every byte that the endpoint has accepted, in order.
    spec fn accepted(&self) -> Seq<u8>;

    /// Null command.
    fn null(&mut self) -> (r: Result<()>)
        ensures
            r is Ok ==> final(self).accepted() == old(self).accepted() + null_frame(),
    ;

    /// Init command, sets up the device for printing.
    fn init(&mut self) -> (r: Result<()>)
        ensures
            r is Ok ==> final(self).accepted() == old(self).accepted() + init_frame(),
    ;

    /// Invalidate command, resets the device.
    fn invalidate(&mut self) -> (r: Result<()>)
        ensures
            r is Ok ==> final(self).accepted() == old(self).accepted() + invalidate_frame(),
    ;

    /// Switch mode, required for raster printing.
    fn switch_mode(&mut self, mode: Mode) -> (r: Result<()>)
        ensures
            r is Ok ==> final(self).accepted() == old(self).accepted() + switch_mode_frame(mode),
    ;

    /// Set print information.
    fn set_print_info(&mut self, info: &PrintInfo) -> (r: Result<()>)
        ensures
            r is Ok ==> final(self).accepted() == old(self).accepted() + print_info_frame(*info),
    ;

    /// Set various mode flags.
    fn set_various_mode(&mut self, mode: VariousMode) -> (r: Result<()>)
        ensures
            r is Ok ==> final(self).accepted() == old(self).accepted() + various_mode_frame(mode),
    ;

    /// Set advanced mode flags.
    fn set_advanced_mode(&mut self, mode: AdvancedMode) -> (r: Result<()>)
        ensures
            r is Ok ==> final(self).accepted() == old(self).accepted() + advanced_mode_frame(
                mode,
            ),
    ;

    /// Set the margin before and after the print, in dots.
    fn set_margin(&mut self, dots: u16) -> (r: Result<()>)
        ensures
            r is Ok ==> final(self).accepted() == old(self).accepted() + margin_frame(dots),
    ;

    /// Set print page number.
    fn set_page_no(&mut self, no: u8) -> (r: Result<()>)
        ensures
            r is Ok ==> final(self).accepted() == old(self).accepted() + page_no_frame(no),
    ;

    /// Set compression mode.
    fn set_compression_mode(&mut self, mode: CompressionMode) -> (r: Result<()>)
        ensures
            r is Ok ==> final(self).accepted() == old(self).accepted() + compression_mode_frame(
                mode,
            ),
    ;

    /// Transfer one uncompressed raster line.
    fn transfer_raster_line(&mut self, data: &[u8]) -> (r: Result<()>)
        ensures
            r is Ok ==> final(self).accepted() == old(self).accepted() + raster_line_frame(data@),
    ;

    /// Send a zero raster line.
    fn raster_zero(&mut self) -> (r: Result<()>)
        ensures
            r is Ok ==> final(self).accepted() == old(self).accepted() + raster_zero_frame(),
    ;

    /// Start a print.
    fn print(&mut self) -> (r: Result<()>)
        ensures
            r is Ok ==> final(self).accepted() == old(self).accepted() + print_frame(),
    ;

    /// Start a print and feed.
    fn print_and_feed(&mut self) -> (r: Result<()>)
        ensures
            r is Ok ==> final(self).accepted() == old(self).accepted() + print_and_feed_frame(),
    ;
}

/// Each command of the session is one write of its frame.
impl<I: PTouchInterface> Commands for PTouchPrinter<I> {
    /// What the transport has taken, then what waits in the buffer.
    open spec fn accepted(&self) -> Seq<u8> {
        self.stream()
    }

    fn null(&mut self) -> (r: Result<()>)
        ensures
            Self::written(*old(self), *final(self), null_frame(), r),
    {
        self.write(&encode_null())
    }

    fn invalidate(&mut self) -> (r: Result<()>)
        ensures
            Self::written(*old(self), *final(self), invalidate_frame(), r),
    {
        self.write(&encode_invalidate())
    }

    fn init(&mut self) -> (r: Result<()>)
        ensures
            Self::written(*old(self), *final(self), init_frame(), r),
    {
        self.write(&encode_init())
    }

    fn switch_mode(&mut self, mode: Mode) -> (r: Result<()>)
        ensures
            Self::written(*old(self), *final(self), switch_mode_frame(mode), r),
    {
        self.write(&encode_switch_mode(mode))
    }

    fn set_print_info(&mut self, info: &PrintInfo) -> (r: Result<()>)
        ensures
            Self::written(*old(self), *final(self), print_info_frame(*info), r),
    {
        self.write(&encode_print_info(info))
    }

    fn set_various_mode(&mut self, mode: VariousMode) -> (r: Result<()>)
        ensures
            Self::written(*old(self), *final(self), various_mode_frame(mode), r),
    {
        self.write(&encode_various_mode(mode))
    }

    fn set_advanced_mode(&mut self, mode: AdvancedMode) -> (r: Result<()>)
        ensures
            Self::written(*old(self), *final(self), advanced_mode_frame(mode), r),
    {
        self.write(&encode_advanced_mode(mode))
    }

    fn set_margin(&mut self, dots: u16) -> (r: Result<()>)
        ensures
            Self::written(*old(self), *final(self), margin_frame(dots), r),
    {
        self.write(&encode_margin(dots))
    }

    fn set_page_no(&mut self, no: u8) -> (r: Result<()>)
        ensures
            Self::written(*old(self), *final(self), page_no_frame(no), r),
    {
        self.write(&encode_page_no(no))
    }

    fn set_compression_mode(&mut self, mode: CompressionMode) -> (r: Result<()>)
        ensures
            Self::written(*old(self), *final(self), compression_mode_frame(mode), r),
    {
        self.write(&encode_compression_mode(mode))
    }

    fn transfer_raster_line(&mut self, data: &[u8]) -> (r: Result<()>)
        ensures
            Self::written(*old(self), *final(self), raster_line_frame(data@), r),
    {
        let frame = encode_raster_line(data);
        self.write(frame.as_slice())
    }

    fn raster_zero(&mut self) -> (r: Result<()>)
        ensures
            Self::written(*old(self), *final(self), raster_zero_frame(), r),
    {
        self.write(&encode_raster_zero())
    }

    fn print(&mut self) -> (r: Result<()>)
        ensures
            Self::written(*old(self), *final(self), print_frame(), r),
    {
        self.write(&encode_print())
    }

    fn print_and_feed(&mut self) -> (r: Result<()>)
        ensures
            Self::written(*old(self), *final(self), print_and_feed_frame(), r),
    {
        self.write(&encode_print_and_feed())
    }
}

} // verus!
