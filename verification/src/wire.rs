//! Little-endian words, as the device reads and writes them.
use vstd::prelude::*;

verus! {

/// The 16-bit word whose low byte is `lo` and whose high byte is `hi`.
pub open spec fn le16(lo: u8, hi: u8) -> u16 {
    (lo as int + 256 * (hi as int)) as u16
}

/// Byte `i` of the little-endian form of `x`, for `i` from 0, the lowest
/// byte, to 3.
pub open spec fn le_byte(x: int, i: int) -> u8
    recommends
        0 <= i < 4,
{
    if i == 0 {
        (x % 256) as u8
    } else if i == 1 {
        ((x / 0x100) % 256) as u8
    } else if i == 2 {
        ((x / 0x1_0000) % 256) as u8
    } else {
        ((x / 0x100_0000) % 256) as u8
    }
}

/// Little-endian bytes put a word together again: each byte weighs 256
/// times the one before it.
pub proof fn lemma_le_bytes_weigh(x: u32)
    ensures
        x == le_byte(x as int, 0) + 0x100 * le_byte(x as int, 1) + 0x1_0000 * le_byte(x as int, 2)
            + 0x100_0000 * le_byte(x as int, 3),
{
}

/// The two bytes of a 16-bit word give the word back.
pub proof fn lemma_le16_of_bytes(x: u16)
    ensures
        le16(le_byte(x as int, 0), le_byte(x as int, 1)) == x,
{
}

/// Reads a little-endian 16-bit word.
pub fn u16_from_le(lo: u8, hi: u8) -> (x: u16)
    ensures
        x == le16(lo, hi),
{
    (hi as u16) * 256 + (lo as u16)
}

/// The two bytes of a 16-bit word, low byte first.
pub fn u16_to_le(x: u16) -> (b: [u8; 2])
    ensures
        b@ == seq![le_byte(x as int, 0), le_byte(x as int, 1)],
{
    let b = [(x % 256) as u8, (x / 0x100) as u8];
    assert(b@ =~= seq![le_byte(x as int, 0), le_byte(x as int, 1)]);
    b
}

/// The four bytes of a 32-bit word, low byte first.
pub fn u32_to_le(x: u32) -> (b: [u8; 4])
    ensures
        b@ == seq![
            le_byte(x as int, 0),
            le_byte(x as int, 1),
            le_byte(x as int, 2),
            le_byte(x as int, 3),
        ],
{
    let b = [
        (x % 256) as u8,
        ((x / 0x100) % 256) as u8,
        ((x / 0x1_0000) % 256) as u8,
        (x / 0x100_0000) as u8,
    ];
    assert(b@ =~= seq![
        le_byte(x as int, 0),
        le_byte(x as int, 1),
        le_byte(x as int, 2),
        le_byte(x as int, 3),
    ]);
    b
}

} // verus!
