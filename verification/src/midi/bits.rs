//! The 14-bit number of a pitch bend message. On the wire it is two data
//! bytes of seven bits each, the low seven bits first. Read as one 16-bit
//! word, the first byte is the high byte of the word.

use vstd::prelude::*;

verus! {

/// The 14-bit number that the two data bytes of the word `bits` spell: the
/// low seven bits in the high byte, the high seven bits in the low byte.
pub open spec fn decoded_14_bit(bits: u16) -> u16 {
    ((bits as int % 128) * 128 + (bits as int / 256) % 128) as u16
}

/// The word whose two bytes spell the low 14 bits of `value`.
pub open spec fn encoded_14_bit(value: u16) -> u16 {
    ((value as int % 128) * 256 + (value as int / 128) % 128) as u16
}

/// The number that the two data bytes of `bits` spell.
#[inline]
pub fn decode_14_bit_number(bits: u16) -> (r: u16)
    ensures
        r == decoded_14_bit(bits),
        r <= 16383,
{
    let high = extract_high_bits(bits);
    let low = extract_low_bits(bits);
    let r = ((high as u16) << 7) | (low as u16);
    assert(r == (high as u16) * 128 + (low as u16)) by (bit_vector)
        requires
            r == ((high as u16) << 7) | (low as u16),
            high < 128,
            low < 128,
    ;
    r
}

/// The two data bytes for `value`, as one word.
#[inline]
pub fn encode_14_bit_number(value: u16) -> (r: u16)
    ensures
        r == encoded_14_bit(value),
{
    let hi_bits = value & 0b0011111110000000;
    let lo_bits = value & 0b0000000001111111;
    let lo_moved = lo_bits << 8;
    let hi_moved = hi_bits >> 7;
    let r = lo_moved | hi_moved;
    assert(r == (value % 128) * 256 + (value / 128) % 128) by (bit_vector)
        requires
            r == ((value & 0b0000000001111111) << 8) | ((value & 0b0011111110000000) >> 7),
    ;
    r
}

/// The low seven bits of the number, which the high byte of the word holds.
#[inline]
pub fn extract_low_bits(bits: u16) -> (r: u8)
    ensures
        r as int == (bits as int / 256) % 128,
        r < 128,
{
    let r = ((bits >> 8) as u8) & 0b01111111;
    assert(r as u16 == (bits / 256) % 128) by (bit_vector)
        requires
            r == ((bits >> 8) as u8) & 0b01111111,
    ;
    r
}

/// The high seven bits of the number, which the low byte of the word holds.
#[inline]
pub fn extract_high_bits(bits: u16) -> (r: u8)
    ensures
        r as int == bits as int % 128,
        r < 128,
{
    let r = (bits & 0b0000000001111111) as u8;
    assert(r as u16 == bits % 128) by (bit_vector)
        requires
            r == (bits & 0b0000000001111111) as u8,
    ;
    r
}

/// Every 14-bit number comes back from its two data bytes.
pub proof fn lemma_14_bit_round_trip(value: u16)
    requires
        value <= 16383,
    ensures
        decoded_14_bit(encoded_14_bit(value)) == value,
{
}

/// A number and the word of its data bytes differ, but for zero.
pub proof fn lemma_14_bit_encoded_differs(value: u16)
    requires
        0 < value <= 16383,
    ensures
        encoded_14_bit(value) != value,
{
}

} // verus!
