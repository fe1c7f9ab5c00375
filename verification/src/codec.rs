//! Word-level codecs shared by the decoders: the signed-temperature read
//! and the byte-pair-to-word reassembly used when a raw register dump is
//! replayed from a byte stream.

use vstd::prelude::*;

verus! {

/// The signed whole-degree value packed into the low byte of a register:
/// the low 8 bits read as a two's-complement byte, the high byte ignored.
pub open spec fn spec_temperature(raw: u16) -> int {
    if raw & 0xFF < 0x80 {
        (raw & 0xFF) as int
    } else {
        (raw & 0xFF) - 256
    }
}

/// Reads a temperature register: the low 8 bits as a two's-complement
/// signed byte, truncating (not clamping) the high byte. Every 16-bit
/// input is a valid (possibly nonsensical) temperature.
pub fn decode_temperature(raw: u16) -> (r: i8)
    ensures
        r as int == spec_temperature(raw),
{
    let low: u16 = raw & 0xFF;
    proof {
        assert(raw & 0xFFu16 < 0x100u16) by (bit_vector);
    }
    if low < 0x80 {
        low as i8
    } else {
        (low as i32 - 256) as i8
    }
}

/// The register word held by a big-endian byte pair.
pub open spec fn spec_word_from_bytes(hi: u8, lo: u8) -> u16 {
    ((hi as u16) << 8) | (lo as u16)
}

/// Reassembles register words from a raw byte stream, two bytes per word,
/// high byte first. This is a data-format transform of the dump, not a
/// host-endianness adaptation.
pub fn words_from_bytes(bytes: &[u8]) -> (r: Vec<u16>)
    requires
        bytes@.len() % 2 == 0,
    ensures
        r@.len() == bytes@.len() / 2,
        forall|i: int|
            0 <= i < r@.len() ==> r@[i] == spec_word_from_bytes(bytes@[2 * i], bytes@[2 * i + 1]),
{
    let n: usize = bytes.len() / 2;
    let mut words: Vec<u16> = Vec::new();
    let mut w: usize = 0;
    while w < n
        invariant
            n == bytes@.len() / 2,
            bytes@.len() % 2 == 0,
            bytes@.len() <= usize::MAX,
            w <= n,
            words@.len() == w,
            forall|i: int|
                0 <= i < w ==> words@[i] == spec_word_from_bytes(
                    bytes@[2 * i],
                    bytes@[2 * i + 1],
                ),
        decreases n - w,
    {
        let hi = bytes[2 * w];
        let lo = bytes[2 * w + 1];
        words.push(((hi as u16) << 8) | (lo as u16));
        w = w + 1;
    }
    words
}

} // verus!
