//! The 6-byte CCSDS primary header: field layout, decoding, and the
//! endian-swapped ("little-endian header") wire mode.
//!
//! The header is big-endian and bit-packed: the first 16-bit word holds a
//! 3-bit version, a 1-bit packet type, a 1-bit secondary-header flag and an
//! 11-bit APID; the second word holds 2-bit sequence flags and a 14-bit
//! sequence count; the third word is the 16-bit length field, where the
//! number of data bytes following the header is the field's value plus one.
//! In the little-endian mode the two bytes of each 16-bit word are swapped
//! on the wire before field extraction.

use vstd::prelude::*;

verus! {

/// The seven fields of a decoded CCSDS primary header.
#[derive(Clone, Copy, Debug, PartialEq, Eq, Structural)]
pub struct PrimaryHeader {
    /// Packet version number (3 bits).
    pub version: u8,
    /// Packet type (1 bit): 0 = telemetry, 1 = telecommand.
    pub packet_type: u8,
    /// Secondary header flag (1 bit).
    pub sec_header_flag: u8,
    /// Application process identifier (11 bits).
    pub apid: u16,
    /// Sequence flags (2 bits).
    pub seq_flags: u8,
    /// Packet sequence count (14 bits).
    pub seq_count: u16,
    /// Length field (16 bits); data bytes following the header = field + 1.
    pub length_field: u16,
}

/// The 16-bit word starting at byte `i` of `s`: big-endian normally, with
/// its two bytes swapped in little-endian header mode.
pub open spec fn spec_word(s: Seq<u8>, i: int, little_endian: bool) -> int
    recommends
        0 <= i,
        i + 2 <= s.len(),
{
    if little_endian {
        s[i + 1] * 256 + s[i]
    } else {
        s[i] * 256 + s[i + 1]
    }
}

/// The header decoded from the first 6 bytes of `s`, with each 16-bit word
/// byte-swapped first iff `little_endian`.
pub open spec fn spec_header(s: Seq<u8>, little_endian: bool) -> PrimaryHeader
    recommends
        s.len() >= 6,
{
    let w0 = spec_word(s, 0, little_endian);
    let w1 = spec_word(s, 2, little_endian);
    let w2 = spec_word(s, 4, little_endian);
    PrimaryHeader {
        version: (w0 / 8192) as u8,
        packet_type: ((w0 / 4096) % 2) as u8,
        sec_header_flag: ((w0 / 2048) % 2) as u8,
        apid: (w0 % 2048) as u16,
        seq_flags: (w1 / 16384) as u8,
        seq_count: (w1 % 16384) as u16,
        length_field: w2 as u16,
    }
}

impl PrimaryHeader {
    /// The header's fields are within their bit widths.
    pub open spec fn wf(self) -> bool {
        &&& self.version < 8
        &&& self.packet_type < 2
        &&& self.sec_header_flag < 2
        &&& self.apid < 2048
        &&& self.seq_flags < 4
        &&& self.seq_count < 16384
    }

    /// Total CCSDS packet length in bytes: the 6 header bytes plus
    /// `length_field + 1` data bytes. The frame wrapper is not counted.
    pub fn total_packet_length(&self) -> (r: u32)
        ensures
            r == self.length_field + 7,
    {
        self.length_field as u32 + 7
    }
}

/// Decode the primary header found at `offset` in `bytes`.
pub fn decode_header(bytes: &[u8], offset: usize, little_endian: bool) -> (r: PrimaryHeader)
    requires
        offset + 6 <= bytes@.len(),
    ensures
        r == spec_header(bytes@.subrange(offset as int, offset as int + 6), little_endian),
        r.wf(),
{
    let ghost s = bytes@.subrange(offset as int, offset as int + 6);
    let b0 = bytes[offset];
    let b1 = bytes[offset + 1];
    let b2 = bytes[offset + 2];
    let b3 = bytes[offset + 3];
    let b4 = bytes[offset + 4];
    let b5 = bytes[offset + 5];
    let w0: u16;
    let w1: u16;
    let w2: u16;
    if little_endian {
        w0 = b1 as u16 * 256 + b0 as u16;
        w1 = b3 as u16 * 256 + b2 as u16;
        w2 = b5 as u16 * 256 + b4 as u16;
    } else {
        w0 = b0 as u16 * 256 + b1 as u16;
        w1 = b2 as u16 * 256 + b3 as u16;
        w2 = b4 as u16 * 256 + b5 as u16;
    }
    assert(w0 == spec_word(s, 0, little_endian));
    assert(w1 == spec_word(s, 2, little_endian));
    assert(w2 == spec_word(s, 4, little_endian));
    PrimaryHeader {
        version: (w0 / 8192) as u8,
        packet_type: ((w0 / 4096) % 2) as u8,
        sec_header_flag: ((w0 / 2048) % 2) as u8,
        apid: w0 % 2048,
        seq_flags: (w1 / 16384) as u8,
        seq_count: w1 % 16384,
        length_field: w2,
    }
}

/// `s` with the two bytes of each 16-bit word exchanged. A trailing byte of
/// an odd-length sequence stays in place.
pub open spec fn swap_words(s: Seq<u8>) -> Seq<u8> {
    Seq::new(
        s.len(),
        |i: int|
            if i % 2 == 0 {
                if i + 1 < s.len() {
                    s[i + 1]
                } else {
                    s[i]
                }
            } else {
                s[i - 1]
            },
    )
}

/// Swapping the bytes of every 16-bit word twice restores the sequence.
pub proof fn lemma_swap_words_involution(s: Seq<u8>)
    ensures
        swap_words(swap_words(s)) == s,
{
    assert(swap_words(swap_words(s)) =~= s);
}

/// Parsing a byte-swapped header in little-endian mode yields the same
/// logical fields as parsing the original bytes in big-endian mode, and the
/// other way round.
pub proof fn lemma_endian_swap(s: Seq<u8>)
    requires
        s.len() >= 6,
    ensures
        spec_header(swap_words(s), true) == spec_header(s, false),
        spec_header(swap_words(s), false) == spec_header(s, true),
{
}

} // verus!
