//! The shared TLV envelope: a 7-bit type tag and a 9-bit payload length
//! packed across the first two octets of every record.
//!
//! The length field is split: the second octet carries the low 8 bits, and
//! the low bit of the first octet adds 512.  The first octet's remaining
//! 7 bits carry the type tag.

use vstd::prelude::*;

verus! {

/// Payload lengths the split 9-bit field can carry.  The length octet gives
/// 0 to 255 and the extension bit adds 512, so 256 to 511, and everything
/// from 768 up, cannot be represented.
pub open spec fn len_representable(len: nat) -> bool {
    len <= 255 || (512 <= len && len <= 767)
}

/// The 7-bit type tag carried by the high bits of the first envelope octet.
pub open spec fn spec_tag(byte0: u8) -> u8 {
    byte0 / 2
}

/// The payload length carried by the two envelope octets: the second octet,
/// plus 512 when the low bit of the first octet is set.
pub open spec fn spec_decode_length(byte0: u8, byte1: u8) -> u16 {
    (byte1 + (byte0 % 2) * 512) as u16
}

/// The first envelope octet written for a record with the given tag and
/// payload length: the tag in the high 7 bits, the length extension bit low.
pub open spec fn spec_type_byte(tag: u8, len: nat) -> u8
    recommends
        tag <= 127,
{
    (2 * tag + if len >= 512 { 1nat } else { 0nat }) as u8
}

/// The second envelope octet: the low 8 bits of the payload length.
pub open spec fn spec_length_byte(len: nat) -> u8 {
    (len % 256) as u8
}

/// The two-octet envelope header for the given tag and payload length.
pub open spec fn spec_header(tag: u8, len: nat) -> Seq<u8>
    recommends
        tag <= 127,
        len_representable(len),
{
    seq![spec_type_byte(tag, len), spec_length_byte(len)]
}

/// Decoding the two header octets written for a representable payload length
/// recovers the tag and the length exactly.
pub proof fn lemma_header_round_trip(tag: u8, len: nat)
    requires
        tag <= 127,
        len_representable(len),
    ensures
        spec_tag(spec_type_byte(tag, len)) == tag,
        spec_decode_length(spec_type_byte(tag, len), spec_length_byte(len)) == len,
{
    if len >= 512 {
        assert(len % 256 == len - 512) by (nonlinear_arith)
            requires
                512 <= len <= 767,
        ;
    } else {
        assert(len % 256 == len) by (nonlinear_arith)
            requires
                len <= 255,
        ;
    }
}

/// Re-encoding the tag and length read from a header reproduces the very
/// same two octets: the header carries no information beyond them.
pub proof fn lemma_header_injective(byte0: u8, byte1: u8)
    ensures
        spec_type_byte(spec_tag(byte0), spec_decode_length(byte0, byte1) as nat) == byte0,
        spec_length_byte(spec_decode_length(byte0, byte1) as nat) == byte1,
{
    let len = spec_decode_length(byte0, byte1) as nat;
    if byte0 % 2 == 1 {
        assert((byte1 + 512) % 256 == byte1) by (nonlinear_arith)
            requires
                byte1 < 256,
        ;
    }
    assert(byte0 == 2 * (byte0 / 2) + byte0 % 2);
}

/// Recovers the 7-bit tag from the first envelope octet.
pub fn decode_tag(byte0: u8) -> (tag: u8)
    ensures
        tag == spec_tag(byte0),
        tag <= 127,
{
    let tag = (byte0 & 0b11111110) >> 1;
    proof {
        assert((byte0 & 0b11111110) >> 1 == byte0 / 2 && byte0 / 2 <= 127) by (bit_vector);
    }
    tag
}

/// Reads the 9-bit payload length split across the two header octets.
pub fn decode_length(byte0: u8, byte1: u8) -> (len: u16)
    ensures
        len == spec_decode_length(byte0, byte1),
        len <= 767,
{
    let mut length: u16 = byte1 as u16;
    if byte0 & 1 == 1 {
        length = length + 512;
    }
    proof {
        assert(byte0 & 1 == byte0 % 2 && byte0 % 2 < 2) by (bit_vector);
    }
    length
}

/// Writes the 9-bit payload length as its two parts: the extension bit for
/// the first octet, and the full second octet.
pub fn encode_length(len: u16) -> (r: (bool, u8))
    ensures
        r.0 == (len >= 512),
        r.1 == spec_length_byte(len as nat),
{
    (len >= 512, (len % 256) as u8)
}

/// Builds the first envelope octet from a 7-bit tag and the payload length.
pub fn encode_type_byte(tag: u8, len: u16) -> (b: u8)
    requires
        tag <= 127,
    ensures
        b == spec_type_byte(tag, len as nat),
{
    let ext: u8 = if len >= 512 {
        1
    } else {
        0
    };
    let b = (tag << 1u8) | ext;
    proof {
        assert((tag << 1u8) | ext == 2 * tag + ext) by (bit_vector)
            requires
                tag <= 127 && ext <= 1,
        ;
    }
    b
}

} // verus!
