use lldp_tlv::envelope::{decode_length, decode_tag, encode_length, encode_type_byte};

#[test]
fn length_field_boundaries() {
    // The split 9-bit field carries 0..=255 directly and 512..=767 through
    // the extension bit; 256..=511 cannot be represented.
    assert_eq!(encode_length(0), (false, 0));
    assert_eq!(encode_length(255), (false, 255));
    assert_eq!(encode_length(512), (true, 0));
    assert_eq!(encode_length(767), (true, 255));

    assert_eq!(decode_length(0x00, 0), 0);
    assert_eq!(decode_length(0x00, 255), 255);
    assert_eq!(decode_length(0x01, 0), 512);
    assert_eq!(decode_length(0x01, 255), 767);
}

#[test]
fn length_field_round_trips_representable_values() {
    for len in (0u16..=255).chain(512..=767) {
        let (ext, byte1) = encode_length(len);
        let byte0 = if ext { 1 } else { 0 };
        assert_eq!(decode_length(byte0, byte1), len);
    }
}

#[test]
fn unrepresentable_lengths_do_not_round_trip() {
    let (ext, byte1) = encode_length(256);
    assert_eq!((ext, byte1), (false, 0));
    assert_eq!(decode_length(0, byte1), 0);
    let (ext, byte1) = encode_length(511);
    assert_eq!((ext, byte1), (false, 255));
    assert_eq!(decode_length(0, byte1), 255);
}

#[test]
fn type_byte_packs_tag_and_extension_bit() {
    assert_eq!(encode_type_byte(3, 2), 0x06);
    assert_eq!(encode_type_byte(127, 600), 0xFF);
    assert_eq!(decode_tag(0x06), 3);
    assert_eq!(decode_tag(0x07), 3);
    assert_eq!(decode_tag(0xFE), 127);
}
