use lldp_tlv::error::TlvError;
use lldp_tlv::tlv::eolldpdu_tlv::EndOfLLDPDUTLV;
use lldp_tlv::tlv::ttl_tlv::TtlTLV;
use lldp_tlv::tlv::{Tlv, TlvType};

#[test]
fn end_of_lldpdu_encodes_to_two_zero_octets() {
    assert_eq!(EndOfLLDPDUTLV::new().bytes(), vec![0x00, 0x00]);
}

#[test]
fn ttl_literal_scenario() {
    // Encoding a 120-second record gives the documented bytes, and decoding
    // the same bytes gives back the seconds count.
    let tlv = Tlv::Ttl(TtlTLV::new(120));
    assert_eq!(tlv.bytes(), vec![0x06, 0x02, 0x00, 0x78]);
    match Tlv::from_bytes(&[0x06, 0x02, 0x00, 0x78]).unwrap() {
        Tlv::Ttl(t) => assert_eq!(t.value, 120),
        other => panic!("expected a Ttl record, got {:?}", other),
    }
}

#[test]
fn ttl_wrong_declared_length_fails() {
    assert_eq!(
        Tlv::from_bytes(&[0x06, 0x03, 0x00, 0x78, 0x00]),
        Err(TlvError::FixedLengthViolation)
    );
}

#[test]
fn unknown_tag_fails() {
    // Tag 9 names no record kind.
    assert_eq!(Tlv::from_bytes(&[9 << 1, 0x00]), Err(TlvError::UnknownTypeTag));
}

#[test]
fn tags_without_codec_fail() {
    // The chassis id and port id kinds have no codec in this library.
    assert_eq!(Tlv::from_bytes(&[1 << 1, 0x00]), Err(TlvError::UnknownTypeTag));
    assert_eq!(Tlv::from_bytes(&[2 << 1, 0x00]), Err(TlvError::UnknownTypeTag));
}

#[test]
fn empty_buffer_fails() {
    assert_eq!(Tlv::from_bytes(&[]), Err(TlvError::TruncatedBuffer));
}

#[test]
fn get_type_returns_the_variants_kind() {
    let tlv = Tlv::from_bytes(&[0x06, 0x02, 0x00, 0x3c]).unwrap();
    assert_eq!(tlv.get_type(), TlvType::Ttl);
    let tlv = Tlv::from_bytes(b"\x08\x08Unittest").unwrap();
    assert_eq!(tlv.get_type(), TlvType::PortDescription);
}

#[test]
fn get_length_adds_the_header_octets() {
    assert_eq!(Tlv::get_length(&[0x06, 0x02, 0x00, 0x3c]), 4);
    assert_eq!(Tlv::get_length(&[0x07, 0x02]), 516);
}

#[test]
fn dispatcher_round_trips_every_kind() {
    let buffers: Vec<Vec<u8>> = vec![
        b"\x00\x00".to_vec(),
        b"\x06\x02\x00\x78".to_vec(),
        b"\x08\x08Unittest".to_vec(),
        b"\x0A\x08Unittest".to_vec(),
        b"\x0C\x08Unittest".to_vec(),
        b"\x0e\x04\x00\x5C\x00\x54".to_vec(),
        b"\x10\x0C\x05\x01\xC0\x00\x02*\x03\x00\x00\x00\x01\x00".to_vec(),
        b"\xFE\x09\xAA\xBB\xCC\x05HURZ!".to_vec(),
    ];
    for buf in buffers {
        let tlv = Tlv::from_bytes(buf.as_slice()).unwrap();
        assert_eq!(tlv.bytes(), buf);
        let again = Tlv::from_bytes(tlv.bytes().as_slice()).unwrap();
        assert_eq!(again, tlv);
    }
}

#[test]
fn encoded_length_matches_the_encoded_payload() {
    let buffers: Vec<Vec<u8>> = vec![
        b"\x00\x00".to_vec(),
        b"\x06\x02\x00\x78".to_vec(),
        b"\x0A\x08Unittest".to_vec(),
        b"\x0e\x04\x00\x5C\x00\x54".to_vec(),
        b"\x10\x0C\x05\x01\xC0\x00\x02*\x03\x00\x00\x00\x01\x00".to_vec(),
        b"\xFE\x09\xAA\xBB\xCC\x05HURZ!".to_vec(),
    ];
    for buf in buffers {
        let tlv = Tlv::from_bytes(buf.as_slice()).unwrap();
        assert_eq!(tlv.encoded_length(), tlv.bytes().len() - 2);
    }
}

#[test]
fn dispatcher_renders_by_variant() {
    let tlv = Tlv::from_bytes(&[0x06, 0x02, 0x00, 0x78]).unwrap();
    assert_eq!(tlv.render(), "TtlTLV(120)");
    let tlv = Tlv::from_bytes(b"\x00\x00").unwrap();
    assert_eq!(tlv.render(), "EndOfLLDPDUTLV");
}

#[test]
fn type_classifier_maps_the_ten_tags() {
    assert_eq!(TlvType::try_from(0), Ok(TlvType::EndOfLLDPDU));
    assert_eq!(TlvType::try_from(1), Ok(TlvType::ChassisId));
    assert_eq!(TlvType::try_from(2), Ok(TlvType::PortId));
    assert_eq!(TlvType::try_from(3), Ok(TlvType::Ttl));
    assert_eq!(TlvType::try_from(4), Ok(TlvType::PortDescription));
    assert_eq!(TlvType::try_from(5), Ok(TlvType::SystemName));
    assert_eq!(TlvType::try_from(6), Ok(TlvType::SystemDescription));
    assert_eq!(TlvType::try_from(7), Ok(TlvType::SystemCapabilities));
    assert_eq!(TlvType::try_from(8), Ok(TlvType::ManagementAddress));
    assert_eq!(TlvType::try_from(127), Ok(TlvType::OrganizationallySpecific));
    assert_eq!(TlvType::try_from(9), Err(()));
    assert_eq!(TlvType::try_from(126), Err(()));
}
