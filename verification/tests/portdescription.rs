use lldp_tlv::error::TlvError;
use lldp_tlv::tlv::portdescription_tlv::PortDescriptionTLV;
use lldp_tlv::tlv::TlvType;

fn set_up() -> (PortDescriptionTLV, String) {
    let string = String::from("Unittest");
    (PortDescriptionTLV::new(string.clone()).unwrap(), string)
}

#[test]
fn portdescription_tlv_test_type() {
    let (tlv, _) = set_up();
    assert_eq!(tlv.tlv_type.value(), TlvType::PortDescription.value());
    assert_eq!(tlv.tlv_type.value(), 4);
}

#[test]
fn portdescription_tlv_test_length() {
    let (tlv, _) = set_up();
    assert_eq!(tlv.len(), 8);
}

#[test]
fn portdescription_tlv_test_value() {
    let (tlv, s) = set_up();
    assert_eq!(tlv.value, s);
}

#[test]
fn portdescription_tlv_test_dump() {
    let (tlv, _) = set_up();
    assert_eq!(tlv.bytes(), b"\x08\x08Unittest".to_vec());
}

#[test]
fn portdescription_tlv_test_load() {
    let tlv = PortDescriptionTLV::new_from_bytes(b"\x08\x0FAnotherUnittest".as_ref()).unwrap();
    assert_eq!(tlv.len(), 15);
    assert_eq!(tlv.value, String::from("AnotherUnittest"));
}

#[test]
fn portdescription_load_rejects_invalid_utf8() {
    assert_eq!(
        PortDescriptionTLV::new_from_bytes(b"\x08\x02\xFF\xFE".as_ref()),
        Err(TlvError::MalformedText)
    );
}

#[test]
fn portdescription_load_rejects_truncated_payload() {
    assert_eq!(
        PortDescriptionTLV::new_from_bytes(b"\x08\x0FShort".as_ref()),
        Err(TlvError::TruncatedBuffer)
    );
}

#[test]
fn portdescription_multibyte_text() {
    // Two characters, four UTF-8 bytes: the length field counts bytes.
    let tlv = PortDescriptionTLV::new_from_bytes(b"\x08\x04\xC3\xA9\xC3\xA9".as_ref()).unwrap();
    assert_eq!(tlv.value, String::from("\u{e9}\u{e9}"));
    assert_eq!(tlv.value.chars().count(), 2);
    assert_eq!(tlv.len(), 4);
    assert_eq!(tlv.bytes(), b"\x08\x04\xC3\xA9\xC3\xA9".to_vec());
}

#[test]
fn portdescription_rejects_overlong_text() {
    let long = "x".repeat(256);
    assert_eq!(PortDescriptionTLV::new(long), Err(TlvError::LengthOverflow));
    assert!(PortDescriptionTLV::new("x".repeat(255)).is_ok());
}

#[test]
fn portdescription_round_trip() {
    let (tlv, _) = set_up();
    let decoded = PortDescriptionTLV::new_from_bytes(tlv.bytes().as_slice()).unwrap();
    assert_eq!(decoded, tlv);
}

#[test]
fn portdescription_tlv_test_display() {
    let (tlv, _) = set_up();
    assert_eq!(tlv.render(), "PortDescriptionTLV(\"Unittest\")");
}
