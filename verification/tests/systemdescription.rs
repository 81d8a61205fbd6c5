use lldp_tlv::tlv::systemdescription_tlv::SystemDescriptionTLV;
use lldp_tlv::tlv::TlvType;

fn set_up() -> (SystemDescriptionTLV, String) {
    let string = String::from("Unittest");
    (SystemDescriptionTLV::new(string.clone()).unwrap(), string)
}

#[test]
fn test_portdescription_type() {
    let (tlv, _) = set_up();
    assert_eq!(tlv.tlv_type.value(), TlvType::SystemDescription.value());
    assert_eq!(tlv.tlv_type.value(), 6);
}

#[test]
fn test_portdescription_length() {
    let (tlv, _) = set_up();
    assert_eq!(tlv.len(), 8);
}

#[test]
fn test_portdescription_value() {
    let (tlv, s) = set_up();
    assert_eq!(tlv.value, s);
}

#[test]
fn test_portdescription_dump() {
    let (tlv, _) = set_up();
    assert_eq!(tlv.bytes(), b"\x0C\x08Unittest".to_vec());
}

#[test]
fn test_portdescription_load() {
    let tlv = SystemDescriptionTLV::new_from_bytes(b"\x0C\x12YetAnotherUnittest".as_ref()).unwrap();
    assert_eq!(tlv.len(), 18);
    assert_eq!(tlv.value, String::from("YetAnotherUnittest"));
}

#[test]
fn systemdescription_load_keeps_own_type() {
    let tlv = SystemDescriptionTLV::new_from_bytes(b"\x0C\x12YetAnotherUnittest".as_ref()).unwrap();
    assert_eq!(tlv.tlv_type, TlvType::SystemDescription);
}

#[test]
fn systemdescription_round_trip() {
    let (tlv, _) = set_up();
    let decoded = SystemDescriptionTLV::new_from_bytes(tlv.bytes().as_slice()).unwrap();
    assert_eq!(decoded, tlv);
}

#[test]
fn systemdescription_tlv_test_display() {
    let (tlv, _) = set_up();
    assert_eq!(tlv.render(), "SystemDescriptionTLV(\"Unittest\")");
}
