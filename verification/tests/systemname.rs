use lldp_tlv::tlv::systemname_tlv::SystemNameTLV;
use lldp_tlv::tlv::TlvType;

fn set_up() -> (SystemNameTLV, String) {
    let string = String::from("Unittest");
    (SystemNameTLV::new(string.clone()).unwrap(), string)
}

#[test]
fn systemname_tlv_test_type() {
    let (tlv, _) = set_up();
    assert_eq!(tlv.tlv_type.value(), TlvType::SystemName.value());
    assert_eq!(tlv.tlv_type.value(), 5);
}

#[test]
fn systemname_tlv_test_length() {
    let (tlv, _) = set_up();
    assert_eq!(tlv.len(), 8);
}

#[test]
fn systemname_tlv_test_value() {
    let (tlv, s) = set_up();
    assert_eq!(tlv.value, s);
}

#[test]
fn systemname_tlv_test_dump() {
    let (tlv, _) = set_up();
    assert_eq!(tlv.bytes(), b"\x0A\x08Unittest".to_vec());
}

#[test]
fn systemname_tlv_test_load() {
    let tlv = SystemNameTLV::new_from_bytes(b"\x0A\x14AnotherUnittestAgain".as_ref()).unwrap();
    assert_eq!(tlv.len(), 20);
    assert_eq!(tlv.value, String::from("AnotherUnittestAgain"));
}

#[test]
fn systemname_round_trip() {
    let (tlv, _) = set_up();
    let decoded = SystemNameTLV::new_from_bytes(tlv.bytes().as_slice()).unwrap();
    assert_eq!(decoded, tlv);
}

#[test]
fn systemname_tlv_test_display() {
    let (tlv, _) = set_up();
    assert_eq!(tlv.render(), "SystemNameTLV(\"Unittest\")");
}
