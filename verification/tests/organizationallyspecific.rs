use bytes::BufMut;
use lldp_tlv::error::TlvError;
use lldp_tlv::tlv::organizationallyspecific_tlv::OrganizationallySpecificTLV;
use lldp_tlv::tlv::TlvType;

fn set_up() -> (OrganizationallySpecificTLV, Vec<u8>, u8, String) {
    let oui = b"\xAA\xBB\xCC".to_vec();
    let subtype = 5;
    let data = String::from("HURZ!");
    let tlv =
        OrganizationallySpecificTLV::new(oui.clone(), subtype, data.as_bytes().to_vec()).unwrap();
    (tlv, oui, subtype, data)
}

#[test]
fn organizationallyspecific_tlv_test_type() {
    let (tlv, _, _, _) = set_up();
    assert_eq!(tlv.tlv_type.value(), TlvType::OrganizationallySpecific.value());
}

#[test]
fn organizationallyspecific_tlv_test_length() {
    let (tlv, _, _, data) = set_up();
    assert_eq!(tlv.len(), data.len() + 4);
}

#[test]
fn organizationallyspecific_tlv_test_value() {
    let (tlv, _, _, data) = set_up();
    assert_eq!(tlv.value, data.as_bytes().to_vec());
}

#[test]
fn test_subtype() {
    let (tlv, _, subtype, _) = set_up();
    assert_eq!(tlv.subtype, subtype);
}

#[test]
fn organizationallyspecific_tlv_test_dump() {
    let (tlv, oui, subtype, data) = set_up();
    let mut bytes = b"\xFE".to_vec();
    bytes.put_u8(data.as_bytes().len() as u8 + 4);
    bytes.put(oui.as_slice());
    bytes.put_u8(subtype);
    bytes.put(data.as_bytes());

    assert_eq!(tlv.bytes(), bytes);
}

#[test]
fn organizationallyspecific_tlv_test_load() {
    let tlv = OrganizationallySpecificTLV::new_from_bytes(
        b"\xFE\x1D\xAA\xBB\xCC\x1A0118 999 88199 9119 725 3".as_ref(),
    )
    .unwrap();
    assert_eq!(tlv.len(), 29);
    assert_eq!(tlv.value, b"0118 999 88199 9119 725 3".to_vec());
    assert_eq!(tlv.oui, b"\xAA\xBB\xCC".to_vec());
    assert_eq!(tlv.subtype, 0x1A);
}

#[test]
fn organizationallyspecific_rejects_short_oui() {
    assert_eq!(
        OrganizationallySpecificTLV::new(b"\xAA\xBB".to_vec(), 5, vec![]),
        Err(TlvError::OuiLengthViolation)
    );
}

#[test]
fn organizationallyspecific_rejects_unrepresentable_length() {
    // A 300-byte value gives a payload of 304 bytes, which the split 9-bit
    // length field cannot carry.
    assert_eq!(
        OrganizationallySpecificTLV::new(b"\xAA\xBB\xCC".to_vec(), 5, vec![0; 300]),
        Err(TlvError::LengthOverflow)
    );
}

#[test]
fn organizationallyspecific_round_trip_extended_length() {
    // A 600-byte value sets the length-extension bit and still round-trips.
    let tlv = OrganizationallySpecificTLV::new(b"\xAA\xBB\xCC".to_vec(), 7, vec![0x41; 600])
        .unwrap();
    let encoded = tlv.bytes();
    assert_eq!(encoded[0], 0xFF);
    assert_eq!(encoded[1], (604 - 512) as u8);
    let decoded = OrganizationallySpecificTLV::new_from_bytes(encoded.as_slice()).unwrap();
    assert_eq!(decoded, tlv);
}

#[test]
fn organizationallyspecific_tlv_test_display() {
    let (tlv, _, _, _) = set_up();
    assert_eq!(tlv.render(), "OrganizationallySpecificTLV(\"AABBCC\", 5, \"4855525A21\")");
}
