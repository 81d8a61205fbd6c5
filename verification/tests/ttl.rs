use bytes::BufMut;
use lldp_tlv::error::TlvError;
use lldp_tlv::tlv::ttl_tlv::TtlTLV;

fn set_up() -> (TtlTLV, u16) {
    let r = 36575;
    (TtlTLV::new(r), r)
}

#[test]
fn ttl_tlv_test_type() {
    let (ttltlv, _) = set_up();
    assert_eq!(ttltlv.tlv_type.value(), 3);
}

#[test]
fn ttl_tlv_test_length() {
    let (ttltlv, _) = set_up();
    assert_eq!(ttltlv.len(), 2);
}

#[test]
fn ttl_tlv_test_value() {
    let (ttltlv, r) = set_up();
    assert_eq!(ttltlv.value, r);
}

#[test]
fn ttl_tlv_test_dump() {
    let (ttltlv, r) = set_up();
    let mut b: Vec<u8> = vec![6, 2];
    b.put_u16(r);
    assert_eq!(ttltlv.bytes(), b);
}

#[test]
fn ttl_tlv_test_load() {
    let ttltlv = TtlTLV::new_from_bytes(b"\x06\x02\x00\x78".as_ref()).unwrap();
    assert_eq!(ttltlv.value, 120);
}

#[test]
fn ttl_load_rejects_extended_length() {
    assert_eq!(
        TtlTLV::new_from_bytes(b"\x06\x03\x00\x78\x00".as_ref()),
        Err(TlvError::FixedLengthViolation)
    );
}

#[test]
fn ttl_load_rejects_short_length() {
    assert_eq!(
        TtlTLV::new_from_bytes(b"\x06\x01\x00\x78".as_ref()),
        Err(TlvError::FixedLengthViolation)
    );
}

#[test]
fn ttl_load_rejects_truncated_payload() {
    assert_eq!(
        TtlTLV::new_from_bytes(b"\x06\x02\x00".as_ref()),
        Err(TlvError::TruncatedBuffer)
    );
}

#[test]
fn ttl_round_trip() {
    let (ttltlv, _) = set_up();
    let decoded = TtlTLV::new_from_bytes(ttltlv.bytes().as_slice()).unwrap();
    assert_eq!(decoded, ttltlv);
}

#[test]
fn ttl_tlv_test_display() {
    let (tlv, _) = set_up();
    assert_eq!(tlv.render(), "TtlTLV(36575)");
}
