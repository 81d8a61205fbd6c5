use lldp_tlv::error::TlvError;
use lldp_tlv::tlv::eolldpdu_tlv::EndOfLLDPDUTLV;

fn set_up() -> EndOfLLDPDUTLV {
    EndOfLLDPDUTLV::new()
}

#[test]
fn test_eolldpdu_type() {
    let tlv = set_up();
    assert_eq!(tlv.tlv_type.value(), 0);
}

#[test]
fn test_eolldpdu_length() {
    let tlv = set_up();
    assert_eq!(tlv.len(), 0);
}

#[test]
fn test_eolldpdu_dump() {
    let tlv = set_up();
    assert_eq!(tlv.bytes(), b"\x00\x00".to_vec());
}

#[test]
fn test_eolldpdu_load() {
    let tlv = EndOfLLDPDUTLV::new_from_bytes(b"\x00\x00".as_ref()).unwrap();
    assert_eq!(tlv.tlv_type.value(), 0);
}

#[test]
fn test_eolldpdu_display() {
    assert_eq!(EndOfLLDPDUTLV::new().render(), "EndOfLLDPDUTLV");
}

#[test]
fn eolldpdu_load_rejects_nonzero_length() {
    assert_eq!(
        EndOfLLDPDUTLV::new_from_bytes(b"\x00\x01\x00".as_ref()),
        Err(TlvError::FixedLengthViolation)
    );
}

#[test]
fn eolldpdu_load_rejects_wrong_type() {
    assert_eq!(
        EndOfLLDPDUTLV::new_from_bytes(b"\x06\x00".as_ref()),
        Err(TlvError::TypeMismatch)
    );
}
