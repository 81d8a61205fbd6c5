use bytes::BufMut;
use lldp_tlv::error::TlvError;
use lldp_tlv::ip::IpAddress;
use lldp_tlv::tlv::managementaddress_tlv::{IFNumberingSubtype, ManagementAddressTLV};
use lldp_tlv::tlv::TlvType;

const IPV4: [u8; 4] = [192, 0, 2, 100];
const IPV6: [u8; 16] = [0x20, 0x01, 0x00, 0xdb, 0, 0, 0, 0, 0, 0, 0, 0, 0, 0, 0, 0x04];

fn set_up() -> (ManagementAddressTLV, ManagementAddressTLV) {
    let ifnum = 5;
    let oid = b"\x2b\x06\x01\x04\x01\x82\x37\x15\x14".to_vec();
    let tlv4 = ManagementAddressTLV::new(
        IpAddress::V4(IPV4),
        ifnum,
        IFNumberingSubtype::Unknown,
        oid.clone(),
    )
    .unwrap();
    let tlv6 =
        ManagementAddressTLV::new(IpAddress::V6(IPV6), ifnum, IFNumberingSubtype::Unknown, oid)
            .unwrap();
    (tlv4, tlv6)
}

#[test]
fn test_chassisid_type() {
    let (tlv4, tlv6) = set_up();
    assert_eq!(tlv4.tlv_type.value(), TlvType::ManagementAddress.value());
    assert_eq!(tlv6.tlv_type.value(), TlvType::ManagementAddress.value());
}

#[test]
fn test_length_v4() {
    let (tlv4, _) = set_up();
    assert_eq!(tlv4.len(), 12 + b"\x2b\x06\x01\x04\x01\x82\x37\x15\x14".to_vec().len());
}

#[test]
fn test_length_v6() {
    let (_, tlv6) = set_up();
    assert_eq!(tlv6.len(), 24 + b"\x2b\x06\x01\x04\x01\x82\x37\x15\x14".to_vec().len());
}

#[test]
fn managementaddress_tlv_test_value() {
    let (tlv4, tlv6) = set_up();
    match tlv4.value {
        IpAddress::V4(ip) => {
            assert_eq!(ip, [192, 0, 2, 100]);
        }
        IpAddress::V6(_) => {
            panic!("Expected IPv4, got IPv6 address");
        }
    }
    match tlv6.value {
        IpAddress::V4(_) => {
            panic!("Expected IPv6, got IPv4 address");
        }
        IpAddress::V6(ip) => {
            assert_eq!(ip, IPV6);
        }
    }
}

#[test]
fn test_oid() {
    let (tlv4, tlv6) = set_up();
    assert_eq!(tlv4.oid, b"\x2b\x06\x01\x04\x01\x82\x37\x15\x14".to_vec());
    assert_eq!(tlv6.oid, b"\x2b\x06\x01\x04\x01\x82\x37\x15\x14".to_vec());
}

#[test]
fn test_none_oid() {
    let (tlv4, tlv6) = set_up();
    let t1 = ManagementAddressTLV::new(tlv4.value, 5, IFNumberingSubtype::Unknown, vec![]).unwrap();
    let t2 = ManagementAddressTLV::new(tlv6.value, 5, IFNumberingSubtype::Unknown, vec![]).unwrap();
    assert_eq!(t1.oid, vec![]);
    assert_eq!(t2.oid, vec![]);
}

#[test]
fn test_dump_v4() {
    let (tlv4, _) = set_up();
    let oid = b"\x2b\x06\x01\x04\x01\x82\x37\x15\x14";

    let mut bytes = b"\x10".to_vec();
    bytes.put_u8(12 + oid.len() as u8);
    bytes.put(&b"\x05\x01"[..]);
    bytes.put(&IPV4[..]);
    bytes.put(&b"\x01"[..]);
    bytes.put_u32(5);
    bytes.put_u8(oid.len() as u8);
    bytes.put(&oid[..]);
    assert_eq!(tlv4.bytes(), bytes);

    assert_eq!(
        tlv4.bytes(),
        [16, 21, 5, 1, 192, 0, 2, 100, 1, 0, 0, 0, 5, 9, 43, 6, 1, 4, 1, 130, 55, 21, 20].to_vec()
    );
}

#[test]
fn test_dump_v6() {
    let (_, tlv6) = set_up();
    let oid = b"\x2b\x06\x01\x04\x01\x82\x37\x15\x14";

    let mut bytes = b"\x10".to_vec();
    bytes.put_u8(24 + oid.len() as u8);
    bytes.put(&b"\x11\x02"[..]);
    bytes.put(&IPV6[..]);
    bytes.put(&b"\x01"[..]);
    bytes.put_u32(5);
    bytes.put_u8(oid.len() as u8);
    bytes.put(&oid[..]);
    assert_eq!(tlv6.bytes(), bytes);

    assert_eq!(
        tlv6.bytes(),
        [
            16, 33, 17, 2, 32, 1, 0, 219, 0, 0, 0, 0, 0, 0, 0, 0, 0, 0, 0, 4, 1, 0, 0, 0, 5, 9,
            43, 6, 1, 4, 1, 130, 55, 21, 20
        ]
        .to_vec()
    );
}

#[test]
fn test_dump_zero_oid() {
    let tlv = ManagementAddressTLV::new(
        IpAddress::V4([192, 0, 2, 42]),
        1,
        IFNumberingSubtype::SystemPort,
        vec![],
    )
    .unwrap();
    assert_eq!(tlv.bytes(), b"\x10\x0C\x05\x01\xC0\x00\x02*\x03\x00\x00\x00\x01\x00".to_vec());
}

#[test]
fn test_load_v4() {
    let tlv = ManagementAddressTLV::new_from_bytes(
        b"\x10\x0D\x05\x01\xC0\x00\x02*\x02\x00\x00\x00\x01\x01\x0A",
    )
    .unwrap();
    assert_eq!(tlv.tlv_type.value(), TlvType::ManagementAddress.value());
    assert_eq!(tlv.subtype.value(), IFNumberingSubtype::IfIndex.value());
    match tlv.value {
        IpAddress::V4(ip) => {
            assert_eq!(ip, [192, 0, 2, 42]);
        }
        IpAddress::V6(_) => {
            panic!("Expected IPv4, got IPv6 address");
        }
    };
    assert_eq!(tlv.oid, b"\x0A".to_vec());
}

#[test]
fn test_load_v6() {
    let tlv = ManagementAddressTLV::new_from_bytes(
        b"\x10\x19\x11\x02 \x01\x00\xdb\x00\x00\x00\x00\x00\x00\x00\x00\x00\x00\x00B\x02\x00\x00\x00\x01\x01\x0A",
    )
    .unwrap();
    assert_eq!(tlv.tlv_type.value(), TlvType::ManagementAddress.value());
    assert_eq!(tlv.subtype.value(), IFNumberingSubtype::IfIndex.value());
    match tlv.value {
        IpAddress::V4(_) => {
            panic!("Expected IPv6, got IPv4 address");
        }
        IpAddress::V6(ip) => {
            assert_eq!(
                ip,
                [0x20, 0x01, 0x00, 0xdb, 0, 0, 0, 0, 0, 0, 0, 0, 0, 0, 0, 0x42]
            );
        }
    };
    assert_eq!(tlv.oid, b"\x0A".to_vec());
}

#[test]
fn test_load_zero_oid() {
    let tlv = ManagementAddressTLV::new_from_bytes(
        b"\x10\x0C\x05\x01\xC0\x00\x02*\x03\x00\x00\x00\x01\x00",
    )
    .unwrap();
    assert_eq!(tlv.oid, vec![]);
}

#[test]
fn oid_of_128_bytes_is_accepted() {
    // Payload: 8 fixed octets + 4 address octets + 128 object identifier
    // bytes, and the matching declared length.
    let mut buf: Vec<u8> = vec![0x10, 140, 0x05, 0x01, 192, 0, 2, 1, 0x01, 0, 0, 0, 7, 128];
    buf.extend(std::iter::repeat(0x2B).take(128));
    let tlv = ManagementAddressTLV::new_from_bytes(buf.as_slice()).unwrap();
    assert_eq!(tlv.oid.len(), 128);

    let built = ManagementAddressTLV::new(
        IpAddress::V4([192, 0, 2, 1]),
        7,
        IFNumberingSubtype::Unknown,
        vec![0x2B; 128],
    );
    assert!(built.is_ok());
}

#[test]
fn oid_of_129_bytes_is_rejected() {
    let mut buf: Vec<u8> = vec![0x10, 141, 0x05, 0x01, 192, 0, 2, 1, 0x01, 0, 0, 0, 7, 129];
    buf.extend(std::iter::repeat(0x2B).take(129));
    assert_eq!(
        ManagementAddressTLV::new_from_bytes(buf.as_slice()),
        Err(TlvError::OidOverflow)
    );

    let built = ManagementAddressTLV::new(
        IpAddress::V4([192, 0, 2, 1]),
        7,
        IFNumberingSubtype::Unknown,
        vec![0x2B; 129],
    );
    assert_eq!(built, Err(TlvError::OidOverflow));
}

#[test]
fn unknown_address_family_is_rejected() {
    assert_eq!(
        ManagementAddressTLV::new_from_bytes(
            b"\x10\x0C\x05\x03\xC0\x00\x02*\x03\x00\x00\x00\x01\x00",
        ),
        Err(TlvError::AddressFamilyUnrecognized)
    );
}

#[test]
fn wrong_address_string_length_is_rejected() {
    assert_eq!(
        ManagementAddressTLV::new_from_bytes(
            b"\x10\x0C\x06\x01\xC0\x00\x02*\x03\x00\x00\x00\x01\x00",
        ),
        Err(TlvError::AddressLengthMismatch)
    );
}

#[test]
fn unknown_interface_subtype_is_rejected() {
    assert_eq!(
        ManagementAddressTLV::new_from_bytes(
            b"\x10\x0C\x05\x01\xC0\x00\x02*\x04\x00\x00\x00\x01\x00",
        ),
        Err(TlvError::UnrecognizedInterfaceSubtype)
    );
}

#[test]
fn interface_subtype_values_classify() {
    assert_eq!(IFNumberingSubtype::try_from(1), Ok(IFNumberingSubtype::Unknown));
    assert_eq!(IFNumberingSubtype::try_from(2), Ok(IFNumberingSubtype::IfIndex));
    assert_eq!(IFNumberingSubtype::try_from(3), Ok(IFNumberingSubtype::SystemPort));
    assert_eq!(IFNumberingSubtype::try_from(0), Err(()));
    assert_eq!(IFNumberingSubtype::try_from(4), Err(()));
}

#[test]
fn managementaddress_round_trip() {
    let (tlv4, tlv6) = set_up();
    assert_eq!(
        ManagementAddressTLV::new_from_bytes(tlv4.bytes().as_slice()).unwrap(),
        tlv4
    );
    assert_eq!(
        ManagementAddressTLV::new_from_bytes(tlv6.bytes().as_slice()).unwrap(),
        tlv6
    );
}

#[test]
fn test_display_v4() {
    let (tlv, _) = set_up();
    assert_eq!(tlv.render(), "ManagementAddressTLV(\"192.0.2.100\", 5, \"2B0601040182371514\")");
}

#[test]
fn test_display_v6() {
    let (_, tlv) = set_up();
    assert_eq!(tlv.render(), "ManagementAddressTLV(\"2001:db::4\", 5, \"2B0601040182371514\")");
}
