//! Management Address TLV.
//!
//! Identifies an address under which higher-layer entities of the sending
//! agent can be reached, together with the interface it belongs to and an
//! optional object identifier.  The payload is laid out as: address string
//! length (one octet, one more than the number of address octets), address
//! family (one octet, 1 IPv4 or 2 IPv6), the address octets, the
//! interface-numbering subtype (one octet), the interface number (four
//! octets, big-endian), the object identifier length (one octet, at most
//! 128), and the object identifier bytes.

use vstd::prelude::*;
use vstd::slice::slice_to_vec;
use vstd::string::StringExecFns;

use crate::envelope;
use crate::error::TlvError;
use crate::ip::IpAddress;
use crate::render;
use crate::tlv::TlvType;

verus! {

/// The numbering method that gives the interface number its meaning.
#[derive(Debug, Clone, Copy, PartialEq, Eq, Structural)]
pub enum IFNumberingSubtype {
    Unknown,
    IfIndex,
    SystemPort,
}

impl IFNumberingSubtype {
    /// The wire value of this subtype.
    pub open spec fn spec_value(self) -> u8 {
        match self {
            IFNumberingSubtype::Unknown => 1,
            IFNumberingSubtype::IfIndex => 2,
            IFNumberingSubtype::SystemPort => 3,
        }
    }

    /// The wire value of this subtype.
    pub fn value(self) -> (v: u8)
        ensures
            v == self.spec_value(),
    {
        match self {
            IFNumberingSubtype::Unknown => 1,
            IFNumberingSubtype::IfIndex => 2,
            IFNumberingSubtype::SystemPort => 3,
        }
    }

    /// True of exactly the three wire values that name a subtype.
    pub open spec fn spec_defined(v: u8) -> bool {
        1 <= v <= 3
    }

    /// Maps a wire value to its subtype; fails on every other value.
    pub fn try_from(v: u8) -> (r: Result<IFNumberingSubtype, ()>)
        ensures
            r.is_ok() <==> IFNumberingSubtype::spec_defined(v),
            r matches Ok(t) ==> t.spec_value() == v,
    {
        match v {
            1 => Ok(IFNumberingSubtype::Unknown),
            2 => Ok(IFNumberingSubtype::IfIndex),
            3 => Ok(IFNumberingSubtype::SystemPort),
            _ => Err(()),
        }
    }
}

/// Management Address TLV: tag 8.
#[derive(Debug, Clone, PartialEq)]
pub struct ManagementAddressTLV {
    /// The type of the TLV.
    pub tlv_type: TlvType,
    /// The interface numbering subtype.
    pub subtype: IFNumberingSubtype,
    /// The management address.
    pub value: IpAddress,
    /// The interface number.
    pub interface_number: u32,
    /// The object identifier of the device sending the TLV.
    pub oid: Vec<u8>,
}

impl ManagementAddressTLV {
    /// Well-formed: the record carries its own kind's tag and its object
    /// identifier has at most 128 bytes.
    pub open spec fn inv(self) -> bool {
        &&& self.tlv_type == TlvType::ManagementAddress
        &&& self.oid@.len() <= 128
    }

    /// The address family octet: 1 for IPv4, 2 for IPv6.
    pub open spec fn spec_family(self) -> u8 {
        if self.value.spec_is_v4() {
            1
        } else {
            2
        }
    }

    /// The interface number as four octets, big-endian.
    pub open spec fn spec_interface_number_bytes(self) -> Seq<u8> {
        let n = self.interface_number;
        seq![
            (n / 0x1000000) as u8,
            ((n / 0x10000) % 256) as u8,
            ((n / 256) % 256) as u8,
            (n % 256) as u8,
        ]
    }

    /// The payload bytes this record encodes to: address string length,
    /// family, address octets, subtype, interface number, object identifier
    /// length, object identifier.
    pub open spec fn spec_payload(self) -> Seq<u8> {
        seq![(1 + self.value.spec_octets().len()) as u8, self.spec_family()]
            + self.value.spec_octets() + seq![self.subtype.spec_value()]
            + self.spec_interface_number_bytes() + seq![self.oid@.len() as u8] + self.oid@
    }

    /// The full wire bytes: the two-octet envelope header, then the payload.
    pub open spec fn spec_bytes(self) -> Seq<u8> {
        envelope::spec_header(TlvType::ManagementAddress.spec_value(), self.spec_payload().len())
            + self.spec_payload()
    }

    /// The number of address octets declared by a buffer's family octet.
    pub open spec fn spec_addr_len_of(bytes: Seq<u8>) -> int
        recommends
            bytes.len() >= 4,
    {
        if bytes[3] == 1 {
            4int
        } else {
            16int
        }
    }

    /// True of exactly the buffers the decoder accepts.
    pub open spec fn spec_decode_ok(bytes: Seq<u8>) -> bool {
        let len = envelope::spec_decode_length(bytes[0], bytes[1]) as int;
        let alen = Self::spec_addr_len_of(bytes);
        &&& bytes.len() >= 2
        &&& envelope::spec_tag(bytes[0]) == TlvType::ManagementAddress.spec_value()
        &&& len < 512
        &&& bytes.len() >= 2 + len
        &&& len >= 2
        &&& (bytes[3] == 1 || bytes[3] == 2)
        &&& bytes[2] == 1 + alen
        &&& len >= 8 + alen
        &&& IFNumberingSubtype::spec_defined(bytes[4 + alen])
        &&& bytes[9 + alen] <= 128
        &&& len == 8 + alen + bytes[9 + alen]
    }

    /// The error the decoder reports on a buffer it rejects.
    pub open spec fn spec_decode_err(bytes: Seq<u8>) -> TlvError {
        let len = envelope::spec_decode_length(bytes[0], bytes[1]) as int;
        let alen = Self::spec_addr_len_of(bytes);
        if bytes.len() < 2 {
            TlvError::TruncatedBuffer
        } else if envelope::spec_tag(bytes[0]) != TlvType::ManagementAddress.spec_value() {
            TlvError::TypeMismatch
        } else if len >= 512 {
            TlvError::LengthOverflow
        } else if bytes.len() < 2 + len {
            TlvError::TruncatedBuffer
        } else if len < 2 {
            TlvError::TruncatedBuffer
        } else if bytes[3] != 1 && bytes[3] != 2 {
            TlvError::AddressFamilyUnrecognized
        } else if bytes[2] != 1 + alen {
            TlvError::AddressLengthMismatch
        } else if len < 8 + alen {
            TlvError::TruncatedBuffer
        } else if !IFNumberingSubtype::spec_defined(bytes[4 + alen]) {
            TlvError::UnrecognizedInterfaceSubtype
        } else {
            TlvError::OidOverflow
        }
    }

    /// Constructor: accepts exactly the object identifiers of at most 128 bytes.
    pub fn new(address: IpAddress, interface_number: u32, ifsubtype: IFNumberingSubtype, oid: Vec<
        u8,
    >) -> (r: Result<ManagementAddressTLV, TlvError>)
        ensures
            r.is_ok() <==> oid@.len() <= 128,
            r matches Ok(rec) ==> {
                &&& rec.inv()
                &&& rec.value == address
                &&& rec.interface_number == interface_number
                &&& rec.subtype == ifsubtype
                &&& rec.oid@ == oid@
            },
            r matches Err(e) ==> e == TlvError::OidOverflow,
    {
        if oid.len() > 128 {
            return Err(TlvError::OidOverflow);
        }
        Ok(
            ManagementAddressTLV {
                tlv_type: TlvType::ManagementAddress,
                subtype: ifsubtype,
                value: address,
                interface_number,
                oid,
            },
        )
    }

    /// Decodes one record from the buffer; trailing bytes beyond the declared
    /// payload are ignored.  On success every field is read from its payload
    /// position, whose offset follows from the already-parsed address family,
    /// and the record re-encodes to the consumed prefix of the buffer.
    pub fn new_from_bytes(bytes: &[u8]) -> (r: Result<ManagementAddressTLV, TlvError>)
        ensures
            r.is_ok() <==> Self::spec_decode_ok(bytes@),
            r matches Ok(rec) ==> ({
                let len = envelope::spec_decode_length(bytes@[0], bytes@[1]) as int;
                let alen = Self::spec_addr_len_of(bytes@);
                &&& rec.inv()
                &&& rec.value.spec_is_v4() == (bytes@[3] == 1)
                &&& rec.value.spec_octets() == bytes@.subrange(4, 4 + alen)
                &&& rec.subtype.spec_value() == bytes@[4 + alen]
                &&& rec.interface_number == bytes@[5 + alen] * 0x1000000 + bytes@[6 + alen]
                    * 0x10000 + bytes@[7 + alen] * 256 + bytes@[8 + alen]
                &&& rec.oid@ == bytes@.subrange(10 + alen, 2 + len)
                &&& rec.spec_bytes() == bytes@.subrange(0, 2 + len)
            }),
            r matches Err(e) ==> e == Self::spec_decode_err(bytes@),
    {
        if bytes.len() < 2 {
            return Err(TlvError::TruncatedBuffer);
        }
        let type_field = envelope::decode_tag(bytes[0]);
        if type_field != 8 {
            return Err(TlvError::TypeMismatch);
        }
        let length = envelope::decode_length(bytes[0], bytes[1]);
        if length >= 512 {
            return Err(TlvError::LengthOverflow);
        }
        let length = length as usize;
        if bytes.len() < 2 + length {
            return Err(TlvError::TruncatedBuffer);
        }
        if length < 2 {
            return Err(TlvError::TruncatedBuffer);
        }
        let mgmt_add_length = bytes[2];
        let mgmt_add_subtype = bytes[3];
        if mgmt_add_subtype != 1 && mgmt_add_subtype != 2 {
            return Err(TlvError::AddressFamilyUnrecognized);
        }
        let alen: usize = if mgmt_add_subtype == 1 {
            4
        } else {
            16
        };
        if mgmt_add_length != 1 + alen as u8 {
            return Err(TlvError::AddressLengthMismatch);
        }
        if length < 8 + alen {
            return Err(TlvError::TruncatedBuffer);
        }
        let address = if mgmt_add_subtype == 1 {
            IpAddress::V4([bytes[4], bytes[5], bytes[6], bytes[7]])
        } else {
            IpAddress::V6(
                [
                    bytes[4],
                    bytes[5],
                    bytes[6],
                    bytes[7],
                    bytes[8],
                    bytes[9],
                    bytes[10],
                    bytes[11],
                    bytes[12],
                    bytes[13],
                    bytes[14],
                    bytes[15],
                    bytes[16],
                    bytes[17],
                    bytes[18],
                    bytes[19],
                ],
            )
        };
        proof {
            broadcast use vstd::array::group_array_axioms;

            assert(address.spec_octets() =~= bytes@.subrange(4, 4 + alen as int));
        }
        let ifsubtype = match IFNumberingSubtype::try_from(bytes[4 + alen]) {
            Ok(t) => t,
            Err(_) => {
                return Err(TlvError::UnrecognizedInterfaceSubtype);
            },
        };
        let interface_number = (bytes[5 + alen] as u32) * 0x1000000 + (bytes[6 + alen] as u32)
            * 0x10000 + (bytes[7 + alen] as u32) * 256 + (bytes[8 + alen] as u32);
        let oid_length = bytes[9 + alen];
        if oid_length > 128 {
            return Err(TlvError::OidOverflow);
        }
        if length != 8 + alen + oid_length as usize {
            return Err(TlvError::OidOverflow);
        }
        let oid = slice_to_vec(&bytes[10 + alen..2 + length]);
        let rec = ManagementAddressTLV {
            tlv_type: TlvType::ManagementAddress,
            subtype: ifsubtype,
            value: address,
            interface_number,
            oid,
        };
        proof {
            let len = envelope::spec_decode_length(bytes@[0], bytes@[1]) as int;
            let al = alen as int;
            envelope::lemma_header_injective(bytes@[0], bytes@[1]);
            let n = rec.interface_number;
            assert(n / 0x1000000 == bytes@[5 + al] && (n / 0x10000) % 256 == bytes@[6 + al] && (n
                / 256) % 256 == bytes@[7 + al] && n % 256 == bytes@[8 + al])
                by (nonlinear_arith)
                requires
                    n == bytes@[5 + al] * 0x1000000 + bytes@[6 + al] * 0x10000 + bytes@[7 + al]
                        * 256 + bytes@[8 + al],
                    bytes@[5 + al] < 256,
                    bytes@[6 + al] < 256,
                    bytes@[7 + al] < 256,
                    bytes@[8 + al] < 256,
            ;
            assert(rec.spec_payload() =~= bytes@.subrange(2, 2 + len));
            assert(rec.spec_bytes() =~= bytes@.subrange(0, 2 + len));
        }
        Ok(rec)
    }

    /// The payload length of this record: eight plus the address octets plus
    /// the object identifier bytes.
    pub fn len(&self) -> (n: usize)
        requires
            self.inv(),
        ensures
            n == self.spec_payload().len(),
    {
        8 + self.oid.len() + (if self.value.is_ipv4() {
            4
        } else {
            16
        })
    }

    /// The wire bytes of this record.
    pub fn bytes(&self) -> (r: Vec<u8>)
        requires
            self.inv(),
        ensures
            r@ == self.spec_bytes(),
    {
        let alen: usize = if self.value.is_ipv4() {
            4
        } else {
            16
        };
        let length_field = 8 + alen + self.oid.len();
        let mut result: Vec<u8> = Vec::new();
        result.push(16);
        result.push(length_field as u8);
        result.push(1 + alen as u8);
        result.push(if self.value.is_ipv4() {
            1
        } else {
            2
        });
        match &self.value {
            IpAddress::V4(a) => result.extend_from_slice(a.as_slice()),
            IpAddress::V6(a) => result.extend_from_slice(a.as_slice()),
        }
        result.push(self.subtype.value());
        let n = self.interface_number;
        result.push((n / 0x1000000) as u8);
        result.push(((n / 0x10000) % 256) as u8);
        result.push(((n / 256) % 256) as u8);
        result.push((n % 256) as u8);
        result.push(self.oid.len() as u8);
        result.extend_from_slice(self.oid.as_slice());
        proof {
            broadcast use vstd::array::group_array_axioms;

            assert(result@ =~= self.spec_bytes());
        }
        result
    }

    /// Law: a well-formed record's wire bytes are accepted by its own decoder.
    pub proof fn lemma_encode_accepted(t: ManagementAddressTLV)
        requires
            t.inv(),
        ensures
            Self::spec_decode_ok(t.spec_bytes()),
    {
        let alen = t.value.spec_octets().len() as int;
        let oidlen = t.oid@.len() as int;
        let p = t.spec_payload();
        let plen = p.len();
        assert(alen == 4 || alen == 16);
        assert(plen == 8 + alen + oidlen);
        envelope::lemma_header_round_trip(TlvType::ManagementAddress.spec_value(), plen);
        let bytes = t.spec_bytes();
        assert(bytes[0] == envelope::spec_type_byte(TlvType::ManagementAddress.spec_value(), plen));
        assert(bytes[1] == envelope::spec_length_byte(plen));
        assert(bytes[2] == p[0] && p[0] == (1 + alen) as u8);
        assert(bytes[3] == p[1] && p[1] == t.spec_family());
        assert(bytes[4 + alen] == p[2 + alen] && p[2 + alen] == t.subtype.spec_value());
        assert(bytes[9 + alen] == p[7 + alen] && p[7 + alen] == t.oid@.len() as u8);
        assert(Self::spec_addr_len_of(bytes) == alen);
    }

    /// Law: the encoding determines the record; two well-formed records with
    /// the same wire bytes carry the same tag, address, subtype, interface
    /// number and object identifier.
    pub proof fn lemma_bytes_injective(a: ManagementAddressTLV, b: ManagementAddressTLV)
        requires
            a.inv(),
            b.inv(),
            a.spec_bytes() == b.spec_bytes(),
        ensures
            a.tlv_type == b.tlv_type,
            a.value == b.value,
            a.subtype == b.subtype,
            a.interface_number == b.interface_number,
            a.oid@ == b.oid@,
    {
        broadcast use vstd::array::group_array_axioms;

        let pa = a.spec_payload();
        let pb = b.spec_payload();
        assert(pa =~= a.spec_bytes().subrange(2, a.spec_bytes().len() as int));
        assert(pb =~= b.spec_bytes().subrange(2, b.spec_bytes().len() as int));
        assert(pa[1] == a.spec_family() && pb[1] == b.spec_family());
        assert(a.value.spec_is_v4() == b.value.spec_is_v4());
        let alen = a.value.spec_octets().len() as int;
        assert(alen == b.value.spec_octets().len() as int);
        assert(a.value.spec_octets() =~= pa.subrange(2, 2 + alen));
        assert(b.value.spec_octets() =~= pb.subrange(2, 2 + alen));
        match (a.value, b.value) {
            (IpAddress::V4(x), IpAddress::V4(y)) => {
                assert(x@ =~= y@);
                assert(x == y);
            },
            (IpAddress::V6(x), IpAddress::V6(y)) => {
                assert(x@ =~= y@);
                assert(x == y);
            },
            _ => {
                assert(false);
            },
        }
        assert(pa[2 + alen] == a.subtype.spec_value() && pb[2 + alen] == b.subtype.spec_value());
        assert(a.subtype == b.subtype);
        let na = a.interface_number;
        let nb = b.interface_number;
        assert(pa[3 + alen] == (na / 0x1000000) as u8 && pa[4 + alen] == ((na / 0x10000)
            % 256) as u8 && pa[5 + alen] == ((na / 256) % 256) as u8 && pa[6 + alen] == (na
            % 256) as u8);
        assert(pb[3 + alen] == (nb / 0x1000000) as u8 && pb[4 + alen] == ((nb / 0x10000)
            % 256) as u8 && pb[5 + alen] == ((nb / 256) % 256) as u8 && pb[6 + alen] == (nb
            % 256) as u8);
        assert(na == nb) by (bit_vector)
            requires
                na / 0x1000000 == nb / 0x1000000,
                (na / 0x10000) % 256 == (nb / 0x10000) % 256,
                (na / 256) % 256 == (nb / 256) % 256,
                na % 256 == nb % 256,
        ;
        assert(pa[7 + alen] == a.oid@.len() as u8 && pb[7 + alen] == b.oid@.len() as u8);
        assert(a.oid@.len() == b.oid@.len());
        assert(a.oid@ =~= pa.subrange(8 + alen, pa.len() as int));
        assert(b.oid@ =~= pb.subrange(8 + alen, pb.len() as int));
    }

    /// The canonical textual rendering of this record: the address in its
    /// textual form, the interface number decimal, and the object identifier
    /// as uppercase hexadecimal with two digits per byte.
    pub open spec fn spec_render(self) -> Seq<char> {
        "ManagementAddressTLV(\""@ + self.value.spec_render() + "\", "@ + render::spec_dec(
            self.interface_number as nat,
        ) + ", \""@ + render::spec_hex_padded(self.oid@) + "\")"@
    }

    /// Renders the record in its canonical textual form.
    pub fn render(&self) -> (s: String)
        ensures
            s@ == self.spec_render(),
    {
        let mut s = String::from_str("ManagementAddressTLV(\"");
        let addr = self.value.render();
        s.append(addr.as_str());
        s.append("\", ");
        render::append_dec_u32(&mut s, self.interface_number);
        s.append(", \"");
        render::append_hex_padded(&mut s, &self.oid);
        s.append("\")");
        proof {
            assert(s@ =~= self.spec_render());
        }
        s
    }
}

} // verus!
