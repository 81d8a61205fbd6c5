//! The record kinds of an LLDP data unit and the envelope dispatcher.

pub mod eolldpdu_tlv;
pub mod managementaddress_tlv;
pub mod organizationallyspecific_tlv;
pub mod portdescription_tlv;
pub mod systemcapabilities_tlv;
pub mod systemdescription_tlv;
pub mod systemname_tlv;
pub mod ttl_tlv;

use vstd::prelude::*;

use crate::envelope;
use crate::error::TlvError;
use crate::tlv::eolldpdu_tlv::EndOfLLDPDUTLV;
use crate::tlv::managementaddress_tlv::ManagementAddressTLV;
use crate::tlv::organizationallyspecific_tlv::OrganizationallySpecificTLV;
use crate::tlv::portdescription_tlv::PortDescriptionTLV;
use crate::tlv::systemcapabilities_tlv::SystemCapabilitiesTLV;
use crate::tlv::systemdescription_tlv::SystemDescriptionTLV;
use crate::tlv::systemname_tlv::SystemNameTLV;
use crate::tlv::ttl_tlv::TtlTLV;

verus! {

/// The ten record kinds defined for an LLDP data unit, each with its 7-bit
/// wire tag: 0 end of LLDPDU, 1 chassis id, 2 port id, 3 time to live,
/// 4 port description, 5 system name, 6 system description, 7 system
/// capabilities, 8 management address, 127 organizationally specific.
#[derive(Debug, Clone, Copy, PartialEq, Eq, Hash, Structural)]
pub enum TlvType {
    EndOfLLDPDU,
    ChassisId,
    PortId,
    Ttl,
    PortDescription,
    SystemName,
    SystemDescription,
    SystemCapabilities,
    ManagementAddress,
    OrganizationallySpecific,
}

impl TlvType {
    /// The 7-bit tag value of this record kind on the wire.
    pub open spec fn spec_value(self) -> u8 {
        match self {
            TlvType::EndOfLLDPDU => 0,
            TlvType::ChassisId => 1,
            TlvType::PortId => 2,
            TlvType::Ttl => 3,
            TlvType::PortDescription => 4,
            TlvType::SystemName => 5,
            TlvType::SystemDescription => 6,
            TlvType::SystemCapabilities => 7,
            TlvType::ManagementAddress => 8,
            TlvType::OrganizationallySpecific => 127,
        }
    }

    /// The 7-bit tag value of this record kind on the wire.
    pub fn value(self) -> (v: u8)
        ensures
            v == self.spec_value(),
    {
        match self {
            TlvType::EndOfLLDPDU => 0,
            TlvType::ChassisId => 1,
            TlvType::PortId => 2,
            TlvType::Ttl => 3,
            TlvType::PortDescription => 4,
            TlvType::SystemName => 5,
            TlvType::SystemDescription => 6,
            TlvType::SystemCapabilities => 7,
            TlvType::ManagementAddress => 8,
            TlvType::OrganizationallySpecific => 127,
        }
    }

    /// True of exactly the ten tag values that name a record kind.
    pub open spec fn spec_defined(v: u8) -> bool {
        v <= 8 || v == 127
    }

    /// Maps a 7-bit tag value to its record kind; fails on every value that
    /// names none of the ten kinds.
    pub fn try_from(v: u8) -> (r: Result<TlvType, ()>)
        ensures
            r.is_ok() <==> TlvType::spec_defined(v),
            r matches Ok(t) ==> t.spec_value() == v,
    {
        match v {
            0 => Ok(TlvType::EndOfLLDPDU),
            1 => Ok(TlvType::ChassisId),
            2 => Ok(TlvType::PortId),
            3 => Ok(TlvType::Ttl),
            4 => Ok(TlvType::PortDescription),
            5 => Ok(TlvType::SystemName),
            6 => Ok(TlvType::SystemDescription),
            7 => Ok(TlvType::SystemCapabilities),
            8 => Ok(TlvType::ManagementAddress),
            127 => Ok(TlvType::OrganizationallySpecific),
            _ => Err(()),
        }
    }
}

/// One record of an LLDP data unit: a closed union over the record kinds this
/// library decodes.  The shared envelope behaviour (type identification,
/// byte serialization, textual rendering) delegates to the active variant.
#[derive(Debug, Clone, PartialEq)]
pub enum Tlv {
    EndOfLldpdu(EndOfLLDPDUTLV),
    ManagementAddress(ManagementAddressTLV),
    OrganizationallySpecific(OrganizationallySpecificTLV),
    PortDescription(PortDescriptionTLV),
    SystemDescription(SystemDescriptionTLV),
    SystemName(SystemNameTLV),
    SystemCapabilities(SystemCapabilitiesTLV),
    Ttl(TtlTLV),
}

impl Tlv {
    /// The record kind of the active variant.
    pub open spec fn spec_type(self) -> TlvType {
        match self {
            Tlv::EndOfLldpdu(_) => TlvType::EndOfLLDPDU,
            Tlv::ManagementAddress(_) => TlvType::ManagementAddress,
            Tlv::OrganizationallySpecific(_) => TlvType::OrganizationallySpecific,
            Tlv::PortDescription(_) => TlvType::PortDescription,
            Tlv::SystemDescription(_) => TlvType::SystemDescription,
            Tlv::SystemName(_) => TlvType::SystemName,
            Tlv::SystemCapabilities(_) => TlvType::SystemCapabilities,
            Tlv::Ttl(_) => TlvType::Ttl,
        }
    }

    /// The type tag stored inside the active variant's record.
    pub open spec fn spec_stored_type(self) -> TlvType {
        match self {
            Tlv::EndOfLldpdu(v) => v.tlv_type,
            Tlv::ManagementAddress(v) => v.tlv_type,
            Tlv::OrganizationallySpecific(v) => v.tlv_type,
            Tlv::PortDescription(v) => v.tlv_type,
            Tlv::SystemDescription(v) => v.tlv_type,
            Tlv::SystemName(v) => v.tlv_type,
            Tlv::SystemCapabilities(v) => v.tlv_type,
            Tlv::Ttl(v) => v.tlv_type,
        }
    }

    /// Well-formed: the active variant is well-formed.
    pub open spec fn inv(self) -> bool {
        match self {
            Tlv::EndOfLldpdu(v) => v.inv(),
            Tlv::ManagementAddress(v) => v.inv(),
            Tlv::OrganizationallySpecific(v) => v.inv(),
            Tlv::PortDescription(v) => v.inv(),
            Tlv::SystemDescription(v) => v.inv(),
            Tlv::SystemName(v) => v.inv(),
            Tlv::SystemCapabilities(v) => v.inv(),
            Tlv::Ttl(v) => v.inv(),
        }
    }

    /// The payload bytes of the active variant.
    pub open spec fn spec_payload(self) -> Seq<u8> {
        match self {
            Tlv::EndOfLldpdu(v) => v.spec_payload(),
            Tlv::ManagementAddress(v) => v.spec_payload(),
            Tlv::OrganizationallySpecific(v) => v.spec_payload(),
            Tlv::PortDescription(v) => v.spec_payload(),
            Tlv::SystemDescription(v) => v.spec_payload(),
            Tlv::SystemName(v) => v.spec_payload(),
            Tlv::SystemCapabilities(v) => v.spec_payload(),
            Tlv::Ttl(v) => v.spec_payload(),
        }
    }

    /// The full wire bytes of the active variant.
    pub open spec fn spec_bytes(self) -> Seq<u8> {
        match self {
            Tlv::EndOfLldpdu(v) => v.spec_bytes(),
            Tlv::ManagementAddress(v) => v.spec_bytes(),
            Tlv::OrganizationallySpecific(v) => v.spec_bytes(),
            Tlv::PortDescription(v) => v.spec_bytes(),
            Tlv::SystemDescription(v) => v.spec_bytes(),
            Tlv::SystemName(v) => v.spec_bytes(),
            Tlv::SystemCapabilities(v) => v.spec_bytes(),
            Tlv::Ttl(v) => v.spec_bytes(),
        }
    }

    /// The canonical textual rendering of the active variant.
    pub open spec fn spec_render(self) -> Seq<char> {
        match self {
            Tlv::EndOfLldpdu(v) => v.spec_render(),
            Tlv::ManagementAddress(v) => v.spec_render(),
            Tlv::OrganizationallySpecific(v) => v.spec_render(),
            Tlv::PortDescription(v) => v.spec_render(),
            Tlv::SystemDescription(v) => v.spec_render(),
            Tlv::SystemName(v) => v.spec_render(),
            Tlv::SystemCapabilities(v) => v.spec_render(),
            Tlv::Ttl(v) => v.spec_render(),
        }
    }

    /// The tag of the record: the type stored in the active variant, which
    /// for a well-formed record is the variant's own kind.
    pub fn get_type(&self) -> (t: TlvType)
        ensures
            t == self.spec_stored_type(),
            self.inv() ==> t == self.spec_type(),
    {
        match self {
            Tlv::EndOfLldpdu(value) => value.tlv_type,
            Tlv::ManagementAddress(value) => value.tlv_type,
            Tlv::OrganizationallySpecific(value) => value.tlv_type,
            Tlv::PortDescription(value) => value.tlv_type,
            Tlv::SystemDescription(value) => value.tlv_type,
            Tlv::SystemName(value) => value.tlv_type,
            Tlv::SystemCapabilities(value) => value.tlv_type,
            Tlv::Ttl(value) => value.tlv_type,
        }
    }

    /// The wire bytes of the record: envelope header, then payload.
    pub fn bytes(&self) -> (r: Vec<u8>)
        requires
            self.inv(),
        ensures
            r@ == self.spec_bytes(),
    {
        match self {
            Tlv::EndOfLldpdu(value) => value.bytes(),
            Tlv::ManagementAddress(value) => value.bytes(),
            Tlv::OrganizationallySpecific(value) => value.bytes(),
            Tlv::PortDescription(value) => value.bytes(),
            Tlv::SystemDescription(value) => value.bytes(),
            Tlv::SystemName(value) => value.bytes(),
            Tlv::SystemCapabilities(value) => value.bytes(),
            Tlv::Ttl(value) => value.bytes(),
        }
    }

    /// The payload-only length of the record, excluding the two-octet
    /// envelope header: exactly what the wire length field carries.
    pub fn encoded_length(&self) -> (n: usize)
        requires
            self.inv(),
        ensures
            n == self.spec_payload().len(),
    {
        match self {
            Tlv::EndOfLldpdu(value) => value.len(),
            Tlv::ManagementAddress(value) => value.len(),
            Tlv::OrganizationallySpecific(value) => value.len(),
            Tlv::PortDescription(value) => value.len(),
            Tlv::SystemDescription(value) => value.len(),
            Tlv::SystemName(value) => value.len(),
            Tlv::SystemCapabilities(value) => value.len(),
            Tlv::Ttl(value) => value.len(),
        }
    }

    /// Renders the record in its canonical textual form.
    pub fn render(&self) -> (s: String)
        ensures
            s@ == self.spec_render(),
    {
        match self {
            Tlv::EndOfLldpdu(value) => value.render(),
            Tlv::ManagementAddress(value) => value.render(),
            Tlv::OrganizationallySpecific(value) => value.render(),
            Tlv::PortDescription(value) => value.render(),
            Tlv::SystemDescription(value) => value.render(),
            Tlv::SystemName(value) => value.render(),
            Tlv::SystemCapabilities(value) => value.render(),
            Tlv::Ttl(value) => value.render(),
        }
    }

    /// Reads the total length of a packed record from its first two octets:
    /// the declared payload length plus the two header octets themselves.
    pub fn get_length(bytes: &[u8]) -> (n: u16)
        requires
            bytes@.len() >= 2,
        ensures
            n == 2 + envelope::spec_decode_length(bytes@[0], bytes@[1]),
    {
        let length = envelope::decode_length(bytes[0], bytes[1]);
        length + 2
    }

    /// True of exactly the buffers the dispatcher accepts: a readable first
    /// octet whose tag names a record kind this library decodes, and whose
    /// own decoder accepts the buffer.
    pub open spec fn spec_decode_ok(bytes: Seq<u8>) -> bool {
        &&& bytes.len() >= 1
        &&& match envelope::spec_tag(bytes[0]) {
            0 => EndOfLLDPDUTLV::spec_decode_ok(bytes),
            3 => TtlTLV::spec_decode_ok(bytes),
            4 => PortDescriptionTLV::spec_decode_ok(bytes),
            5 => SystemNameTLV::spec_decode_ok(bytes),
            6 => SystemDescriptionTLV::spec_decode_ok(bytes),
            7 => SystemCapabilitiesTLV::spec_decode_ok(bytes),
            8 => ManagementAddressTLV::spec_decode_ok(bytes),
            127 => OrganizationallySpecificTLV::spec_decode_ok(bytes),
            _ => false,
        }
    }

    /// The error the dispatcher reports on a buffer it rejects.  The chassis
    /// id and port id kinds have no codec in this library, so their tags are
    /// reported as unknown.
    pub open spec fn spec_decode_err(bytes: Seq<u8>) -> TlvError {
        if bytes.len() < 1 {
            TlvError::TruncatedBuffer
        } else {
            match envelope::spec_tag(bytes[0]) {
                0 => EndOfLLDPDUTLV::spec_decode_err(bytes),
                3 => TtlTLV::spec_decode_err(bytes),
                4 => PortDescriptionTLV::spec_decode_err(bytes),
                5 => SystemNameTLV::spec_decode_err(bytes),
                6 => SystemDescriptionTLV::spec_decode_err(bytes),
                7 => SystemCapabilitiesTLV::spec_decode_err(bytes),
                8 => ManagementAddressTLV::spec_decode_err(bytes),
                127 => OrganizationallySpecificTLV::spec_decode_err(bytes),
                _ => TlvError::UnknownTypeTag,
            }
        }
    }

    /// Creates a record from raw bytes: reads the 7-bit tag of the first
    /// octet and delegates to the matching record codec's decoder, which
    /// re-derives its own length.  On success the record is well-formed,
    /// carries the tag the buffer declared, and re-encodes to the consumed
    /// prefix of the buffer.
    pub fn from_bytes(bytes: &[u8]) -> (r: Result<Tlv, TlvError>)
        ensures
            r.is_ok() <==> Self::spec_decode_ok(bytes@),
            r matches Ok(rec) ==> {
                &&& rec.inv()
                &&& rec.spec_type().spec_value() == envelope::spec_tag(bytes@[0])
                &&& rec.spec_bytes() == bytes@.subrange(
                    0,
                    2 + envelope::spec_decode_length(bytes@[0], bytes@[1]) as int,
                )
            },
            r matches Err(e) ==> e == Self::spec_decode_err(bytes@),
    {
        if bytes.len() < 1 {
            return Err(TlvError::TruncatedBuffer);
        }
        let type_field = envelope::decode_tag(bytes[0]);
        let type_field = match TlvType::try_from(type_field) {
            Ok(t) => t,
            Err(_) => {
                return Err(TlvError::UnknownTypeTag);
            },
        };
        match type_field {
            TlvType::EndOfLLDPDU => match EndOfLLDPDUTLV::new_from_bytes(bytes) {
                Ok(v) => Ok(Tlv::EndOfLldpdu(v)),
                Err(e) => Err(e),
            },
            TlvType::ChassisId => Err(TlvError::UnknownTypeTag),
            TlvType::PortId => Err(TlvError::UnknownTypeTag),
            TlvType::Ttl => match TtlTLV::new_from_bytes(bytes) {
                Ok(v) => Ok(Tlv::Ttl(v)),
                Err(e) => Err(e),
            },
            TlvType::PortDescription => match PortDescriptionTLV::new_from_bytes(bytes) {
                Ok(v) => Ok(Tlv::PortDescription(v)),
                Err(e) => Err(e),
            },
            TlvType::SystemName => match SystemNameTLV::new_from_bytes(bytes) {
                Ok(v) => Ok(Tlv::SystemName(v)),
                Err(e) => Err(e),
            },
            TlvType::SystemDescription => match SystemDescriptionTLV::new_from_bytes(bytes) {
                Ok(v) => Ok(Tlv::SystemDescription(v)),
                Err(e) => Err(e),
            },
            TlvType::SystemCapabilities => match SystemCapabilitiesTLV::new_from_bytes(bytes) {
                Ok(v) => Ok(Tlv::SystemCapabilities(v)),
                Err(e) => Err(e),
            },
            TlvType::ManagementAddress => match ManagementAddressTLV::new_from_bytes(bytes) {
                Ok(v) => Ok(Tlv::ManagementAddress(v)),
                Err(e) => Err(e),
            },
            TlvType::OrganizationallySpecific => match OrganizationallySpecificTLV::new_from_bytes(
                bytes,
            ) {
                Ok(v) => Ok(Tlv::OrganizationallySpecific(v)),
                Err(e) => Err(e),
            },
        }
    }

    /// Field-wise equality of two records: the same variant with every field
    /// equal, an owned text compared by its characters and an owned byte
    /// vector by its bytes.
    pub open spec fn spec_same_record(a: Tlv, b: Tlv) -> bool {
        match (a, b) {
            (Tlv::EndOfLldpdu(x), Tlv::EndOfLldpdu(y)) => x == y,
            (Tlv::ManagementAddress(x), Tlv::ManagementAddress(y)) => {
                &&& x.tlv_type == y.tlv_type
                &&& x.subtype == y.subtype
                &&& x.value == y.value
                &&& x.interface_number == y.interface_number
                &&& x.oid@ == y.oid@
            },
            (Tlv::OrganizationallySpecific(x), Tlv::OrganizationallySpecific(y)) => {
                &&& x.tlv_type == y.tlv_type
                &&& x.oui@ == y.oui@
                &&& x.subtype == y.subtype
                &&& x.value@ == y.value@
            },
            (Tlv::PortDescription(x), Tlv::PortDescription(y)) => x.tlv_type == y.tlv_type
                && x.value@ == y.value@,
            (Tlv::SystemDescription(x), Tlv::SystemDescription(y)) => x.tlv_type == y.tlv_type
                && x.value@ == y.value@,
            (Tlv::SystemName(x), Tlv::SystemName(y)) => x.tlv_type == y.tlv_type && x.value@
                == y.value@,
            (Tlv::SystemCapabilities(x), Tlv::SystemCapabilities(y)) => x == y,
            (Tlv::Ttl(x), Tlv::Ttl(y)) => x == y,
            _ => false,
        }
    }

    /// The envelope header octets of a well-formed record's wire bytes carry
    /// exactly the record's kind and payload length, and the bytes are the
    /// header followed by the payload.
    proof fn lemma_header_of_bytes(t: Tlv)
        requires
            t.inv(),
        ensures
            envelope::len_representable(t.spec_payload().len()),
            envelope::spec_tag(t.spec_bytes()[0]) == t.spec_type().spec_value(),
            envelope::spec_decode_length(t.spec_bytes()[0], t.spec_bytes()[1])
                == t.spec_payload().len(),
            t.spec_bytes().len() == 2 + t.spec_payload().len(),
            t.spec_bytes().subrange(2, t.spec_bytes().len() as int) == t.spec_payload(),
    {
        if let Tlv::ManagementAddress(v) = t {
            assert(v.value.spec_octets().len() == 4 || v.value.spec_octets().len() == 16);
        }
        envelope::lemma_header_round_trip(t.spec_type().spec_value(), t.spec_payload().len());
        assert(t.spec_bytes()[0] == envelope::spec_type_byte(
            t.spec_type().spec_value(),
            t.spec_payload().len(),
        ));
        assert(t.spec_bytes()[1] == envelope::spec_length_byte(t.spec_payload().len()));
        assert(t.spec_bytes().subrange(2, t.spec_bytes().len() as int) =~= t.spec_payload());
    }

    /// Law (length consistency): for every well-formed record, the wire bytes
    /// are the two header octets followed by exactly the payload whose length
    /// the record reports.
    pub proof fn lemma_length_consistent(t: Tlv)
        requires
            t.inv(),
        ensures
            t.spec_bytes().len() == 2 + t.spec_payload().len(),
            t.spec_bytes().subrange(2, t.spec_bytes().len() as int) == t.spec_payload(),
    {
        Self::lemma_header_of_bytes(t);
    }

    /// Law (round trip, decode accepts encode): every well-formed record's
    /// wire bytes are accepted by the dispatcher's decoder, and their header
    /// declares exactly the record's payload length, so decoding them
    /// consumes them whole.
    pub proof fn lemma_encode_accepted(t: Tlv)
        requires
            t.inv(),
        ensures
            Self::spec_decode_ok(t.spec_bytes()),
            envelope::spec_decode_length(t.spec_bytes()[0], t.spec_bytes()[1])
                == t.spec_payload().len(),
    {
        Self::lemma_header_of_bytes(t);
        match t {
            Tlv::EndOfLldpdu(v) => EndOfLLDPDUTLV::lemma_encode_accepted(v),
            Tlv::ManagementAddress(v) => ManagementAddressTLV::lemma_encode_accepted(v),
            Tlv::OrganizationallySpecific(v) => OrganizationallySpecificTLV::lemma_encode_accepted(
                v,
            ),
            Tlv::PortDescription(v) => PortDescriptionTLV::lemma_encode_accepted(v),
            Tlv::SystemDescription(v) => SystemDescriptionTLV::lemma_encode_accepted(v),
            Tlv::SystemName(v) => SystemNameTLV::lemma_encode_accepted(v),
            Tlv::SystemCapabilities(v) => SystemCapabilitiesTLV::lemma_encode_accepted(v),
            Tlv::Ttl(v) => TtlTLV::lemma_encode_accepted(v),
        }
    }

    /// Law (round trip, encode determines the record): two well-formed
    /// records with the same wire bytes are field-wise equal.  Together with
    /// the decoder contracts this gives the round trip: decoding the encoding
    /// of a well-formed record yields a field-wise equal record.
    pub proof fn lemma_encoding_injective(a: Tlv, b: Tlv)
        requires
            a.inv(),
            b.inv(),
            a.spec_bytes() == b.spec_bytes(),
        ensures
            Self::spec_same_record(a, b),
    {
        Self::lemma_header_of_bytes(a);
        Self::lemma_header_of_bytes(b);
        assert(a.spec_type() == b.spec_type());
        match (a, b) {
            (Tlv::EndOfLldpdu(x), Tlv::EndOfLldpdu(y)) => {
                EndOfLLDPDUTLV::lemma_bytes_injective(x, y);
            },
            (Tlv::ManagementAddress(x), Tlv::ManagementAddress(y)) => {
                ManagementAddressTLV::lemma_bytes_injective(x, y);
            },
            (Tlv::OrganizationallySpecific(x), Tlv::OrganizationallySpecific(y)) => {
                OrganizationallySpecificTLV::lemma_bytes_injective(x, y);
            },
            (Tlv::PortDescription(x), Tlv::PortDescription(y)) => {
                PortDescriptionTLV::lemma_bytes_injective(x, y);
            },
            (Tlv::SystemDescription(x), Tlv::SystemDescription(y)) => {
                SystemDescriptionTLV::lemma_bytes_injective(x, y);
            },
            (Tlv::SystemName(x), Tlv::SystemName(y)) => {
                SystemNameTLV::lemma_bytes_injective(x, y);
            },
            (Tlv::SystemCapabilities(x), Tlv::SystemCapabilities(y)) => {
                SystemCapabilitiesTLV::lemma_bytes_injective(x, y);
            },
            (Tlv::Ttl(x), Tlv::Ttl(y)) => {
                TtlTLV::lemma_bytes_injective(x, y);
            },
            _ => {
                assert(false);
            },
        }
    }
}

} // verus!

