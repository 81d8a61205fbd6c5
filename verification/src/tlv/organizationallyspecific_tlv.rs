//! Organizationally Specific TLV.
//!
//! Lets organizations define their own records.  The payload is a three-octet
//! organizationally unique identifier (OUI), a one-octet subtype assigned by
//! that organization, and an opaque value of arbitrary bytes.

use vstd::prelude::*;
use vstd::slice::slice_to_vec;
use vstd::string::StringExecFns;

use crate::envelope;
use crate::error::TlvError;
use crate::render;
use crate::tlv::TlvType;

verus! {

/// Organizationally Specific TLV: tag 127, payload the OUI, the subtype and
/// the organizationally defined value.
#[derive(Debug, Clone, PartialEq)]
pub struct OrganizationallySpecificTLV {
    /// The type of the TLV.
    pub tlv_type: TlvType,
    /// Organizationally unique identifier: exactly three bytes.
    pub oui: Vec<u8>,
    /// Organizationally defined subtype.
    pub subtype: u8,
    /// Organizationally defined information, not interpreted.
    pub value: Vec<u8>,
}

impl OrganizationallySpecificTLV {
    /// Well-formed: the record carries its own kind's tag, its OUI has
    /// exactly three bytes, and the payload length fits the length field.
    pub open spec fn inv(self) -> bool {
        &&& self.tlv_type == TlvType::OrganizationallySpecific
        &&& self.oui@.len() == 3
        &&& envelope::len_representable(4 + self.value@.len())
    }

    /// The payload bytes this record encodes to: OUI, subtype, then value.
    pub open spec fn spec_payload(self) -> Seq<u8> {
        self.oui@ + seq![self.subtype] + self.value@
    }

    /// The full wire bytes: the two-octet envelope header, then the payload.
    pub open spec fn spec_bytes(self) -> Seq<u8> {
        envelope::spec_header(
            TlvType::OrganizationallySpecific.spec_value(),
            self.spec_payload().len(),
        ) + self.spec_payload()
    }

    /// True of exactly the buffers the decoder accepts: this record kind's
    /// tag, the whole declared payload present, and a payload of at least
    /// four octets for the OUI and the subtype.
    pub open spec fn spec_decode_ok(bytes: Seq<u8>) -> bool {
        &&& bytes.len() >= 2
        &&& envelope::spec_tag(bytes[0]) == TlvType::OrganizationallySpecific.spec_value()
        &&& bytes.len() >= 2 + envelope::spec_decode_length(bytes[0], bytes[1])
        &&& envelope::spec_decode_length(bytes[0], bytes[1]) >= 4
    }

    /// The error the decoder reports on a buffer it rejects.
    pub open spec fn spec_decode_err(bytes: Seq<u8>) -> TlvError {
        if bytes.len() >= 2 && envelope::spec_tag(bytes[0])
            != TlvType::OrganizationallySpecific.spec_value() {
            TlvError::TypeMismatch
        } else {
            TlvError::TruncatedBuffer
        }
    }

    /// Constructor: accepts exactly a three-byte OUI and a value short enough
    /// for the length field to carry the payload.
    pub fn new(oui: Vec<u8>, subtype: u8, value: Vec<u8>) -> (r: Result<
        OrganizationallySpecificTLV,
        TlvError,
    >)
        ensures
            r.is_ok() <==> oui@.len() == 3 && envelope::len_representable(4 + value@.len()),
            r matches Ok(rec) ==> {
                &&& rec.inv()
                &&& rec.oui@ == oui@
                &&& rec.subtype == subtype
                &&& rec.value@ == value@
            },
            r matches Err(e) ==> e == if oui@.len() != 3 {
                TlvError::OuiLengthViolation
            } else {
                TlvError::LengthOverflow
            },
    {
        if oui.len() != 3 {
            return Err(TlvError::OuiLengthViolation);
        }
        if !(value.len() <= 251 || (508 <= value.len() && value.len() <= 763)) {
            return Err(TlvError::LengthOverflow);
        }
        Ok(
            OrganizationallySpecificTLV {
                tlv_type: TlvType::OrganizationallySpecific,
                oui,
                subtype,
                value,
            },
        )
    }

    /// Decodes one record from the buffer; trailing bytes beyond the declared
    /// payload are ignored.  On success the OUI is the first three payload
    /// octets, the subtype the fourth, the value the rest, and the record
    /// re-encodes to the consumed prefix of the buffer.
    pub fn new_from_bytes(bytes: &[u8]) -> (r: Result<OrganizationallySpecificTLV, TlvError>)
        ensures
            r.is_ok() <==> Self::spec_decode_ok(bytes@),
            r matches Ok(rec) ==> ({
                let len = envelope::spec_decode_length(bytes@[0], bytes@[1]) as int;
                &&& rec.inv()
                &&& rec.oui@ == bytes@.subrange(2, 5)
                &&& rec.subtype == bytes@[5]
                &&& rec.value@ == bytes@.subrange(6, 2 + len)
                &&& rec.spec_bytes() == bytes@.subrange(0, 2 + len)
            }),
            r matches Err(e) ==> e == Self::spec_decode_err(bytes@),
    {
        if bytes.len() < 2 {
            return Err(TlvError::TruncatedBuffer);
        }
        let type_field = envelope::decode_tag(bytes[0]);
        if type_field != 127 {
            return Err(TlvError::TypeMismatch);
        }
        let length = envelope::decode_length(bytes[0], bytes[1]);
        let length = length as usize;
        if bytes.len() < 2 + length {
            return Err(TlvError::TruncatedBuffer);
        }
        if length < 4 {
            return Err(TlvError::TruncatedBuffer);
        }
        let oui = slice_to_vec(&bytes[2..5]);
        let subtype = bytes[5];
        let value = slice_to_vec(&bytes[6..2 + length]);
        let rec = OrganizationallySpecificTLV {
            tlv_type: TlvType::OrganizationallySpecific,
            oui,
            subtype,
            value,
        };
        proof {
            let len = envelope::spec_decode_length(bytes@[0], bytes@[1]) as int;
            envelope::lemma_header_injective(bytes@[0], bytes@[1]);
            assert(rec.spec_payload() =~= bytes@.subrange(2, 2 + len));
            assert(rec.spec_bytes() =~= bytes@.subrange(0, 2 + len));
        }
        Ok(rec)
    }

    /// The payload length of this record: four plus the value's length.
    pub fn len(&self) -> (n: usize)
        requires
            self.inv(),
        ensures
            n == self.spec_payload().len(),
    {
        4 + self.value.len()
    }

    /// The wire bytes of this record.
    pub fn bytes(&self) -> (r: Vec<u8>)
        requires
            self.inv(),
        ensures
            r@ == self.spec_bytes(),
    {
        let length_field = 4 + self.value.len();
        let mut result: Vec<u8> = Vec::new();
        result.push(if length_field >= 512 {
            255
        } else {
            254
        });
        result.push((length_field % 256) as u8);
        result.extend_from_slice(self.oui.as_slice());
        result.push(self.subtype);
        result.extend_from_slice(self.value.as_slice());
        proof {
            assert(result@ =~= self.spec_bytes());
        }
        result
    }

    /// Law: a well-formed record's wire bytes are accepted by its own decoder.
    pub proof fn lemma_encode_accepted(t: OrganizationallySpecificTLV)
        requires
            t.inv(),
        ensures
            Self::spec_decode_ok(t.spec_bytes()),
    {
        let plen = t.spec_payload().len();
        assert(plen == 4 + t.value@.len());
        envelope::lemma_header_round_trip(TlvType::OrganizationallySpecific.spec_value(), plen);
        assert(t.spec_bytes()[0] == envelope::spec_type_byte(
            TlvType::OrganizationallySpecific.spec_value(),
            plen,
        ));
        assert(t.spec_bytes()[1] == envelope::spec_length_byte(plen));
    }

    /// Law: the encoding determines the record; two well-formed records with
    /// the same wire bytes carry the same tag, OUI, subtype and value.
    pub proof fn lemma_bytes_injective(a: OrganizationallySpecificTLV, b: OrganizationallySpecificTLV)
        requires
            a.inv(),
            b.inv(),
            a.spec_bytes() == b.spec_bytes(),
        ensures
            a.tlv_type == b.tlv_type,
            a.oui@ == b.oui@,
            a.subtype == b.subtype,
            a.value@ == b.value@,
    {
        let pa = a.spec_payload();
        let pb = b.spec_payload();
        assert(pa =~= a.spec_bytes().subrange(2, a.spec_bytes().len() as int));
        assert(pb =~= b.spec_bytes().subrange(2, b.spec_bytes().len() as int));
        assert(a.oui@ =~= pa.subrange(0, 3));
        assert(b.oui@ =~= pb.subrange(0, 3));
        assert(a.subtype == pa[3] && b.subtype == pb[3]);
        assert(a.value@ =~= pa.subrange(4, pa.len() as int));
        assert(b.value@ =~= pb.subrange(4, pb.len() as int));
    }

    /// The canonical textual rendering of this record: the OUI and the value
    /// as uppercase hexadecimal without per-byte padding, the subtype decimal.
    pub open spec fn spec_render(self) -> Seq<char> {
        "OrganizationallySpecificTLV(\""@ + render::spec_hex_unpadded(self.oui@) + "\", "@
            + render::spec_dec(self.subtype as nat) + ", \""@ + render::spec_hex_unpadded(
            self.value@,
        ) + "\")"@
    }

    /// Renders the record in its canonical textual form.
    pub fn render(&self) -> (s: String)
        ensures
            s@ == self.spec_render(),
    {
        let mut s = String::from_str("OrganizationallySpecificTLV(\"");
        render::append_hex_unpadded(&mut s, &self.oui);
        s.append("\", ");
        render::append_dec_u32(&mut s, self.subtype as u32);
        s.append(", \"");
        render::append_hex_unpadded(&mut s, &self.value);
        s.append("\")");
        proof {
            assert(s@ =~= self.spec_render());
        }
        s
    }
}

} // verus!
