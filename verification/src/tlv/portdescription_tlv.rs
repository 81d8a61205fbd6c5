//! Port Description TLV.
//!
//! Advertises the device's port description.  The payload is exactly the
//! UTF-8 encoding of the text; its byte length is carried by the envelope
//! length field and may be at most 255 for this record kind.

use vstd::prelude::*;
use vstd::slice::slice_to_vec;
use vstd::string::StringExecFns;
use vstd::utf8::{decode_utf8, encode_utf8, encode_utf8_decode_utf8, encode_utf8_valid_utf8,
    valid_utf8};

use crate::envelope;
use crate::error::TlvError;
use crate::text;
use crate::tlv::TlvType;

verus! {

/// Port Description TLV: tag 4, payload the UTF-8 encoding of the text.
#[derive(Debug, Clone, PartialEq)]
pub struct PortDescriptionTLV {
    /// The type of the TLV.
    pub tlv_type: TlvType,
    /// The port description.
    pub value: String,
}

impl PortDescriptionTLV {
    /// Well-formed: the record carries its own kind's tag and its text
    /// encodes to at most 255 bytes.
    pub open spec fn inv(self) -> bool {
        &&& self.tlv_type == TlvType::PortDescription
        &&& encode_utf8(self.value@).len() <= 255
    }

    /// The payload bytes this record encodes to: the UTF-8 bytes of the text.
    pub open spec fn spec_payload(self) -> Seq<u8> {
        encode_utf8(self.value@)
    }

    /// The full wire bytes: the two-octet envelope header, then the payload.
    pub open spec fn spec_bytes(self) -> Seq<u8> {
        envelope::spec_header(TlvType::PortDescription.spec_value(), self.spec_payload().len())
            + self.spec_payload()
    }

    /// True of exactly the buffers the decoder accepts: this record kind's
    /// tag, an unextended declared length, the whole payload present, and the
    /// payload valid UTF-8.
    pub open spec fn spec_decode_ok(bytes: Seq<u8>) -> bool {
        &&& bytes.len() >= 2
        &&& envelope::spec_tag(bytes[0]) == TlvType::PortDescription.spec_value()
        &&& envelope::spec_decode_length(bytes[0], bytes[1]) < 512
        &&& bytes.len() >= 2 + envelope::spec_decode_length(bytes[0], bytes[1])
        &&& valid_utf8(
            bytes.subrange(2, 2 + envelope::spec_decode_length(bytes[0], bytes[1]) as int),
        )
    }

    /// The error the decoder reports on a buffer it rejects.
    pub open spec fn spec_decode_err(bytes: Seq<u8>) -> TlvError {
        if bytes.len() < 2 {
            TlvError::TruncatedBuffer
        } else if envelope::spec_tag(bytes[0]) != TlvType::PortDescription.spec_value() {
            TlvError::TypeMismatch
        } else if envelope::spec_decode_length(bytes[0], bytes[1]) >= 512 {
            TlvError::LengthOverflow
        } else if bytes.len() < 2 + envelope::spec_decode_length(bytes[0], bytes[1]) {
            TlvError::TruncatedBuffer
        } else {
            TlvError::MalformedText
        }
    }

    /// Constructor: accepts exactly the texts whose UTF-8 encoding fits the
    /// length field as this record kind uses it.
    pub fn new(value: String) -> (r: Result<PortDescriptionTLV, TlvError>)
        ensures
            r.is_ok() <==> encode_utf8(value@).len() <= 255,
            r matches Ok(rec) ==> rec.inv() && rec.value@ == value@,
            r matches Err(e) ==> e == TlvError::LengthOverflow,
    {
        if value.as_str().as_bytes().len() <= 255 {
            Ok(PortDescriptionTLV { tlv_type: TlvType::PortDescription, value })
        } else {
            Err(TlvError::LengthOverflow)
        }
    }

    /// Decodes one record from the buffer; trailing bytes beyond the declared
    /// payload are ignored.  On success the text is the UTF-8 decoding of the
    /// payload, and the record re-encodes to the consumed prefix.
    pub fn new_from_bytes(bytes: &[u8]) -> (r: Result<PortDescriptionTLV, TlvError>)
        ensures
            r.is_ok() <==> Self::spec_decode_ok(bytes@),
            r matches Ok(rec) ==> ({
                let len = envelope::spec_decode_length(bytes@[0], bytes@[1]) as int;
                &&& rec.inv()
                &&& rec.value@ == decode_utf8(bytes@.subrange(2, 2 + len))
                &&& rec.spec_bytes() == bytes@.subrange(0, 2 + len)
            }),
            r matches Err(e) ==> e == Self::spec_decode_err(bytes@),
    {
        if bytes.len() < 2 {
            return Err(TlvError::TruncatedBuffer);
        }
        let type_field = envelope::decode_tag(bytes[0]);
        if type_field != 4 {
            return Err(TlvError::TypeMismatch);
        }
        let length = envelope::decode_length(bytes[0], bytes[1]);
        if length >= 512 {
            return Err(TlvError::LengthOverflow);
        }
        let length = length as usize;
        if bytes.len() < 2 + length {
            return Err(TlvError::TruncatedBuffer);
        }
        let payload = slice_to_vec(&bytes[2..2 + length]);
        match text::string_from_utf8(payload) {
            Some(value) => {
                let rec = PortDescriptionTLV { tlv_type: TlvType::PortDescription, value };
                proof {
                    let len = envelope::spec_decode_length(bytes@[0], bytes@[1]) as int;
                    encode_utf8_valid_utf8(rec.value@);
                    encode_utf8_decode_utf8(rec.value@);
                    envelope::lemma_header_injective(bytes@[0], bytes@[1]);
                    assert(rec.spec_bytes() =~= bytes@.subrange(0, 2 + len));
                }
                Ok(rec)
            },
            None => Err(TlvError::MalformedText),
        }
    }

    /// The payload length of this record: the byte length of the UTF-8 text.
    pub fn len(&self) -> (n: usize)
        ensures
            n == self.spec_payload().len(),
    {
        self.value.as_str().as_bytes().len()
    }

    /// The wire bytes of this record.
    pub fn bytes(&self) -> (r: Vec<u8>)
        ensures
            r@ == self.spec_bytes(),
    {
        let value_bytes: Vec<u8> = self.value.as_str().as_bytes_vec();
        let n = value_bytes.len();
        let mut result: Vec<u8> = Vec::new();
        result.push(if n >= 512 {
            9
        } else {
            8
        });
        result.push((n % 256) as u8);
        result.extend_from_slice(value_bytes.as_slice());
        proof {
            assert(result@ =~= self.spec_bytes());
        }
        result
    }

    /// Law: a well-formed record's wire bytes are accepted by its own decoder.
    pub proof fn lemma_encode_accepted(t: PortDescriptionTLV)
        requires
            t.inv(),
        ensures
            Self::spec_decode_ok(t.spec_bytes()),
    {
        let plen = t.spec_payload().len();
        envelope::lemma_header_round_trip(TlvType::PortDescription.spec_value(), plen);
        assert(t.spec_bytes()[0] == envelope::spec_type_byte(
            TlvType::PortDescription.spec_value(),
            plen,
        ));
        assert(t.spec_bytes()[1] == envelope::spec_length_byte(plen));
        encode_utf8_valid_utf8(t.value@);
        assert(t.spec_bytes().subrange(2, 2 + plen as int) =~= t.spec_payload());
    }

    /// Law: the encoding determines the record; two well-formed records with
    /// the same wire bytes carry the same tag and the same text.
    pub proof fn lemma_bytes_injective(a: PortDescriptionTLV, b: PortDescriptionTLV)
        requires
            a.inv(),
            b.inv(),
            a.spec_bytes() == b.spec_bytes(),
        ensures
            a.tlv_type == b.tlv_type,
            a.value@ == b.value@,
    {
        assert(a.spec_payload() =~= a.spec_bytes().subrange(2, a.spec_bytes().len() as int));
        assert(b.spec_payload() =~= b.spec_bytes().subrange(2, b.spec_bytes().len() as int));
        encode_utf8_decode_utf8(a.value@);
        encode_utf8_decode_utf8(b.value@);
    }

    /// The canonical textual rendering of this record.
    pub open spec fn spec_render(self) -> Seq<char> {
        "PortDescriptionTLV(\""@ + self.value@ + "\")"@
    }

    /// Renders the record in its canonical textual form.
    pub fn render(&self) -> (s: String)
        ensures
            s@ == self.spec_render(),
    {
        let mut s = String::from_str("PortDescriptionTLV(\"");
        s.append(self.value.as_str());
        s.append("\")");
        proof {
            assert(s@ =~= self.spec_render());
        }
        s
    }
}

} // verus!
