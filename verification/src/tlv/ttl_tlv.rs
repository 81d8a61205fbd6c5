//! Time To Live TLV.
//!
//! Indicates the number of seconds for which the recipient LLDP agent is to
//! regard the sender's information as valid.  The payload is exactly two
//! octets: the seconds count, big-endian.

use vstd::prelude::*;
use vstd::string::StringExecFns;

use crate::envelope;
use crate::error::TlvError;
use crate::render;
use crate::tlv::TlvType;

verus! {

/// Time To Live TLV: tag 3, payload always two octets.
#[derive(Debug, Clone, PartialEq)]
pub struct TtlTLV {
    /// The type of the TLV.
    pub tlv_type: TlvType,
    /// The time to live in seconds.
    pub value: u16,
}

impl TtlTLV {
    /// Well-formed: the record carries its own kind's tag.
    pub open spec fn inv(self) -> bool {
        self.tlv_type == TlvType::Ttl
    }

    /// The payload bytes this record encodes to: the seconds count, big-endian.
    pub open spec fn spec_payload(self) -> Seq<u8> {
        seq![(self.value / 256) as u8, (self.value % 256) as u8]
    }

    /// The full wire bytes: the two-octet envelope header, then the payload.
    pub open spec fn spec_bytes(self) -> Seq<u8> {
        envelope::spec_header(TlvType::Ttl.spec_value(), self.spec_payload().len())
            + self.spec_payload()
    }

    /// True of exactly the buffers the decoder accepts: a time-to-live tag, a
    /// declared payload length of two, and both payload octets present.
    pub open spec fn spec_decode_ok(bytes: Seq<u8>) -> bool {
        &&& bytes.len() >= 2
        &&& envelope::spec_tag(bytes[0]) == TlvType::Ttl.spec_value()
        &&& envelope::spec_decode_length(bytes[0], bytes[1]) == 2
        &&& bytes.len() >= 4
    }

    /// The error the decoder reports on a buffer it rejects.
    pub open spec fn spec_decode_err(bytes: Seq<u8>) -> TlvError {
        if bytes.len() < 2 {
            TlvError::TruncatedBuffer
        } else if envelope::spec_tag(bytes[0]) != TlvType::Ttl.spec_value() {
            TlvError::TypeMismatch
        } else if envelope::spec_decode_length(bytes[0], bytes[1]) != 2 {
            TlvError::FixedLengthViolation
        } else {
            TlvError::TruncatedBuffer
        }
    }

    /// Constructor.
    pub fn new(ttl: u16) -> (r: TtlTLV)
        ensures
            r.inv(),
            r.value == ttl,
    {
        TtlTLV { tlv_type: TlvType::Ttl, value: ttl }
    }

    /// Decodes one record from the buffer; trailing bytes beyond the two
    /// payload octets are ignored.  Succeeds exactly on buffers with this
    /// record kind's tag and a declared payload length of two; the seconds
    /// count is read big-endian from the payload, and the record re-encodes
    /// to the consumed prefix of the buffer.
    pub fn new_from_bytes(bytes: &[u8]) -> (r: Result<TtlTLV, TlvError>)
        ensures
            r.is_ok() <==> Self::spec_decode_ok(bytes@),
            r matches Ok(rec) ==> {
                &&& rec.inv()
                &&& rec.value == bytes@[2] * 256 + bytes@[3]
                &&& rec.spec_bytes() == bytes@.subrange(0, 4)
            },
            r matches Err(e) ==> e == Self::spec_decode_err(bytes@),
    {
        if bytes.len() < 2 {
            return Err(TlvError::TruncatedBuffer);
        }
        let type_field = envelope::decode_tag(bytes[0]);
        if type_field != 3 {
            return Err(TlvError::TypeMismatch);
        }
        let length = envelope::decode_length(bytes[0], bytes[1]);
        if length != 2 {
            return Err(TlvError::FixedLengthViolation);
        }
        if bytes.len() < 4 {
            return Err(TlvError::TruncatedBuffer);
        }
        let value = (bytes[2] as u16) * 256 + (bytes[3] as u16);
        let rec = TtlTLV::new(value);
        proof {
            envelope::lemma_header_injective(bytes@[0], bytes@[1]);
            assert(rec.value / 256 == bytes@[2] && rec.value % 256 == bytes@[3])
                by (nonlinear_arith)
                requires
                    rec.value == bytes@[2] * 256 + bytes@[3],
                    bytes@[2] < 256,
                    bytes@[3] < 256,
            ;
            assert(rec.spec_bytes() =~= bytes@.subrange(0, 4));
        }
        Ok(rec)
    }

    /// The payload length of this record: always two.
    pub fn len(&self) -> (n: usize)
        ensures
            n == self.spec_payload().len(),
    {
        2
    }

    /// The wire bytes of this record.
    pub fn bytes(&self) -> (r: Vec<u8>)
        ensures
            r@ == self.spec_bytes(),
    {
        let mut result: Vec<u8> = Vec::new();
        result.push(6);
        result.push(2);
        result.push((self.value / 256) as u8);
        result.push((self.value % 256) as u8);
        proof {
            assert(result@ =~= self.spec_bytes());
        }
        result
    }

    /// Law: a well-formed record's wire bytes are accepted by its own decoder.
    pub proof fn lemma_encode_accepted(t: TtlTLV)
        requires
            t.inv(),
        ensures
            Self::spec_decode_ok(t.spec_bytes()),
    {
        envelope::lemma_header_round_trip(TlvType::Ttl.spec_value(), 2);
        assert(t.spec_bytes().len() == 4);
        assert(t.spec_bytes()[0] == envelope::spec_type_byte(TlvType::Ttl.spec_value(), 2));
        assert(t.spec_bytes()[1] == envelope::spec_length_byte(2));
    }

    /// Law: the encoding determines the record; two well-formed records with
    /// the same wire bytes are equal.
    pub proof fn lemma_bytes_injective(a: TtlTLV, b: TtlTLV)
        requires
            a.inv(),
            b.inv(),
            a.spec_bytes() == b.spec_bytes(),
        ensures
            a == b,
    {
        assert(a.spec_bytes()[2] == (a.value / 256) as u8 && a.spec_bytes()[3] == (a.value
            % 256) as u8);
        assert(b.spec_bytes()[2] == (b.value / 256) as u8 && b.spec_bytes()[3] == (b.value
            % 256) as u8);
        assert(a.value == 256 * (a.value / 256) + a.value % 256);
        assert(b.value == 256 * (b.value / 256) + b.value % 256);
    }

    /// The canonical textual rendering of this record.
    pub open spec fn spec_render(self) -> Seq<char> {
        "TtlTLV("@ + render::spec_dec(self.value as nat) + ")"@
    }

    /// Renders the record in its canonical textual form.
    pub fn render(&self) -> (s: String)
        ensures
            s@ == self.spec_render(),
    {
        let mut s = String::from_str("TtlTLV(");
        render::append_dec_u32(&mut s, self.value as u32);
        s.append(")");
        proof {
            assert(s@ =~= self.spec_render());
        }
        s
    }
}

} // verus!
