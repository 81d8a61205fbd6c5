//! End of LLDPDU TLV.
//!
//! An optional record marking the end of an LLDP data unit.  It must be the
//! last record in an LLDPDU and can only be included once.  Its payload is
//! always empty.

use vstd::prelude::*;
use vstd::string::StringExecFns;

use crate::envelope;
use crate::error::TlvError;
use crate::tlv::TlvType;

verus! {

/// End of LLDPDU TLV: tag 0, payload always empty.
#[derive(Debug, Clone, PartialEq)]
pub struct EndOfLLDPDUTLV {
    /// The type of the TLV.
    pub tlv_type: TlvType,
}

impl EndOfLLDPDUTLV {
    /// Well-formed: the record carries its own kind's tag.
    pub open spec fn inv(self) -> bool {
        self.tlv_type == TlvType::EndOfLLDPDU
    }

    /// The payload bytes this record encodes to: none.
    pub open spec fn spec_payload(self) -> Seq<u8> {
        seq![]
    }

    /// The full wire bytes: the two-octet envelope header, then the payload.
    pub open spec fn spec_bytes(self) -> Seq<u8> {
        envelope::spec_header(TlvType::EndOfLLDPDU.spec_value(), self.spec_payload().len())
            + self.spec_payload()
    }

    /// True of exactly the buffers the decoder accepts: an end-of-LLDPDU tag
    /// and a declared payload length of zero.
    pub open spec fn spec_decode_ok(bytes: Seq<u8>) -> bool {
        &&& bytes.len() >= 2
        &&& envelope::spec_tag(bytes[0]) == TlvType::EndOfLLDPDU.spec_value()
        &&& envelope::spec_decode_length(bytes[0], bytes[1]) == 0
    }

    /// The error the decoder reports on a buffer it rejects.
    pub open spec fn spec_decode_err(bytes: Seq<u8>) -> TlvError {
        if bytes.len() < 2 {
            TlvError::TruncatedBuffer
        } else if envelope::spec_tag(bytes[0]) != TlvType::EndOfLLDPDU.spec_value() {
            TlvError::TypeMismatch
        } else {
            TlvError::FixedLengthViolation
        }
    }

    /// Constructor.
    pub fn new() -> (r: EndOfLLDPDUTLV)
        ensures
            r.inv(),
    {
        EndOfLLDPDUTLV { tlv_type: TlvType::EndOfLLDPDU }
    }

    /// Decodes one record from the buffer.  Succeeds exactly on buffers that
    /// carry this record kind's tag and an empty declared payload; the record
    /// then re-encodes to the consumed prefix of the buffer.
    pub fn new_from_bytes(bytes: &[u8]) -> (r: Result<EndOfLLDPDUTLV, TlvError>)
        ensures
            r.is_ok() <==> Self::spec_decode_ok(bytes@),
            r matches Ok(rec) ==> rec.inv() && rec.spec_bytes() == bytes@.subrange(0, 2),
            r matches Err(e) ==> e == Self::spec_decode_err(bytes@),
    {
        if bytes.len() < 2 {
            return Err(TlvError::TruncatedBuffer);
        }
        let type_field = envelope::decode_tag(bytes[0]);
        if type_field != 0 {
            return Err(TlvError::TypeMismatch);
        }
        let length = envelope::decode_length(bytes[0], bytes[1]);
        if length != 0 {
            return Err(TlvError::FixedLengthViolation);
        }
        let rec = EndOfLLDPDUTLV::new();
        proof {
            envelope::lemma_header_injective(bytes@[0], bytes@[1]);
            assert(rec.spec_bytes() =~= bytes@.subrange(0, 2));
        }
        Ok(rec)
    }

    /// The payload length of this record: always zero.
    pub fn len(&self) -> (n: usize)
        ensures
            n == self.spec_payload().len(),
    {
        0
    }

    /// The wire bytes of this record.
    pub fn bytes(&self) -> (r: Vec<u8>)
        ensures
            r@ == self.spec_bytes(),
    {
        let mut result: Vec<u8> = Vec::new();
        result.push(0);
        result.push(0);
        proof {
            assert(result@ =~= self.spec_bytes());
        }
        result
    }

    /// Law: a well-formed record's wire bytes are accepted by its own decoder.
    pub proof fn lemma_encode_accepted(t: EndOfLLDPDUTLV)
        requires
            t.inv(),
        ensures
            Self::spec_decode_ok(t.spec_bytes()),
    {
        envelope::lemma_header_round_trip(TlvType::EndOfLLDPDU.spec_value(), 0);
        assert(t.spec_bytes()[0] == envelope::spec_type_byte(TlvType::EndOfLLDPDU.spec_value(), 0));
        assert(t.spec_bytes()[1] == envelope::spec_length_byte(0));
    }

    /// Law: the encoding determines the record; two well-formed records with
    /// the same wire bytes are equal.
    pub proof fn lemma_bytes_injective(a: EndOfLLDPDUTLV, b: EndOfLLDPDUTLV)
        requires
            a.inv(),
            b.inv(),
            a.spec_bytes() == b.spec_bytes(),
        ensures
            a == b,
    {
    }

    /// The canonical textual rendering of this record.
    pub open spec fn spec_render(self) -> Seq<char> {
        "EndOfLLDPDUTLV"@
    }

    /// Renders the record in its canonical textual form.
    pub fn render(&self) -> (s: String)
        ensures
            s@ == self.spec_render(),
    {
        String::from_str("EndOfLLDPDUTLV")
    }
}

} // verus!
