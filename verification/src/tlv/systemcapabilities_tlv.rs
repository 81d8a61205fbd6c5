//! System Capabilities TLV.
//!
//! Identifies the primary functions of the system and whether they are
//! enabled.  The payload is exactly four octets: the supported-capabilities
//! bitmap, then the enabled-capabilities bitmap, both big-endian.  A bit may
//! only be enabled when it is also supported.

use vstd::prelude::*;
use vstd::string::StringExecFns;

use crate::envelope;
use crate::error::TlvError;
use crate::render;
use crate::tlv::TlvType;

verus! {

/// Capability bit values.
///
/// Each name stands for one bit of the 16-bit capability bitmaps; a bitmap is
/// built by or-ing the values of the capabilities it contains.
#[derive(Debug, Clone, Copy, PartialEq, Eq, Structural)]
pub enum SystemCapability {
    Other,
    Repeater,
    Bridge,
    WlanAP,
    Router,
    Telephone,
    DocsisDevice,
    StationOnly,
    CVlanComponent,
    SVlanComponent,
    TwoPortMacRelay,
}

impl SystemCapability {
    /// The bitmap value of this capability: a single set bit.
    pub open spec fn spec_value(self) -> u16 {
        match self {
            SystemCapability::Other => 1,
            SystemCapability::Repeater => 2,
            SystemCapability::Bridge => 4,
            SystemCapability::WlanAP => 8,
            SystemCapability::Router => 16,
            SystemCapability::Telephone => 32,
            SystemCapability::DocsisDevice => 64,
            SystemCapability::StationOnly => 128,
            SystemCapability::CVlanComponent => 256,
            SystemCapability::SVlanComponent => 512,
            SystemCapability::TwoPortMacRelay => 1024,
        }
    }

    /// The bitmap value of this capability: a single set bit.
    pub fn value(self) -> (v: u16)
        ensures
            v == self.spec_value(),
    {
        match self {
            SystemCapability::Other => 1,
            SystemCapability::Repeater => 2,
            SystemCapability::Bridge => 4,
            SystemCapability::WlanAP => 8,
            SystemCapability::Router => 16,
            SystemCapability::Telephone => 32,
            SystemCapability::DocsisDevice => 64,
            SystemCapability::StationOnly => 128,
            SystemCapability::CVlanComponent => 256,
            SystemCapability::SVlanComponent => 512,
            SystemCapability::TwoPortMacRelay => 1024,
        }
    }

    /// True of exactly the eleven single-bit values that name a capability.
    pub open spec fn spec_defined(v: u16) -> bool {
        exists|c: SystemCapability| c.spec_value() == v
    }

    /// Maps a single-bit bitmap value to its capability; fails on every
    /// other value.
    pub fn try_from(v: u16) -> (r: Result<SystemCapability, ()>)
        ensures
            r.is_ok() <==> SystemCapability::spec_defined(v),
            r matches Ok(c) ==> c.spec_value() == v,
    {
        let r: Result<SystemCapability, ()> = match v {
            1 => Ok(SystemCapability::Other),
            2 => Ok(SystemCapability::Repeater),
            4 => Ok(SystemCapability::Bridge),
            8 => Ok(SystemCapability::WlanAP),
            16 => Ok(SystemCapability::Router),
            32 => Ok(SystemCapability::Telephone),
            64 => Ok(SystemCapability::DocsisDevice),
            128 => Ok(SystemCapability::StationOnly),
            256 => Ok(SystemCapability::CVlanComponent),
            512 => Ok(SystemCapability::SVlanComponent),
            1024 => Ok(SystemCapability::TwoPortMacRelay),
            _ => Err(()),
        };
        proof {
            if r is Ok {
                assert(SystemCapability::spec_defined(v)) by {
                    assert((r matches Ok(c) ==> c.spec_value() == v) && r is Ok);
                }
            } else {
                assert(!SystemCapability::spec_defined(v)) by {
                    assert(forall|c: SystemCapability| c.spec_value() != v) by {
                        assert(SystemCapability::Other.spec_value() != v);
                    }
                }
            }
        }
        r
    }
}

/// System Capabilities TLV: tag 7, payload always four octets holding the
/// supported and enabled capability bitmaps.
#[derive(Debug, Clone, PartialEq)]
pub struct SystemCapabilitiesTLV {
    /// The type of the TLV.
    pub tlv_type: TlvType,
    /// The combined bitmaps: supported in the high 16 bits, enabled low.
    pub value: u32,
}

impl SystemCapabilitiesTLV {
    /// The supported-capabilities bitmap: the high 16 bits of the combined field.
    pub open spec fn spec_supported(self) -> u16 {
        (self.value / 0x10000) as u16
    }

    /// The enabled-capabilities bitmap: the low 16 bits of the combined field.
    pub open spec fn spec_enabled(self) -> u16 {
        (self.value % 0x10000) as u16
    }

    /// Well-formed: the record carries its own kind's tag, and every enabled
    /// bit is also supported.
    pub open spec fn inv(self) -> bool {
        &&& self.tlv_type == TlvType::SystemCapabilities
        &&& self.spec_enabled() & !self.spec_supported() == 0
    }

    /// The payload bytes this record encodes to: both bitmaps, big-endian.
    pub open spec fn spec_payload(self) -> Seq<u8> {
        seq![
            (self.spec_supported() / 256) as u8,
            (self.spec_supported() % 256) as u8,
            (self.spec_enabled() / 256) as u8,
            (self.spec_enabled() % 256) as u8,
        ]
    }

    /// The full wire bytes: the two-octet envelope header, then the payload.
    pub open spec fn spec_bytes(self) -> Seq<u8> {
        envelope::spec_header(TlvType::SystemCapabilities.spec_value(), self.spec_payload().len())
            + self.spec_payload()
    }

    /// The supported bitmap carried by a buffer's payload octets.
    pub open spec fn spec_supported_of(bytes: Seq<u8>) -> u16
        recommends
            bytes.len() >= 6,
    {
        (bytes[2] * 256 + bytes[3]) as u16
    }

    /// The enabled bitmap carried by a buffer's payload octets.
    pub open spec fn spec_enabled_of(bytes: Seq<u8>) -> u16
        recommends
            bytes.len() >= 6,
    {
        (bytes[4] * 256 + bytes[5]) as u16
    }

    /// True of exactly the buffers the decoder accepts: this record kind's
    /// tag, a declared payload length of four, all four payload octets
    /// present, and every enabled bit also supported.
    pub open spec fn spec_decode_ok(bytes: Seq<u8>) -> bool {
        &&& bytes.len() >= 2
        &&& envelope::spec_tag(bytes[0]) == TlvType::SystemCapabilities.spec_value()
        &&& envelope::spec_decode_length(bytes[0], bytes[1]) == 4
        &&& bytes.len() >= 6
        &&& Self::spec_enabled_of(bytes) & !Self::spec_supported_of(bytes) == 0
    }

    /// The error the decoder reports on a buffer it rejects.
    pub open spec fn spec_decode_err(bytes: Seq<u8>) -> TlvError {
        if bytes.len() < 2 {
            TlvError::TruncatedBuffer
        } else if envelope::spec_tag(bytes[0]) != TlvType::SystemCapabilities.spec_value() {
            TlvError::TypeMismatch
        } else if envelope::spec_decode_length(bytes[0], bytes[1]) != 4 {
            TlvError::FixedLengthViolation
        } else if bytes.len() < 6 {
            TlvError::TruncatedBuffer
        } else {
            TlvError::CapabilityInvariantViolation
        }
    }

    /// Constructor: accepts exactly the bitmap pairs in which every enabled
    /// capability is also supported.
    pub fn new(supported: u16, enabled: u16) -> (r: Result<SystemCapabilitiesTLV, TlvError>)
        ensures
            r.is_ok() <==> enabled & !supported == 0,
            r matches Ok(rec) ==> {
                &&& rec.inv()
                &&& rec.spec_supported() == supported
                &&& rec.spec_enabled() == enabled
                &&& rec.value == supported * 0x10000 + enabled
            },
            r matches Err(e) ==> e == TlvError::CapabilityInvariantViolation,
    {
        if enabled & !supported != 0 {
            return Err(TlvError::CapabilityInvariantViolation);
        }
        let value: u32 = (supported as u32) * 0x10000 + (enabled as u32);
        proof {
            assert(value / 0x10000 == supported && value % 0x10000 == enabled)
                by (nonlinear_arith)
                requires
                    value == supported * 0x10000 + enabled,
                    supported < 0x10000,
                    enabled < 0x10000,
            ;
        }
        Ok(SystemCapabilitiesTLV { tlv_type: TlvType::SystemCapabilities, value })
    }

    /// Decodes one record from the buffer; trailing bytes beyond the four
    /// payload octets are ignored.  Succeeds exactly on buffers with this
    /// record kind's tag, a declared payload length of four, and bitmaps in
    /// which every enabled bit is also supported; the record then re-encodes
    /// to the consumed prefix of the buffer.
    pub fn new_from_bytes(bytes: &[u8]) -> (r: Result<SystemCapabilitiesTLV, TlvError>)
        ensures
            r.is_ok() <==> Self::spec_decode_ok(bytes@),
            r matches Ok(rec) ==> {
                &&& rec.inv()
                &&& rec.spec_supported() == Self::spec_supported_of(bytes@)
                &&& rec.spec_enabled() == Self::spec_enabled_of(bytes@)
                &&& rec.spec_bytes() == bytes@.subrange(0, 6)
            },
            r matches Err(e) ==> e == Self::spec_decode_err(bytes@),
    {
        if bytes.len() < 2 {
            return Err(TlvError::TruncatedBuffer);
        }
        let type_field = envelope::decode_tag(bytes[0]);
        if type_field != 7 {
            return Err(TlvError::TypeMismatch);
        }
        let length = envelope::decode_length(bytes[0], bytes[1]);
        if length != 4 {
            return Err(TlvError::FixedLengthViolation);
        }
        if bytes.len() < 6 {
            return Err(TlvError::TruncatedBuffer);
        }
        let supported = (bytes[2] as u16) * 256 + (bytes[3] as u16);
        let enabled = (bytes[4] as u16) * 256 + (bytes[5] as u16);
        match SystemCapabilitiesTLV::new(supported, enabled) {
            Ok(rec) => {
                proof {
                    envelope::lemma_header_injective(bytes@[0], bytes@[1]);
                    assert(supported / 256 == bytes@[2] && supported % 256 == bytes@[3]
                        && enabled / 256 == bytes@[4] && enabled % 256 == bytes@[5])
                        by (nonlinear_arith)
                        requires
                            supported == bytes@[2] * 256 + bytes@[3],
                            enabled == bytes@[4] * 256 + bytes@[5],
                            bytes@[2] < 256,
                            bytes@[3] < 256,
                            bytes@[4] < 256,
                            bytes@[5] < 256,
                    ;
                    assert(rec.spec_bytes() =~= bytes@.subrange(0, 6));
                }
                Ok(rec)
            },
            Err(e) => Err(e),
        }
    }

    /// True when every capability bit of the query bitmap is also set in the
    /// supported-capabilities bitmap.
    pub fn supports(&self, capabilities: u16) -> (r: bool)
        ensures
            r == (self.spec_supported() & capabilities == capabilities),
    {
        let supported = (self.value / 0x10000) as u16;
        supported & capabilities == capabilities
    }

    /// True when every capability bit of the query bitmap is also set in the
    /// enabled-capabilities bitmap.
    pub fn enabled(&self, capabilities: u16) -> (r: bool)
        ensures
            r == (self.spec_enabled() & capabilities == capabilities),
    {
        let enabled = (self.value % 0x10000) as u16;
        enabled & capabilities == capabilities
    }

    /// The payload length of this record: always four.
    pub fn len(&self) -> (n: usize)
        ensures
            n == self.spec_payload().len(),
    {
        4
    }

    /// The wire bytes of this record.
    pub fn bytes(&self) -> (r: Vec<u8>)
        ensures
            r@ == self.spec_bytes(),
    {
        let supported = (self.value / 0x10000) as u16;
        let enabled = (self.value % 0x10000) as u16;
        let mut result: Vec<u8> = Vec::new();
        result.push(14);
        result.push(4);
        result.push((supported / 256) as u8);
        result.push((supported % 256) as u8);
        result.push((enabled / 256) as u8);
        result.push((enabled % 256) as u8);
        proof {
            assert(result@ =~= self.spec_bytes());
        }
        result
    }

    /// Law: a well-formed record's wire bytes are accepted by its own decoder.
    pub proof fn lemma_encode_accepted(t: SystemCapabilitiesTLV)
        requires
            t.inv(),
        ensures
            Self::spec_decode_ok(t.spec_bytes()),
    {
        envelope::lemma_header_round_trip(TlvType::SystemCapabilities.spec_value(), 4);
        assert(t.spec_bytes().len() == 6);
        assert(t.spec_bytes()[0] == envelope::spec_type_byte(
            TlvType::SystemCapabilities.spec_value(),
            4,
        ));
        assert(t.spec_bytes()[1] == envelope::spec_length_byte(4));
        let s = t.spec_supported();
        let e = t.spec_enabled();
        assert(t.spec_bytes()[2] == (s / 256) as u8 && t.spec_bytes()[3] == (s % 256) as u8);
        assert(t.spec_bytes()[4] == (e / 256) as u8 && t.spec_bytes()[5] == (e % 256) as u8);
        assert(s == 256 * (s / 256) + s % 256);
        assert(e == 256 * (e / 256) + e % 256);
    }

    /// Law: the encoding determines the record; two well-formed records with
    /// the same wire bytes are equal.
    pub proof fn lemma_bytes_injective(a: SystemCapabilitiesTLV, b: SystemCapabilitiesTLV)
        requires
            a.inv(),
            b.inv(),
            a.spec_bytes() == b.spec_bytes(),
        ensures
            a == b,
    {
        let sa = a.spec_supported();
        let ea = a.spec_enabled();
        let sb = b.spec_supported();
        let eb = b.spec_enabled();
        assert(a.spec_bytes()[2] == (sa / 256) as u8 && a.spec_bytes()[3] == (sa % 256) as u8);
        assert(a.spec_bytes()[4] == (ea / 256) as u8 && a.spec_bytes()[5] == (ea % 256) as u8);
        assert(b.spec_bytes()[2] == (sb / 256) as u8 && b.spec_bytes()[3] == (sb % 256) as u8);
        assert(b.spec_bytes()[4] == (eb / 256) as u8 && b.spec_bytes()[5] == (eb % 256) as u8);
        assert(sa == 256 * (sa / 256) + sa % 256 && sb == 256 * (sb / 256) + sb % 256);
        assert(ea == 256 * (ea / 256) + ea % 256 && eb == 256 * (eb / 256) + eb % 256);
        assert(a.value == 0x10000 * (a.value / 0x10000) + a.value % 0x10000);
        assert(b.value == 0x10000 * (b.value / 0x10000) + b.value % 0x10000);
    }

    /// The canonical textual rendering of this record: both bitmaps, decimal.
    pub open spec fn spec_render(self) -> Seq<char> {
        "SystemCapabilitiesTLV("@ + render::spec_dec(self.spec_supported() as nat) + ", "@
            + render::spec_dec(self.spec_enabled() as nat) + ")"@
    }

    /// Renders the record in its canonical textual form.
    pub fn render(&self) -> (s: String)
        ensures
            s@ == self.spec_render(),
    {
        let mut s = String::from_str("SystemCapabilitiesTLV(");
        render::append_dec_u32(&mut s, (self.value / 0x10000));
        s.append(", ");
        render::append_dec_u32(&mut s, (self.value % 0x10000));
        proof {
            assert((self.value / 0x10000) as nat == self.spec_supported() as nat);
            assert((self.value % 0x10000) as nat == self.spec_enabled() as nat);
        }
        s.append(")");
        proof {
            assert(s@ =~= self.spec_render());
        }
        s
    }
}

} // verus!
