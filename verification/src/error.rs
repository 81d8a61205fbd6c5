//! Decode and construction failures.

use vstd::prelude::*;

verus! {

/// Why decoding a buffer, or constructing a record directly, was refused.
///
/// Every failure is detected at the point of violation and aborts the
/// enclosing decode or construction; no partial record is ever produced.
#[derive(Debug, Clone, Copy, PartialEq, Eq, Structural)]
pub enum TlvError {
    /// The 7-bit tag of the first octet names no record kind this library decodes.
    UnknownTypeTag,
    /// A record-specific decoder was handed a buffer whose tag is not its own.
    TypeMismatch,
    /// The buffer is too short for the envelope header, the declared payload,
    /// or a fixed sub-field of the payload.
    TruncatedBuffer,
    /// The declared payload length, or the byte length of a constructed
    /// payload, cannot be carried by the 9-bit length field where this record
    /// kind expects it.
    LengthOverflow,
    /// A record kind with a mandated fixed payload length received a different length.
    FixedLengthViolation,
    /// The payload of a text-valued record is not valid UTF-8.
    MalformedText,
    /// An enabled-capability bit is set without the corresponding supported bit.
    CapabilityInvariantViolation,
    /// The management-address family octet is neither IPv4 (1) nor IPv6 (2).
    AddressFamilyUnrecognized,
    /// The address string length sub-field does not equal one plus the number
    /// of address octets of the declared family.
    AddressLengthMismatch,
    /// The interface-numbering subtype octet is none of the three defined values.
    UnrecognizedInterfaceSubtype,
    /// The object-identifier length octet is 129 or more, or does not equal
    /// the number of payload bytes that remain for the object identifier.
    OidOverflow,
    /// An organizationally unique identifier does not consist of exactly three bytes.
    OuiLengthViolation,
}

} // verus!
