//! Codec for the Type-Length-Value (TLV) records that compose an LLDP data
//! unit (IEEE 802.1AB).
//!
//! Given a buffer of octets the library reconstructs a strongly typed record,
//! and given such a record it reproduces the exact wire bytes.  Every decoder
//! validates its payload eagerly and reports a typed [`error::TlvError`]
//! instead of producing a partial record.

pub mod envelope;
pub mod error;
pub mod ip;
pub mod render;
mod text;
pub mod tlv;

use vstd::prelude::*;

verus! {

} // verus!
