//! The one-byte wire protocol of the supervisor/child handshake.
//!
//! Every message exchanged between the supervisor and the cloned child is a
//! single datagram holding a single byte: `0x01` for `true`, `0x00` for
//! `false`. The child reports whether it managed to enter a fresh user
//! namespace; the supervisor answers `0x01` once the ID maps are in place.

use vstd::prelude::*;

verus! {

/// Spec-level meaning of a received byte: anything non-zero reads as `true`.
pub open spec fn byte_as_bool(b: u8) -> bool {
    b != 0
}

/// Encode a boolean as the single wire byte: `0x01` for `true`, `0x00` for
/// `false`.
pub fn encode_bool(v: bool) -> (b: u8)
    ensures
        b == (if v { 1u8 } else { 0u8 }),
        byte_as_bool(b) == v,
{
    if v { 1 } else { 0 }
}

/// Decode a received wire byte as a boolean.
pub fn decode_bool(b: u8) -> (v: bool)
    ensures
        v == byte_as_bool(b),
{
    b != 0
}

/// Law: sending a boolean and reading it back yields the same boolean, for
/// both `true` and `false`.
pub proof fn lemma_bool_round_trip(v: bool)
    ensures
        byte_as_bool(if v { 1u8 } else { 0u8 }) == v,
{
}

} // verus!
