//! Per-VM decoding of the raw target byte sequence, and the input size
//! bound. Malformed targets are rejected before any VM engine is entered.

use vstd::prelude::*;

use crate::types::AccountId;

verus! {

/// Maximum input payload size, in bytes, accepted by the EVM-style adapter.
pub const MAX_ETHEREUM_TX_INPUT: usize = 65536;

/// Byte width of an EVM-style target address.
pub const EVM_TARGET_LEN: usize = 20;

/// Byte width of a WASM-style target account identifier.
pub const WASM_TARGET_LEN: usize = 32;

/// Relies on parity_scale_codec's `Decode` for `[u8; 20]`, reading from a
/// byte slice: it yields the first 20 bytes when the slice holds at least
/// that many, and fails otherwise.
#[verifier::external_body]
fn decode_fixed_20(bytes: &[u8]) -> (r: Option<[u8; 20]>)
    ensures
        r is Some <==> bytes@.len() >= 20,
        r matches Some(a) ==> a@ == bytes@.take(20),
{
    let mut input: &[u8] = bytes;
    <[u8; 20] as parity_scale_codec::Decode>::decode(&mut input).ok()
}

/// Relies on parity_scale_codec's `Decode` for `[u8; 32]`, reading from a
/// byte slice: it yields the first 32 bytes when the slice holds at least
/// that many, and fails otherwise.
#[verifier::external_body]
fn decode_fixed_32(bytes: &[u8]) -> (r: Option<[u8; 32]>)
    ensures
        r is Some <==> bytes@.len() >= 32,
        r matches Some(a) ==> a@ == bytes@.take(32),
{
    let mut input: &[u8] = bytes;
    <[u8; 32] as parity_scale_codec::Decode>::decode(&mut input).ok()
}

/// Decodes an EVM-style target address: accepted exactly when the raw
/// sequence has the fixed 20-byte width, and then taken verbatim.
pub fn decode_evm_target(target: &Vec<u8>) -> (r: Option<[u8; 20]>)
    ensures
        r is Some <==> target@.len() == EVM_TARGET_LEN,
        r matches Some(a) ==> a@ == target@,
{
    if target.len() == EVM_TARGET_LEN {
        let decoded = decode_fixed_20(target.as_slice());
        proof {
            assert(target@.take(20) =~= target@);
        }
        decoded
    } else {
        None
    }
}

/// Decodes a WASM-style target account: accepted exactly when the raw
/// sequence holds at least the 32-byte account width, whose first 32 bytes
/// form the account identifier.
pub fn decode_wasm_target(target: &Vec<u8>) -> (r: Option<AccountId>)
    ensures
        r is Some <==> target@.len() >= WASM_TARGET_LEN,
        r matches Some(a) ==> a@ == target@.take(WASM_TARGET_LEN as int),
{
    match decode_fixed_32(target.as_slice()) {
        Some(bytes) => Some(AccountId(bytes)),
        None => None,
    }
}

} // verus!
