//! Code hashes as the engine reads them.

use vstd::prelude::*;

use crate::contract_api::{holds_code_hash, CODE_HASH_LEN};

verus! {

/// `parity_scale_codec::Error`: why bytes did not decode. Nothing is read from it.
#[verifier::external_type_specification]
#[verifier::external_body]
pub struct ExCodecError(parity_scale_codec::Error);

/// `parity_scale_codec::Decode::decode` for an array of thirty-two bytes, read from a
/// slice: it takes the first thirty-two bytes as they stand and fails where the slice
/// holds fewer.
#[verifier::external_body]
fn decode_array(bytes: &[u8]) -> (decoded: Result<[u8; 32], parity_scale_codec::Error>)
    ensures
        decoded is Ok <==> bytes@.len() >= 32,
        decoded matches Ok(array) ==> array@ == bytes@.subrange(0, 32),
{
    let mut input: &[u8] = bytes;
    <[u8; 32] as parity_scale_codec::Decode>::decode(&mut input)
}

/// The bytes hold no complete code hash.
#[derive(Clone, Copy, Debug, PartialEq, Eq, Structural)]
pub struct InvalidCodeHash;

/// Reads a code hash from the front of `bytes`, as the engine does. Bytes that
/// follow the hash are not looked at.
pub fn decode_code_hash(bytes: &[u8]) -> (hash: Result<[u8; 32], InvalidCodeHash>)
    ensures
        hash is Ok <==> holds_code_hash(bytes@),
        hash matches Ok(array) ==> array@ == bytes@.subrange(0, CODE_HASH_LEN as int),
{
    match decode_array(bytes) {
        Ok(array) => Ok(array),
        Err(_) => Err(InvalidCodeHash),
    }
}

} // verus!
