//! Answers to queries leave the contract as JSON text.

use vstd::prelude::*;
use crate::error::RuntimeError;

verus! {

/// `cosmwasm_std::StdError`, the error of `cosmwasm_std::to_binary`. Nothing
/// is known of a value of it.
#[verifier::external_type_specification]
#[verifier::external_body]
pub struct ExStdError(cosmwasm_std::StdError);

/// What `cosmwasm_std::to_binary` makes of a string: the bytes of its JSON
/// text, or `None` where it fails.
pub uninterp spec fn to_binary_bytes(value: Seq<char>) -> Option<Seq<u8>>;

/// Calls `cosmwasm_std::to_binary` on a string and takes the bytes out of
/// the `Binary` that it returns. Believed, not proved: the outcome depends
/// on the characters of the string alone.
#[verifier::external_body]
#[allow(deprecated)]
fn to_binary(value: &String) -> (encoded: Result<Vec<u8>, cosmwasm_std::StdError>)
    ensures
        (match encoded {
            Ok(bytes) => to_binary_bytes(value@) == Some(bytes@),
            Err(_) => to_binary_bytes(value@) is None,
        }),
{
    match cosmwasm_std::to_binary(value) {
        Ok(binary) => Ok(binary.0),
        Err(e) => Err(e),
    }
}

/// The JSON text of an owner's name, as bytes; `SerializeErr` where the
/// name cannot be encoded.
pub fn encode_owner(owner: &String) -> (encoded: Result<Vec<u8>, RuntimeError>)
    ensures
        (match encoded {
            Ok(bytes) => to_binary_bytes(owner@) == Some(bytes@),
            Err(e) => to_binary_bytes(owner@) is None && e == (RuntimeError::SerializeErr {  }),
        }),
{
    match to_binary(owner) {
        Ok(bytes) => Ok(bytes),
        Err(_) => Err(RuntimeError::SerializeErr {  }),
    }
}

} // verus!
