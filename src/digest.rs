use vstd::prelude::*;

verus! {

/// The host environment that computes digests.
#[verifier::external_type_specification]
#[verifier::external_body]
pub struct ExEnv(soroban_sdk::Env);

/// The Keccak-256 digest of a byte string.
pub uninterp spec fn keccak256_of(data: Seq<u8>) -> Seq<u8>;

/// Relies on soroban_sdk's `Crypto::keccak256`: the 32-byte Keccak-256 digest
/// of the bytes, which depends on the bytes alone.
#[verifier::external_body]
pub(crate) fn keccak256(env: &soroban_sdk::Env, data: &Vec<u8>) -> (r: [u8; 32])
    ensures
        r@ == keccak256_of(data@),
{
    let bytes = soroban_sdk::Bytes::from_slice(env, data.as_slice());
    env.crypto().keccak256(&bytes).to_array()
}

} // verus!
