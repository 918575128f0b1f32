//! Named digests computed by the outside hash library.

use vstd::prelude::*;

verus! {

// The 32-byte SHA-256 digest of a byte sequence: whatever the outside hash
// library computes, a function of the input bytes alone.
pub uninterp spec fn sha256_of(b: Seq<u8>) -> Seq<u8>;

// The 20-byte HASH160 digest (RIPEMD-160 of SHA-256) of a byte sequence.
pub uninterp spec fn hash160_of(b: Seq<u8>) -> Seq<u8>;

/// Relies on bitcoin_hashes' `sha256::Hash::hash` (through miniscript's
/// re-export): the SHA-256 digest of the input, 32 bytes, determined by the
/// input bytes alone.
#[verifier::external_body]
pub(crate) fn sha256_digest(b: &[u8]) -> (r: Vec<u8>)
    ensures
        r@ == sha256_of(b@),
        r@.len() == 32,
{
    let h = <miniscript::bitcoin::hashes::sha256::Hash as miniscript::bitcoin::hashes::Hash>::hash(
        b,
    );
    miniscript::bitcoin::hashes::Hash::to_byte_array(h).to_vec()
}

/// Relies on bitcoin_hashes' `hash160::Hash::hash` (through miniscript's
/// re-export): the HASH160 digest of the input, 20 bytes, determined by the
/// input bytes alone.
#[verifier::external_body]
pub(crate) fn hash160_digest(b: &[u8]) -> (r: Vec<u8>)
    ensures
        r@ == hash160_of(b@),
        r@.len() == 20,
{
    let h = <miniscript::bitcoin::hashes::hash160::Hash as miniscript::bitcoin::hashes::Hash>::hash(
        b,
    );
    miniscript::bitcoin::hashes::Hash::to_byte_array(h).to_vec()
}

} // verus!
