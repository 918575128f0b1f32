//! Verification of a candidate inner script against the commitment embedded
//! in a script-hash template.

use vstd::prelude::*;
use vstd::slice::slice_subrange;
use crate::classify::{is_p2sh, is_p2wsh};
use crate::digest::{hash160_digest, hash160_of, sha256_digest, sha256_of};

verus! {

/// The commitment a P2WSH template embeds: its SHA-256 digest slice.
pub open spec fn p2wsh_commitment(spk: Seq<u8>) -> Seq<u8>
    recommends
        is_p2wsh(spk),
{
    spk.subrange(2, 34)
}

/// The commitment a P2SH template embeds: its HASH160 digest slice.
pub open spec fn p2sh_commitment(spk: Seq<u8>) -> Seq<u8>
    recommends
        is_p2sh(spk),
{
    spk.subrange(2, 22)
}

/// A witness script matches a P2WSH template: the template is well formed and
/// its embedded commitment equals the SHA-256 digest of the script.
pub open spec fn p2wsh_matches(spk: Seq<u8>, inner: Seq<u8>) -> bool {
    is_p2wsh(spk) && p2wsh_commitment(spk) == sha256_of(inner)
}

/// A redeem script matches a P2SH template: the template is well formed and
/// its embedded commitment equals the HASH160 digest of the script.
pub open spec fn p2sh_matches(spk: Seq<u8>, inner: Seq<u8>) -> bool {
    is_p2sh(spk) && p2sh_commitment(spk) == hash160_of(inner)
}

pub open spec fn msg_not_p2wsh() -> Seq<char> {
    "not a P2WSH scriptPubKey"@
}

pub open spec fn msg_p2wsh_mismatch() -> Seq<char> {
    "witnessScript does not match P2WSH witness program (expected sha256(witnessScript))"@
}

pub open spec fn msg_not_p2sh() -> Seq<char> {
    "not a P2SH scriptPubKey"@
}

pub open spec fn msg_p2sh_mismatch() -> Seq<char> {
    "redeemScript does not match P2SH redeem hash (expected hash160(redeemScript))"@
}

/// Exact byte-sequence equality, the only comparison the verifier performs:
/// no partial, case-insensitive or length-tolerant matches.
pub fn bytes_eq(a: &[u8], b: &[u8]) -> (r: bool)
    ensures
        r == (a@ == b@),
{
    if a.len() != b.len() {
        return false;
    }
    let mut i: usize = 0;
    while i < a.len()
        invariant
            0 <= i <= a@.len(),
            a@.len() == b@.len(),
            forall|j: int| 0 <= j < i ==> a@[j] == b@[j],
        decreases a@.len() - i,
    {
        if a[i] != b[i] {
            return false;
        }
        i += 1;
    }
    assert(a@ =~= b@);
    true
}

/// Verify that `witness_script` matches the given P2WSH scriptPubKey:
/// `Ok` exactly when the template is well formed and its embedded commitment
/// equals the SHA-256 digest of the witness script.
pub fn verify_p2wsh_matches(spk: &[u8], witness_script: &[u8]) -> (r: Result<(), String>)
    ensures
        r is Ok <==> p2wsh_matches(spk@, witness_script@),
        !is_p2wsh(spk@) ==> (r matches Err(m) && m@ == msg_not_p2wsh()),
        is_p2wsh(spk@) && !p2wsh_matches(spk@, witness_script@) ==> (r matches Err(m) && m@
            == msg_p2wsh_mismatch()),
{
    if !(spk.len() == 34 && spk[0] == 0x00 && spk[1] == 0x20) {
        return Err("not a P2WSH scriptPubKey".to_owned());
    }
    let expected = slice_subrange(spk, 2, 34);
    let got = sha256_digest(witness_script);
    if bytes_eq(expected, got.as_slice()) {
        Ok(())
    } else {
        Err(
            "witnessScript does not match P2WSH witness program (expected sha256(witnessScript))".to_owned(),
        )
    }
}

/// Verify that `redeem_script` matches the given P2SH scriptPubKey:
/// `Ok` exactly when the template is well formed and its embedded commitment
/// equals the HASH160 digest of the redeem script.
pub fn verify_p2sh_matches(spk: &[u8], redeem_script: &[u8]) -> (r: Result<(), String>)
    ensures
        r is Ok <==> p2sh_matches(spk@, redeem_script@),
        !is_p2sh(spk@) ==> (r matches Err(m) && m@ == msg_not_p2sh()),
        is_p2sh(spk@) && !p2sh_matches(spk@, redeem_script@) ==> (r matches Err(m) && m@
            == msg_p2sh_mismatch()),
{
    if !(spk.len() == 23 && spk[0] == 0xa9 && spk[1] == 0x14 && spk[22] == 0x87) {
        return Err("not a P2SH scriptPubKey".to_owned());
    }
    let expected = slice_subrange(spk, 2, 22);
    let got = hash160_digest(redeem_script);
    if bytes_eq(expected, got.as_slice()) {
        Ok(())
    } else {
        Err(
            "redeemScript does not match P2SH redeem hash (expected hash160(redeemScript))".to_owned(),
        )
    }
}

/// The 34-byte P2WSH template that embeds a given 32-byte commitment.
pub open spec fn p2wsh_template_of(d: Seq<u8>) -> Seq<u8> {
    seq![0x00u8, 0x20u8] + d
}

/// The 23-byte P2SH template that embeds a given 20-byte commitment.
pub open spec fn p2sh_template_of(d: Seq<u8>) -> Seq<u8> {
    seq![0xa9u8, 0x14u8] + d + seq![0x87u8]
}

/// Commitment round-trip for P2WSH: embedding a script's SHA-256 digest in a
/// fresh `0x00 0x20 <digest>` template yields a template the script matches,
/// and a P2WSH template whose embedded commitment differs from the script's
/// digest is a mismatch.
pub proof fn lemma_p2wsh_roundtrip(s: Seq<u8>, spk: Seq<u8>)
    requires
        sha256_of(s).len() == 32,
    ensures
        p2wsh_matches(p2wsh_template_of(sha256_of(s)), s),
        is_p2wsh(spk) && p2wsh_commitment(spk) != sha256_of(s) ==> !p2wsh_matches(spk, s),
{
    let t = p2wsh_template_of(sha256_of(s));
    assert(is_p2wsh(t));
    assert(t.subrange(2, 34) =~= sha256_of(s));
}

/// Commitment round-trip for P2SH: embedding a script's HASH160 digest in a
/// fresh `0xa9 0x14 <digest> 0x87` template yields a template the script
/// matches, and a P2SH template whose embedded commitment differs from the
/// script's digest is a mismatch.
pub proof fn lemma_p2sh_roundtrip(s: Seq<u8>, spk: Seq<u8>)
    requires
        hash160_of(s).len() == 20,
    ensures
        p2sh_matches(p2sh_template_of(hash160_of(s)), s),
        is_p2sh(spk) && p2sh_commitment(spk) != hash160_of(s) ==> !p2sh_matches(spk, s),
{
    let t = p2sh_template_of(hash160_of(s));
    assert(is_p2sh(t));
    assert(t.subrange(2, 22) =~= hash160_of(s));
}

} // verus!
