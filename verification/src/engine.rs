//! The external Script Analysis Engine: strict and relaxed parsing of a raw
//! script into a Miniscript fragment, and the semantic lift into an abstract
//! spending policy. Everything here is supplied by the miniscript crate; the
//! items below say what is assumed of it.

use vstd::prelude::*;
use miniscript::policy::Liftable;

verus! {

/// A script the engine parsed for the version-0 segwit context with
/// fully-encoded public keys. Opaque to the verifier: it is only carried from
/// a parse to the lift and the rendering.
#[verifier::external_body]
pub struct ParsedScript {
    inner: miniscript::Miniscript<miniscript::bitcoin::PublicKey, miniscript::Segwitv0>,
}

/// The abstract spending policy the engine lifts a parsed script into.
/// Opaque to the verifier: it is only carried to the rendering.
#[verifier::external_body]
pub struct LiftedPolicy {
    inner: miniscript::policy::semantic::Policy<miniscript::bitcoin::PublicKey>,
}

// Whether the strict parse accepts a script: it decodes to a Miniscript
// fragment and clears the sanity checks. A function of the bytes alone.
pub uninterp spec fn strict_parses(s: Seq<u8>) -> bool;

// Whether the relaxed parse accepts a script: it decodes to a structurally
// valid Miniscript fragment, sane or not. A function of the bytes alone.
pub uninterp spec fn relaxed_parses(s: Seq<u8>) -> bool;

/// Relies on miniscript's `Miniscript::<PublicKey, Segwitv0>::parse`, the
/// strict decoder: it succeeds exactly on the scripts that decode to a
/// fragment and clear the sanity checks, deterministically in the bytes.
#[verifier::external_body]
pub(crate) fn parse_strict(script: &[u8]) -> (r: Result<ParsedScript, String>)
    ensures
        r is Ok <==> strict_parses(script@),
{
    miniscript::Miniscript::parse(miniscript::bitcoin::script::Script::from_bytes(script)).map(
        |m| ParsedScript { inner: m },
    ).map_err(|e| e.to_string())
}

/// Relies on miniscript's `Miniscript::<PublicKey, Segwitv0>::parse_insane`,
/// the relaxed decoder: it succeeds exactly on the structurally valid
/// scripts, whether or not they clear the sanity checks, deterministically in
/// the bytes.
#[verifier::external_body]
pub(crate) fn parse_relaxed(script: &[u8]) -> (r: Result<ParsedScript, String>)
    ensures
        r is Ok <==> relaxed_parses(script@),
{
    miniscript::Miniscript::parse_insane(
        miniscript::bitcoin::script::Script::from_bytes(script),
    ).map(|m| ParsedScript { inner: m }).map_err(|e| e.to_string())
}

/// Relies on miniscript's `Liftable::lift` for Miniscript: it converts a
/// parsed script into its abstract spending policy or fails with a lift
/// error. Nothing is assumed of the result.
#[verifier::external_body]
pub(crate) fn lift_policy(ms: &ParsedScript) -> (r: Result<LiftedPolicy, String>) {
    ms.inner.lift().map(|p| LiftedPolicy { inner: p }).map_err(|e| e.to_string())
}

/// Relies on miniscript's `Display` rendering of a parsed script. Nothing is
/// assumed of the result.
#[verifier::external_body]
pub(crate) fn render_script(ms: &ParsedScript) -> (r: String) {
    ms.inner.to_string()
}

/// Relies on miniscript's `Display` rendering of a lifted policy. Nothing is
/// assumed of the result.
#[verifier::external_body]
pub(crate) fn render_policy(p: &LiftedPolicy) -> (r: String) {
    p.inner.to_string()
}

} // verus!
