//! The liftability prober: a two-tier parse with a single strict-to-relaxed
//! fallback and three terminal outcomes.

use vstd::prelude::*;
use crate::engine::{
    lift_policy, parse_relaxed, parse_strict, relaxed_parses, render_policy, render_script,
    strict_parses, ParsedScript,
};

verus! {

/// The policy field of a liftable outcome: the rendered policy, or, when the
/// semantic lift failed, the lift error kept inline. A lift failure does not
/// change the parse tier.
#[derive(Debug)]
pub enum PolicyText {
    Lifted(String),
    LiftFailed(String),
}

/// The tri-state outcome of probing one executable script.
#[derive(Debug)]
pub enum ParseOutcome {
    /// The strict parse succeeded: the script is safe to treat as a standard
    /// policy. Carries the rendered script and the policy (or lift error).
    SafeLiftable { script_text: String, policy: PolicyText },
    /// Only the relaxed parse succeeded: structurally a valid script but not
    /// provably safe. Carries the strict parser's rejection reason.
    UnsafeLiftable { script_text: String, policy: PolicyText, violation: String },
    /// Neither parse succeeded. Carries the relaxed parser's error, the more
    /// informative of the two failures.
    NotParseable { error: String },
}

/// Which outcome the two-tier probe assigns to a script: safe exactly when
/// the strict parse succeeds, unsafe exactly when only the relaxed parse
/// succeeds, not parseable exactly when both fail.
pub open spec fn outcome_matches(s: Seq<u8>, o: ParseOutcome) -> bool {
    &&& (o is SafeLiftable <==> strict_parses(s))
    &&& (o is UnsafeLiftable <==> (!strict_parses(s) && relaxed_parses(s)))
    &&& (o is NotParseable <==> (!strict_parses(s) && !relaxed_parses(s)))
}

/// The policy field for a parsed script: its lifted policy, rendered, or the
/// lift error.
fn policy_text(ms: &ParsedScript) -> PolicyText {
    match lift_policy(ms) {
        Ok(p) => PolicyText::Lifted(render_policy(&p)),
        Err(e) => PolicyText::LiftFailed(e),
    }
}

/// Probe a resolved executable script: attempt the strict parse; on failure
/// fall back once to the relaxed parse, retaining the strict rejection
/// reason; fail only when both parses fail.
pub fn probe(script: &[u8]) -> (o: ParseOutcome)
    ensures
        outcome_matches(script@, o),
{
    match parse_strict(script) {
        Ok(ms) => {
            let script_text = render_script(&ms);
            let policy = policy_text(&ms);
            ParseOutcome::SafeLiftable { script_text, policy }
        },
        Err(strict_err) => match parse_relaxed(script) {
            Ok(ms) => {
                let script_text = render_script(&ms);
                let policy = policy_text(&ms);
                ParseOutcome::UnsafeLiftable { script_text, policy, violation: strict_err }
            },
            Err(relaxed_err) => ParseOutcome::NotParseable { error: relaxed_err },
        },
    }
}

/// Two-tier monotonicity: when the strict parse of a script succeeds, an
/// outcome the probe assigns to that script is `SafeLiftable`, and in
/// particular never `NotParseable`.
pub proof fn lemma_two_tier_monotonic(s: Seq<u8>, o: ParseOutcome)
    requires
        outcome_matches(s, o),
        strict_parses(s),
    ensures
        o is SafeLiftable,
        o !is NotParseable,
{
}

} // verus!
