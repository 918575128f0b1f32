//! The outcome reporter and the whole decision pipeline: classification,
//! commitment verification, probing, and the fixed mapping from every outcome
//! to printed text and a process exit code.

use vstd::prelude::*;
use vstd::string::StringExecFns;
use crate::classify::{classify_script_pubkey, classify_spec, TemplateKind};
use crate::commit::{
    msg_p2sh_mismatch, msg_p2wsh_mismatch, p2sh_matches, p2wsh_matches, verify_p2sh_matches,
    verify_p2wsh_matches,
};
use crate::engine::{relaxed_parses, strict_parses};
use crate::hexstr::{decode_hex, hex_decoded, is_hex_string};
use crate::probe::{probe, ParseOutcome, PolicyText};

verus! {

/// What one invocation reports: the lines to print, in order, and the process
/// exit code. Exit 0 means safe, 1 unsafe but structurally valid, 3 any other
/// failure.
#[derive(Debug)]
pub struct Report {
    pub lines: Vec<String>,
    pub exit_code: u8,
}

/// The fixed exit-code mapping of probe outcomes: safe 0, unsafe 1, not
/// parseable 3. Total and deterministic.
pub open spec fn exit_code_spec(o: ParseOutcome) -> u8 {
    match o {
        ParseOutcome::SafeLiftable { .. } => 0u8,
        ParseOutcome::UnsafeLiftable { .. } => 1u8,
        ParseOutcome::NotParseable { .. } => 3u8,
    }
}

/// Map a probe outcome to its exit code.
pub fn exit_code_for(o: &ParseOutcome) -> (c: u8)
    ensures
        c == exit_code_spec(*o),
{
    match o {
        ParseOutcome::SafeLiftable { .. } => 0,
        ParseOutcome::UnsafeLiftable { .. } => 1,
        ParseOutcome::NotParseable { .. } => 3,
    }
}

/// Exit-code determinism and totality: every outcome category maps to exactly
/// one of the codes 0, 1 and 3, and the code identifies the category.
pub proof fn lemma_exit_code_total(o: ParseOutcome)
    ensures
        exit_code_spec(o) == 0 || exit_code_spec(o) == 1 || exit_code_spec(o) == 3,
        exit_code_spec(o) == 0 <==> o is SafeLiftable,
        exit_code_spec(o) == 1 <==> o is UnsafeLiftable,
        exit_code_spec(o) == 3 <==> o is NotParseable,
{
}

/// One character sequence begins with another.
pub open spec fn starts_with(s: Seq<char>, p: Seq<char>) -> bool {
    p.len() <= s.len() && s.subrange(0, p.len() as int) == p
}

/// A report of exactly one line with the given text and exit code.
pub open spec fn single_line(r: Report, line: Seq<char>, code: u8) -> bool {
    &&& r.exit_code == code
    &&& r.lines@.len() == 1
    &&& r.lines@[0]@ == line
}

/// A report of exactly one line that begins with the given prefix, with the
/// given exit code.
pub open spec fn single_line_prefixed(r: Report, prefix: Seq<char>, code: u8) -> bool {
    &&& r.exit_code == code
    &&& r.lines@.len() == 1
    &&& starts_with(r.lines@[0]@, prefix)
}

/// The policy line of a liftable outcome: the rendered policy after the given
/// prefix, or the lift-error placeholder.
pub open spec fn policy_line(prefix: Seq<char>, p: PolicyText) -> Seq<char> {
    match p {
        PolicyText::Lifted(t) => prefix + t@,
        PolicyText::LiftFailed(e) => prefix + "<error: "@ + e@ + ">"@,
    }
}

/// The reporter's mapping of a probe outcome to text and exit code.
pub open spec fn report_of_outcome(o: ParseOutcome, r: Report) -> bool {
    &&& r.exit_code == exit_code_spec(o)
    &&& (o matches ParseOutcome::SafeLiftable { script_text, policy } ==> {
        &&& r.lines@.len() == 3
        &&& r.lines@[0]@ == "LIFTABLE: SAFE"@
        &&& r.lines@[1]@ == "Miniscript: "@ + script_text@
        &&& r.lines@[2]@ == policy_line("Policy: "@, policy)
    })
    &&& (o matches ParseOutcome::UnsafeLiftable { script_text, policy, violation } ==> {
        &&& r.lines@.len() == 3
        &&& r.lines@[0]@ == "LIFTABLE: UNSAFE - "@ + violation@
        &&& r.lines@[1]@ == "Miniscript (unchecked): "@ + script_text@
        &&& r.lines@[2]@ == policy_line("Policy (from unchecked): "@, policy)
    })
    &&& (o matches ParseOutcome::NotParseable { error } ==> {
        &&& r.lines@.len() == 1
        &&& r.lines@[0]@ == "NOT_LIFTABLE: "@ + error@
    })
}

/// A report of one line.
fn single_report(line: String, code: u8) -> (r: Report)
    ensures
        single_line(r, line@, code),
{
    let mut lines: Vec<String> = Vec::new();
    lines.push(line);
    Report { lines, exit_code: code }
}

/// Whatever follows a fixed prefix, the line begins with the prefix.
proof fn lemma_starts_with_concat(p: Seq<char>, s: Seq<char>)
    ensures
        starts_with(p + s, p),
{
    assert((p + s).subrange(0, p.len() as int) =~= p);
}

/// The policy line for a probe's policy field.
fn policy_line_exec(prefix: &str, p: PolicyText) -> (line: String)
    ensures
        line@ == policy_line(prefix@, p),
{
    match p {
        PolicyText::Lifted(t) => prefix.to_owned().concat(t.as_str()),
        PolicyText::LiftFailed(e) => prefix.to_owned().concat("<error: ").concat(
            e.as_str(),
        ).concat(">"),
    }
}

/// Map a probe outcome to its report: the exact lines of text and the exit
/// code of the fixed mapping.
pub fn report_outcome(o: ParseOutcome) -> (r: Report)
    ensures
        report_of_outcome(o, r),
{
    let mut lines: Vec<String> = Vec::new();
    match o {
        ParseOutcome::SafeLiftable { script_text, policy } => {
            lines.push("LIFTABLE: SAFE".to_owned());
            lines.push("Miniscript: ".to_owned().concat(script_text.as_str()));
            lines.push(policy_line_exec("Policy: ", policy));
            Report { lines, exit_code: 0 }
        },
        ParseOutcome::UnsafeLiftable { script_text, policy, violation } => {
            lines.push("LIFTABLE: UNSAFE - ".to_owned().concat(violation.as_str()));
            lines.push("Miniscript (unchecked): ".to_owned().concat(script_text.as_str()));
            lines.push(policy_line_exec("Policy (from unchecked): ", policy));
            Report { lines, exit_code: 1 }
        },
        ParseOutcome::NotParseable { error } => {
            lines.push("NOT_LIFTABLE: ".to_owned().concat(error.as_str()));
            Report { lines, exit_code: 3 }
        },
    }
}

/// What a report for a probed script shows: the safe header and exit 0 when
/// the strict parse succeeds, the unsafe header and exit 1 when only the
/// relaxed parse succeeds, a single failure line and exit 3 when both fail.
pub open spec fn probe_report(s: Seq<u8>, r: Report) -> bool {
    &&& (strict_parses(s) ==> r.exit_code == 0 && r.lines@.len() == 3 && r.lines@[0]@
        == "LIFTABLE: SAFE"@)
    &&& (!strict_parses(s) && relaxed_parses(s) ==> r.exit_code == 1 && r.lines@.len() == 3
        && starts_with(r.lines@[0]@, "LIFTABLE: UNSAFE - "@))
    &&& (!strict_parses(s) && !relaxed_parses(s) ==> single_line_prefixed(
        r,
        "NOT_LIFTABLE: "@,
        3,
    ))
}

/// Probe an executable script and report the outcome.
pub fn probe_and_report(script: &[u8]) -> (r: Report)
    ensures
        probe_report(script@, r),
{
    let o = probe(script);
    proof {
        match &o {
            ParseOutcome::UnsafeLiftable { violation, .. } => {
                lemma_starts_with_concat("LIFTABLE: UNSAFE - "@, violation@);
            },
            ParseOutcome::NotParseable { error } => {
                lemma_starts_with_concat("NOT_LIFTABLE: "@, error@);
            },
            ParseOutcome::SafeLiftable { .. } => {},
        }
    }
    report_outcome(o)
}

/// The run contract for an input classified P2WSH: a second argument is
/// demanded, decoded, verified against the commitment, and only a matching
/// witness script is probed.
pub open spec fn p2wsh_run_spec(args: Seq<String>, spk: Seq<u8>, r: Report) -> bool {
    &&& (args.len() < 2 ==> single_line(
        r,
        "NOT_LIFTABLE: input is a P2WSH scriptPubKey; provide the witnessScript hex as the second argument"@,
        3,
    ))
    &&& (args.len() >= 2 && !is_hex_string(args[1]@) ==> single_line_prefixed(
        r,
        "NOT_LIFTABLE: witnessScript invalid hex - "@,
        3,
    ))
    &&& (args.len() >= 2 && is_hex_string(args[1]@) ==> {
        let inner = hex_decoded(args[1]@);
        &&& (p2wsh_matches(spk, inner) ==> probe_report(inner, r))
        &&& (!p2wsh_matches(spk, inner) ==> single_line(
            r,
            "NOT_LIFTABLE: "@ + msg_p2wsh_mismatch(),
            3,
        ))
    })
}

/// The run contract for an input classified P2SH, as for P2WSH with the
/// HASH160 commitment.
pub open spec fn p2sh_run_spec(args: Seq<String>, spk: Seq<u8>, r: Report) -> bool {
    &&& (args.len() < 2 ==> single_line(
        r,
        "NOT_LIFTABLE: input is a P2SH scriptPubKey; provide the redeemScript hex as the second argument"@,
        3,
    ))
    &&& (args.len() >= 2 && !is_hex_string(args[1]@) ==> single_line_prefixed(
        r,
        "NOT_LIFTABLE: redeemScript invalid hex - "@,
        3,
    ))
    &&& (args.len() >= 2 && is_hex_string(args[1]@) ==> {
        let inner = hex_decoded(args[1]@);
        &&& (p2sh_matches(spk, inner) ==> probe_report(inner, r))
        &&& (!p2sh_matches(spk, inner) ==> single_line(
            r,
            "NOT_LIFTABLE: "@ + msg_p2sh_mismatch(),
            3,
        ))
    })
}

/// The run contract for an input classified P2TR: a tapscript is demanded and
/// probed directly; by design no commitment is verified.
pub open spec fn p2tr_run_spec(args: Seq<String>, r: Report) -> bool {
    &&& (args.len() < 2 ==> single_line(
        r,
        "NOT_LIFTABLE: input is a P2TR (Taproot) scriptPubKey; provide the tapscript (tapleaf) hex as the second argument (tapscript-to-SPK verification not implemented)"@,
        3,
    ))
    &&& (args.len() >= 2 && !is_hex_string(args[1]@) ==> single_line_prefixed(
        r,
        "NOT_LIFTABLE: tapscript invalid hex - "@,
        3,
    ))
    &&& (args.len() >= 2 && is_hex_string(args[1]@) ==> probe_report(hex_decoded(args[1]@), r))
}

/// The run contract once the first argument decoded: dispatch on the
/// template kind of the decoded bytes.
pub open spec fn classified_run_spec(args: Seq<String>, spk: Seq<u8>, r: Report) -> bool {
    &&& (classify_spec(spk) == TemplateKind::Unrecognized ==> probe_report(spk, r))
    &&& (classify_spec(spk) == TemplateKind::P2WPKH ==> single_line(
        r,
        "NOT_LIFTABLE: input is a P2WPKH scriptPubKey; there is no separate witnessScript. Provide the actual script you want to analyze, not the scriptPubKey"@,
        3,
    ))
    &&& (classify_spec(spk) == TemplateKind::P2WSH ==> p2wsh_run_spec(args, spk, r))
    &&& (classify_spec(spk) == TemplateKind::P2SH ==> p2sh_run_spec(args, spk, r))
    &&& (classify_spec(spk) == TemplateKind::P2TR ==> p2tr_run_spec(args, r))
}

/// The whole reporting contract of one invocation over its positional
/// arguments.
pub open spec fn run_spec(args: Seq<String>, r: Report) -> bool {
    &&& (args.len() == 0 ==> single_line(r, "NOT_LIFTABLE: missing hex argument"@, 3))
    &&& (args.len() >= 1 && !is_hex_string(args[0]@) ==> single_line_prefixed(
        r,
        "NOT_LIFTABLE: invalid hex - "@,
        3,
    ))
    &&& (args.len() >= 1 && is_hex_string(args[0]@) ==> classified_run_spec(
        args,
        hex_decoded(args[0]@),
        r,
    ))
}

/// One invocation of the pipeline over the positional arguments: decode,
/// classify, verify where a commitment applies, probe, and report. Pure:
/// the caller prints the lines and exits with the code.
pub fn run(args: &Vec<String>) -> (r: Report)
    ensures
        run_spec(args@, r),
{
    if args.len() == 0 {
        return single_report("NOT_LIFTABLE: missing hex argument".to_owned(), 3);
    }
    let spk_bytes = match decode_hex(args[0].as_str()) {
        Ok(b) => b,
        Err(e) => {
            proof {
                lemma_starts_with_concat("NOT_LIFTABLE: invalid hex - "@, e@);
            }
            return single_report("NOT_LIFTABLE: invalid hex - ".to_owned().concat(e.as_str()), 3);
        },
    };
    match classify_script_pubkey(spk_bytes.as_slice()) {
        TemplateKind::Unrecognized => probe_and_report(spk_bytes.as_slice()),
        TemplateKind::P2WPKH => single_report(
            "NOT_LIFTABLE: input is a P2WPKH scriptPubKey; there is no separate witnessScript. Provide the actual script you want to analyze, not the scriptPubKey".to_owned(),
            3,
        ),
        TemplateKind::P2WSH => {
            if args.len() < 2 {
                return single_report(
                    "NOT_LIFTABLE: input is a P2WSH scriptPubKey; provide the witnessScript hex as the second argument".to_owned(),
                    3,
                );
            }
            let inner = match decode_hex(args[1].as_str()) {
                Ok(b) => b,
                Err(e) => {
                    proof {
                        lemma_starts_with_concat("NOT_LIFTABLE: witnessScript invalid hex - "@, e@);
                    }
                    return single_report(
                        "NOT_LIFTABLE: witnessScript invalid hex - ".to_owned().concat(e.as_str()),
                        3,
                    );
                },
            };
            match verify_p2wsh_matches(spk_bytes.as_slice(), inner.as_slice()) {
                Ok(()) => probe_and_report(inner.as_slice()),
                Err(msg) => single_report("NOT_LIFTABLE: ".to_owned().concat(msg.as_str()), 3),
            }
        },
        TemplateKind::P2SH => {
            if args.len() < 2 {
                return single_report(
                    "NOT_LIFTABLE: input is a P2SH scriptPubKey; provide the redeemScript hex as the second argument".to_owned(),
                    3,
                );
            }
            let inner = match decode_hex(args[1].as_str()) {
                Ok(b) => b,
                Err(e) => {
                    proof {
                        lemma_starts_with_concat("NOT_LIFTABLE: redeemScript invalid hex - "@, e@);
                    }
                    return single_report(
                        "NOT_LIFTABLE: redeemScript invalid hex - ".to_owned().concat(e.as_str()),
                        3,
                    );
                },
            };
            match verify_p2sh_matches(spk_bytes.as_slice(), inner.as_slice()) {
                Ok(()) => probe_and_report(inner.as_slice()),
                Err(msg) => single_report("NOT_LIFTABLE: ".to_owned().concat(msg.as_str()), 3),
            }
        },
        TemplateKind::P2TR => {
            if args.len() < 2 {
                return single_report(
                    "NOT_LIFTABLE: input is a P2TR (Taproot) scriptPubKey; provide the tapscript (tapleaf) hex as the second argument (tapscript-to-SPK verification not implemented)".to_owned(),
                    3,
                );
            }
            let inner = match decode_hex(args[1].as_str()) {
                Ok(b) => b,
                Err(e) => {
                    proof {
                        lemma_starts_with_concat("NOT_LIFTABLE: tapscript invalid hex - "@, e@);
                    }
                    return single_report(
                        "NOT_LIFTABLE: tapscript invalid hex - ".to_owned().concat(e.as_str()),
                        3,
                    );
                },
            };
            probe_and_report(inner.as_slice())
        },
    }
}

} // verus!
