//! Recognition of standard output-script templates from raw bytes.

use vstd::prelude::*;

verus! {

/// The spending-template shape of an output script. Exactly one kind is
/// assigned to every byte sequence; anything that matches no fixed template
/// is `Unrecognized` and is treated as an executable script itself.
#[derive(Clone, Copy, Debug, PartialEq, Eq, Structural)]
pub enum TemplateKind {
    P2WPKH,
    P2WSH,
    P2SH,
    P2TR,
    Unrecognized,
}

/// Version-0 pay-to-witness-public-key-hash: `OP_0 0x14 <20 bytes>`.
pub open spec fn is_p2wpkh(b: Seq<u8>) -> bool {
    b.len() == 22 && b[0] == 0x00u8 && b[1] == 0x14u8
}

/// Version-0 pay-to-witness-script-hash: `OP_0 0x20 <32 bytes>`.
pub open spec fn is_p2wsh(b: Seq<u8>) -> bool {
    b.len() == 34 && b[0] == 0x00u8 && b[1] == 0x20u8
}

/// Pay-to-script-hash: `OP_HASH160 0x14 <20 bytes> OP_EQUAL`.
pub open spec fn is_p2sh(b: Seq<u8>) -> bool {
    b.len() == 23 && b[0] == 0xa9u8 && b[1] == 0x14u8 && b[22] == 0x87u8
}

/// Version-1 pay-to-taproot: `OP_1 0x20 <32 bytes>`.
pub open spec fn is_p2tr(b: Seq<u8>) -> bool {
    b.len() == 34 && b[0] == 0x51u8 && b[1] == 0x20u8
}

/// Total classification: the unique template a byte sequence matches, or
/// `Unrecognized`.
pub open spec fn classify_spec(b: Seq<u8>) -> TemplateKind {
    if is_p2wpkh(b) {
        TemplateKind::P2WPKH
    } else if is_p2wsh(b) {
        TemplateKind::P2WSH
    } else if is_p2sh(b) {
        TemplateKind::P2SH
    } else if is_p2tr(b) {
        TemplateKind::P2TR
    } else {
        TemplateKind::Unrecognized
    }
}

/// Detect common scriptPubKey patterns from raw bytes. Total and
/// side-effect-free: every input is assigned exactly one kind.
pub fn classify_script_pubkey(b: &[u8]) -> (k: TemplateKind)
    ensures
        k == classify_spec(b@),
        k == TemplateKind::P2WPKH <==> is_p2wpkh(b@),
        k == TemplateKind::P2WSH <==> is_p2wsh(b@),
        k == TemplateKind::P2SH <==> is_p2sh(b@),
        k == TemplateKind::P2TR <==> is_p2tr(b@),
        k == TemplateKind::Unrecognized <==> !is_p2wpkh(b@) && !is_p2wsh(b@) && !is_p2sh(b@)
            && !is_p2tr(b@),
{
    proof {
        lemma_templates_exclusive(b@);
    }
    if b.len() == 22 && b[0] == 0x00 && b[1] == 0x14 {
        TemplateKind::P2WPKH
    } else if b.len() == 34 && b[0] == 0x00 && b[1] == 0x20 {
        TemplateKind::P2WSH
    } else if b.len() == 23 && b[0] == 0xa9 && b[1] == 0x14 && b[22] == 0x87 {
        TemplateKind::P2SH
    } else if b.len() == 34 && b[0] == 0x51 && b[1] == 0x20 {
        TemplateKind::P2TR
    } else {
        TemplateKind::Unrecognized
    }
}

/// The four template predicates are pairwise exclusive: no byte sequence
/// satisfies two of them (the lengths or the leading bytes differ).
pub proof fn lemma_templates_exclusive(b: Seq<u8>)
    ensures
        !(is_p2wpkh(b) && is_p2wsh(b)),
        !(is_p2wpkh(b) && is_p2sh(b)),
        !(is_p2wpkh(b) && is_p2tr(b)),
        !(is_p2wsh(b) && is_p2sh(b)),
        !(is_p2wsh(b) && is_p2tr(b)),
        !(is_p2sh(b) && is_p2tr(b)),
{
}

} // verus!
