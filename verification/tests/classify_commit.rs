use liftcheck::classify::classify_script_pubkey;
use liftcheck::commit::{bytes_eq, verify_p2sh_matches, verify_p2wsh_matches};
use liftcheck::TemplateKind;

fn sha256(b: &[u8]) -> Vec<u8> {
    let h = <miniscript::bitcoin::hashes::sha256::Hash as miniscript::bitcoin::hashes::Hash>::hash(b);
    miniscript::bitcoin::hashes::Hash::to_byte_array(h).to_vec()
}

fn hash160(b: &[u8]) -> Vec<u8> {
    let h =
        <miniscript::bitcoin::hashes::hash160::Hash as miniscript::bitcoin::hashes::Hash>::hash(b);
    miniscript::bitcoin::hashes::Hash::to_byte_array(h).to_vec()
}

fn p2wsh_spk(digest: &[u8]) -> Vec<u8> {
    let mut spk = vec![0x00u8, 0x20u8];
    spk.extend_from_slice(digest);
    spk
}

fn p2sh_spk(digest: &[u8]) -> Vec<u8> {
    let mut spk = vec![0xa9u8, 0x14u8];
    spk.extend_from_slice(digest);
    spk.push(0x87u8);
    spk
}

#[test]
fn classify_p2wpkh() {
    let mut spk = vec![0x00u8, 0x14u8];
    spk.extend_from_slice(&[0u8; 20]);
    assert_eq!(classify_script_pubkey(&spk), TemplateKind::P2WPKH);
}

#[test]
fn classify_p2wsh() {
    let spk = p2wsh_spk(&[7u8; 32]);
    assert_eq!(classify_script_pubkey(&spk), TemplateKind::P2WSH);
}

#[test]
fn classify_p2sh() {
    let spk = p2sh_spk(&[9u8; 20]);
    assert_eq!(classify_script_pubkey(&spk), TemplateKind::P2SH);
}

#[test]
fn classify_p2tr() {
    let mut spk = vec![0x51u8, 0x20u8];
    spk.extend_from_slice(&[3u8; 32]);
    assert_eq!(classify_script_pubkey(&spk), TemplateKind::P2TR);
}

#[test]
fn classify_unrecognized() {
    // Empty, wrong length, wrong prefix, wrong trailing byte.
    assert_eq!(classify_script_pubkey(&[]), TemplateKind::Unrecognized);
    assert_eq!(classify_script_pubkey(&[0x00, 0x14]), TemplateKind::Unrecognized);
    let mut almost_wpkh = vec![0x00u8, 0x15u8];
    almost_wpkh.extend_from_slice(&[0u8; 20]);
    assert_eq!(classify_script_pubkey(&almost_wpkh), TemplateKind::Unrecognized);
    let mut almost_sh = p2sh_spk(&[9u8; 20]);
    almost_sh[22] = 0x88;
    assert_eq!(classify_script_pubkey(&almost_sh), TemplateKind::Unrecognized);
}

#[test]
fn bytes_eq_exact_only() {
    assert!(bytes_eq(&[], &[]));
    assert!(bytes_eq(&[1, 2, 3], &[1, 2, 3]));
    assert!(!bytes_eq(&[1, 2, 3], &[1, 2]));
    assert!(!bytes_eq(&[1, 2, 3], &[1, 2, 4]));
}

#[test]
fn p2wsh_roundtrip_ok() {
    let inner = vec![0x51u8];
    let spk = p2wsh_spk(&sha256(&inner));
    assert!(verify_p2wsh_matches(&spk, &inner).is_ok());
}

#[test]
fn p2wsh_mutated_inner_mismatch() {
    let inner = vec![0x51u8, 0x21u8, 0x07u8];
    let spk = p2wsh_spk(&sha256(&inner));
    for i in 0..inner.len() {
        let mut bad = inner.clone();
        bad[i] ^= 0x01;
        let err = verify_p2wsh_matches(&spk, &bad).unwrap_err();
        assert_eq!(
            err,
            "witnessScript does not match P2WSH witness program (expected sha256(witnessScript))"
        );
    }
}

#[test]
fn p2wsh_rejects_other_template() {
    let inner = vec![0x51u8];
    let spk = p2sh_spk(&hash160(&inner));
    assert_eq!(verify_p2wsh_matches(&spk, &inner).unwrap_err(), "not a P2WSH scriptPubKey");
}

#[test]
fn p2sh_roundtrip_ok() {
    let inner = vec![0x51u8];
    let spk = p2sh_spk(&hash160(&inner));
    assert!(verify_p2sh_matches(&spk, &inner).is_ok());
}

#[test]
fn p2sh_mutated_inner_mismatch() {
    let inner = vec![0x51u8, 0x21u8, 0x07u8];
    let spk = p2sh_spk(&hash160(&inner));
    for i in 0..inner.len() {
        let mut bad = inner.clone();
        bad[i] ^= 0x01;
        let err = verify_p2sh_matches(&spk, &bad).unwrap_err();
        assert_eq!(
            err,
            "redeemScript does not match P2SH redeem hash (expected hash160(redeemScript))"
        );
    }
}

#[test]
fn p2sh_rejects_other_template() {
    let inner = vec![0x51u8];
    let spk = p2wsh_spk(&sha256(&inner));
    assert_eq!(verify_p2sh_matches(&spk, &inner).unwrap_err(), "not a P2SH scriptPubKey");
}
