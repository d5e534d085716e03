use solana_zk_token_sdk::curve25519::edwards::{validate_edwards, PodEdwardsPoint};
use edwards_sig::error::VerifyError;
use edwards_sig::verify::{commitment_matches, verify_signature};
use solana_sdk::signature::{Keypair, Signer};

fn signed(message: &[u8]) -> ([u8; 32], [u8; 64]) {
    let keypair = Keypair::new();
    let signature = keypair.sign_message(message);
    (keypair.pubkey().to_bytes(), signature.into())
}

/// An encoding with y below p that does not decompress to a curve point.
fn off_curve_encoding() -> [u8; 32] {
    for y in 2u8..=255 {
        let mut b = [0u8; 32];
        b[0] = y;
        if !validate_edwards(&PodEdwardsPoint(b)) {
            return b;
        }
    }
    panic!("every small y decompressed");
}

#[test]
fn test_verify() -> Result<(), VerifyError> {
    let keypair = Keypair::new();
    let bytes_to_sign = b"Hello World! More bytes and stuff...";
    let signature = keypair.sign_message(bytes_to_sign);
    let verify = verify_signature(&keypair.pubkey().to_bytes(), &signature.into(), bytes_to_sign)?;
    assert!(verify);
    Ok(())
}

#[test]
fn test_verify_false() -> Result<(), VerifyError> {
    let keypair = Keypair::new();
    let bytes_to_sign = b"Hello World! More bytes and stuff...";
    let signature = keypair.sign_message(bytes_to_sign);
    let wrong_bytes = b"Hello World! These are not the bytes you are looking for...";
    let verify = verify_signature(&keypair.pubkey().to_bytes(), &signature.into(), wrong_bytes)?;
    assert!(!verify);
    Ok(())
}

#[test]
fn round_trip_on_several_messages() {
    let long = vec![0xa5u8; 1000];
    let messages: [&[u8]; 4] = [b"", b"x", b"Hello World! More bytes and stuff...", &long];
    for message in messages {
        let (pk, sig) = signed(message);
        assert_eq!(verify_signature(&pk, &sig, message), Ok(true));
    }
}

#[test]
fn tampered_message_is_not_accepted() {
    let message = b"Hello World! More bytes and stuff...".to_vec();
    let (pk, sig) = signed(&message);
    for i in 0..message.len() {
        let mut changed = message.clone();
        changed[i] ^= 0x01;
        assert_ne!(verify_signature(&pk, &sig, &changed), Ok(true));
    }
    let mut longer = message.clone();
    longer.push(0);
    assert_ne!(verify_signature(&pk, &sig, &longer), Ok(true));
}

#[test]
fn tampered_signature_is_not_accepted() {
    let message = b"tamper with the signature";
    let (pk, sig) = signed(message);
    for i in 0..64 {
        let mut changed = sig;
        changed[i] ^= 0x01;
        assert_ne!(verify_signature(&pk, &changed, message), Ok(true));
    }
}

#[test]
fn tampered_public_key_is_not_accepted() {
    let message = b"tamper with the key";
    let (pk, sig) = signed(message);
    for i in 0..32 {
        let mut changed = pk;
        changed[i] ^= 0x01;
        assert_ne!(verify_signature(&changed, &sig, message), Ok(true));
    }
}

#[test]
fn signature_under_another_key_is_false() {
    let message = b"one key, another key";
    let (_, sig) = signed(message);
    let (other_pk, _) = signed(message);
    assert_eq!(verify_signature(&other_pk, &sig, message), Ok(false));
}

#[test]
fn verification_is_deterministic() {
    let message = b"same inputs, same answer";
    let (pk, sig) = signed(message);
    let first = verify_signature(&pk, &sig, message);
    let second = verify_signature(&pk, &sig, message);
    assert_eq!(first, second);
    let other = b"other";
    assert_eq!(verify_signature(&pk, &sig, other), verify_signature(&pk, &sig, other));
}

#[test]
fn non_canonical_public_key_is_rejected() {
    let message = b"non-canonical key";
    let (_, sig) = signed(message);
    // y = 2^255 - 1, above p
    assert_eq!(verify_signature(&[0xff; 32], &sig, message), Err(VerifyError::InvalidPublicKey));
    // y = p + 1, an alias of y = 1 that still decompresses
    let mut alias = [0xffu8; 32];
    alias[0] = 0xee;
    alias[31] = 0x7f;
    assert_eq!(verify_signature(&alias, &sig, message), Err(VerifyError::InvalidPublicKey));
    // y = 1 with the sign bit set: x = 0 has no negative
    let mut signed_one = [0u8; 32];
    signed_one[0] = 1;
    signed_one[31] = 0x80;
    assert_eq!(verify_signature(&signed_one, &sig, message), Err(VerifyError::InvalidPublicKey));
}

#[test]
fn off_curve_public_key_is_rejected() {
    let message = b"off the curve";
    let (_, sig) = signed(message);
    let pk = off_curve_encoding();
    assert_eq!(verify_signature(&pk, &sig, message), Err(VerifyError::InvalidPublicKey));
}

#[test]
fn invalid_signature_r_is_rejected() {
    let message = b"bad commitment";
    let (pk, sig) = signed(message);
    let mut bad = sig;
    bad[..32].copy_from_slice(&[0xff; 32]);
    assert_eq!(verify_signature(&pk, &bad, message), Err(VerifyError::InvalidSignatureR));
    bad[..32].copy_from_slice(&off_curve_encoding());
    assert_eq!(verify_signature(&pk, &bad, message), Err(VerifyError::InvalidSignatureR));
}

#[test]
fn public_key_is_checked_before_signature_r() {
    let message = b"both bad";
    let (_, sig) = signed(message);
    let mut bad = sig;
    bad[..32].copy_from_slice(&[0xff; 32]);
    assert_eq!(verify_signature(&[0xff; 32], &bad, message), Err(VerifyError::InvalidPublicKey));
}

#[test]
fn commitments_compare_by_bytes() {
    let a = [7u8; 32];
    let mut b = a;
    assert!(commitment_matches(&a, &b));
    b[31] = 8;
    assert!(!commitment_matches(&a, &b));
}

#[test]
fn small_order_points_are_not_filtered() {
    // No cofactor check: the identity as key and commitment with s = 0
    // satisfies the equation for every message.
    let mut identity = [0u8; 32];
    identity[0] = 1;
    let mut sig = [0u8; 64];
    sig[..32].copy_from_slice(&identity);
    assert_eq!(verify_signature(&identity, &sig, b"any message"), Ok(true));
    assert_eq!(verify_signature(&identity, &sig, b""), Ok(true));
}
