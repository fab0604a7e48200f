use bore::auth::challenge;
use bore::auth::fresh_connection_id;
use bore::auth::prove;
use bore::auth::verify;

#[test]
fn proof_verifies_for_same_secret_and_nonce() {
    let secret = b"s3cret";
    let nonce: u128 = 0x1122_3344_5566_7788_99aa_bbcc_ddee_ff00;
    let p = prove(secret, nonce);
    assert_eq!(p.len(), 32);
    assert!(verify(secret, nonce, p.as_slice()));
}

#[test]
fn proof_fails_for_other_secret() {
    let nonce: u128 = 12345;
    let p = prove(b"s3cret", nonce);
    assert!(!verify(b"wrong", nonce, p.as_slice()));
    assert!(!verify(b"", nonce, p.as_slice()));
}

#[test]
fn proof_fails_for_other_nonce() {
    let secret = b"s3cret";
    let p = prove(secret, 1);
    assert!(!verify(secret, 2, p.as_slice()));
}

#[test]
fn proof_fails_when_tampered() {
    let secret = b"s3cret";
    let nonce: u128 = 77;
    let mut p = prove(secret, nonce);
    p[0] ^= 1;
    assert!(!verify(secret, nonce, p.as_slice()));
    let short = &p[..31];
    assert!(!verify(secret, nonce, short));
}

#[test]
fn nonces_and_ids_are_drawn_fresh() {
    // Random 128-bit draws; a repeat would be astronomically unlikely.
    assert_ne!(challenge(), challenge());
    assert_ne!(fresh_connection_id(), fresh_connection_id());
}
