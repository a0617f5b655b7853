//! Signature verification against real keyed hashes.

use limail::signature::{verify, VerifyError};

fn sign(key: &str, timestamp: i64, token: &str) -> Vec<u8> {
    let mut mac = <hmac::Hmac<sha2::Sha256> as hmac::KeyInit>::new_from_slice(key.as_bytes())
        .expect("HMAC accepts keys of any length");
    hmac::Mac::update(&mut mac, format!("{}{}", timestamp, token).as_bytes());
    hmac::Mac::finalize(mac).into_bytes().to_vec()
}

#[test]
fn genuine_signature_is_accepted() {
    let key = "key-SECRET-REDACTED";
    let tag = sign(key, 1571666400, "tok-abc123");
    assert_eq!(verify(key, 1571666400, "tok-abc123", &hex::encode(&tag)), Ok(()));
}

#[test]
fn genuine_signature_with_negative_timestamp_is_accepted() {
    let key = "another-key";
    let tag = sign(key, -5, "t");
    assert_eq!(verify(key, -5, "t", &hex::encode(&tag)), Ok(()));
}

#[test]
fn flipped_byte_is_a_mismatch() {
    let key = "key-SECRET-REDACTED";
    let mut tag = sign(key, 1571666400, "tok-abc123");
    tag[7] ^= 0x01;
    assert_eq!(
        verify(key, 1571666400, "tok-abc123", &hex::encode(&tag)),
        Err(VerifyError::SignatureMismatch)
    );
}

#[test]
fn every_single_flipped_byte_is_a_mismatch() {
    let key = "key-SECRET-REDACTED";
    let tag = sign(key, 1571666400, "tok-abc123");
    for i in 0..tag.len() {
        let mut forged = tag.clone();
        forged[i] ^= 0x80;
        assert_eq!(
            verify(key, 1571666400, "tok-abc123", &hex::encode(&forged)),
            Err(VerifyError::SignatureMismatch)
        );
    }
}

#[test]
fn wrong_token_is_a_mismatch() {
    let key = "key-SECRET-REDACTED";
    let tag = sign(key, 1571666400, "tok-abc123");
    assert_eq!(
        verify(key, 1571666400, "tok-other", &hex::encode(&tag)),
        Err(VerifyError::SignatureMismatch)
    );
}

#[test]
fn odd_length_hex_fails_to_decode() {
    assert_eq!(
        verify("k", 0, "t", "abc"),
        Err(VerifyError::DecodeError)
    );
}

#[test]
fn non_hex_characters_fail_to_decode() {
    assert_eq!(
        verify("k", 0, "t", "zz00"),
        Err(VerifyError::DecodeError)
    );
}

#[test]
fn non_ascii_token_signs_over_its_utf8_bytes() {
    let key = "key-SECRET-REDACTED";
    let tag = sign(key, 1571666400, "tök-ünïcode");
    assert_eq!(verify(key, 1571666400, "tök-ünïcode", &hex::encode(&tag)), Ok(()));
}

#[test]
fn upper_case_hex_decodes() {
    let key = "key-SECRET-REDACTED";
    let tag = sign(key, 42, "tok");
    assert_eq!(verify(key, 42, "tok", &hex::encode(&tag).to_uppercase()), Ok(()));
}
