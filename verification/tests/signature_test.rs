use ed25519_dalek::{Signer, SigningKey, VerifyingKey};
use stock_monitoring_bot::signature::{
    lengths_match, verification_result, verify_signature, SignatureError,
};

fn signing_key() -> SigningKey {
    let mut seed = [0u8; 32];
    for (i, b) in seed.iter_mut().enumerate() {
        *b = (i as u8).wrapping_mul(7).wrapping_add(3);
    }
    SigningKey::from_bytes(&seed)
}

fn signed(timestamp: &str, body: &str) -> (String, String) {
    let key = signing_key();
    let message = format!("{}{}", timestamp, body);
    let signature = key.sign(message.as_bytes());
    (hex::encode(signature.to_bytes()), hex::encode(key.verifying_key().to_bytes()))
}

#[test]
fn valid_signature_is_accepted_every_time() {
    let (signature, key) = signed("1700000000", "{\"type\":1}");
    assert_eq!(verify_signature(&signature, "1700000000", "{\"type\":1}", &key), Ok(true));
    assert_eq!(verify_signature(&signature, "1700000000", "{\"type\":1}", &key), Ok(true));
}

#[test]
fn upper_case_hex_is_accepted() {
    let (signature, key) = signed("1700000000", "body");
    let signature = signature.to_uppercase();
    let key = key.to_uppercase();
    assert_eq!(verify_signature(&signature, "1700000000", "body", &key), Ok(true));
}

#[test]
fn changed_body_is_rejected() {
    let (signature, key) = signed("1700000000", "{\"type\":1}");
    assert_eq!(verify_signature(&signature, "1700000000", "{\"type\":2}", &key), Ok(false));
}

#[test]
fn changed_timestamp_is_rejected() {
    let (signature, key) = signed("1700000000", "{\"type\":1}");
    assert_eq!(verify_signature(&signature, "1700000001", "{\"type\":1}", &key), Ok(false));
}

#[test]
fn only_the_concatenation_is_signed() {
    let (signature, key) = signed("1700000000", "abc");
    assert_eq!(verify_signature(&signature, "1700000000a", "bc", &key), Ok(true));
}

#[test]
fn changed_signature_is_rejected() {
    let (signature, key) = signed("1700000000", "abc");
    let first = if signature.starts_with('0') { "1" } else { "0" };
    let tampered = format!("{}{}", first, &signature[1..]);
    assert_eq!(verify_signature(&tampered, "1700000000", "abc", &key), Ok(false));
}

#[test]
fn wrong_signature_length_is_false_before_decoding() {
    let (_, key) = signed("t", "b");
    assert_eq!(verify_signature("zz", "t", "b", &key), Ok(false));
    assert_eq!(verify_signature("", "t", "b", &key), Ok(false));
    let long = "a".repeat(130);
    assert_eq!(verify_signature(&long, "t", "b", &key), Ok(false));
}

#[test]
fn wrong_key_length_is_false_before_decoding() {
    let (signature, _) = signed("t", "b");
    assert_eq!(verify_signature(&signature, "t", "b", "not hex"), Ok(false));
    assert_eq!(verify_signature(&signature, "t", "b", ""), Ok(false));
    let not_hex_signature = "z".repeat(128);
    assert_eq!(verify_signature(&not_hex_signature, "t", "b", "zz"), Ok(false));
}

#[test]
fn length_counts_bytes() {
    let wide = "é".repeat(64);
    assert_eq!(wide.len(), 128);
    let (_, key) = signed("t", "b");
    assert_eq!(
        verify_signature(&wide, "t", "b", &key),
        Err(SignatureError::InvalidSignatureHex)
    );
}

#[test]
fn signature_that_is_not_hex_is_an_error() {
    let (_, key) = signed("t", "b");
    let signature = "g".repeat(128);
    assert_eq!(
        verify_signature(&signature, "t", "b", &key),
        Err(SignatureError::InvalidSignatureHex)
    );
}

#[test]
fn key_that_is_not_hex_is_an_error() {
    let (signature, _) = signed("t", "b");
    let key = "x".repeat(64);
    assert_eq!(
        verify_signature(&signature, "t", "b", &key),
        Err(SignatureError::InvalidPublicKeyHex)
    );
}

#[test]
fn signature_hex_is_checked_before_key_hex() {
    let signature = "g".repeat(128);
    let key = "x".repeat(64);
    assert_eq!(
        verify_signature(&signature, "t", "b", &key),
        Err(SignatureError::InvalidSignatureHex)
    );
}

#[test]
fn key_off_the_curve_is_an_error() {
    let (signature, _) = signed("t", "b");
    let mut seen_off_curve = false;
    for fill in 0u8..=255 {
        let bytes = [fill; 32];
        let key = hex::encode(bytes);
        let result = verify_signature(&signature, "t", "b", &key);
        if VerifyingKey::from_bytes(&bytes).is_err() {
            seen_off_curve = true;
            assert_eq!(result, Err(SignatureError::InvalidPublicKey));
        } else {
            assert_eq!(result, Ok(false));
        }
    }
    assert!(seen_off_curve);
}

#[test]
fn verdict_follows_the_two_decisions() {
    assert_eq!(verification_result(true, true), Ok(true));
    assert_eq!(verification_result(true, false), Ok(false));
    assert_eq!(verification_result(false, true), Err(SignatureError::InvalidPublicKey));
    assert_eq!(verification_result(false, false), Err(SignatureError::InvalidPublicKey));
}

#[test]
fn lengths_are_fixed() {
    assert!(lengths_match(&"0".repeat(128), &"0".repeat(64)));
    assert!(!lengths_match(&"0".repeat(127), &"0".repeat(64)));
    assert!(!lengths_match(&"0".repeat(128), &"0".repeat(65)));
}
