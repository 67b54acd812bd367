//! Authentication of inbound requests: an Ed25519 signature over
//! `timestamp || body`, with signature and key given in hexadecimal.

use ed25519_dalek::{Signature, Verifier, VerifyingKey};
use vstd::prelude::*;
use vstd::string::*;

verus! {

/// Encoded length of a 64-byte signature.
pub const SIGNATURE_HEX_LEN: usize = 128;

/// Encoded length of a 32-byte public key.
pub const PUBLIC_KEY_HEX_LEN: usize = 64;

/// Why a request could not be checked at all.
#[derive(Debug, Clone, Copy, PartialEq, Eq)]
pub enum SignatureError {
    /// The signature has the right length but is not hexadecimal.
    InvalidSignatureHex,
    /// The public key has the right length but is not hexadecimal.
    InvalidPublicKeyHex,
    /// The public key bytes are not a point of the curve.
    InvalidPublicKey,
}

/// Value of one hexadecimal digit given as an ASCII byte, either case.
pub open spec fn hex_digit_value(b: u8) -> Option<int> {
    if 48 <= b <= 57 {
        Some(b - 48)
    } else if 65 <= b <= 70 {
        Some(b - 65 + 10)
    } else if 97 <= b <= 102 {
        Some(b - 97 + 10)
    } else {
        None
    }
}

/// The text is an even number of hexadecimal digits.
pub open spec fn is_hex(text: Seq<u8>) -> bool {
    text.len() % 2 == 0 && forall|i: int|
        0 <= i < text.len() ==> (#[trigger] hex_digit_value(text[i])) is Some
}

/// The bytes that hexadecimal text stands for: one per pair of digits, high digit first.
pub open spec fn hex_decoded(text: Seq<u8>) -> Seq<u8> {
    Seq::new(
        text.len() / 2,
        |i: int|
            (16 * hex_digit_value(text[2 * i]).unwrap() + hex_digit_value(
                text[2 * i + 1],
            ).unwrap()) as u8,
    )
}

/// Whether 32 bytes decompress to a curve point, as `VerifyingKey::from_bytes` decides it.
pub uninterp spec fn ed25519_key_decodes(key: Seq<u8>) -> bool;

/// Whether `signature` is accepted for `message` under the key encoded by `key`, as
/// `VerifyingKey::verify` decides it.
pub uninterp spec fn ed25519_signature_valid(
    key: Seq<u8>,
    message: Seq<u8>,
    signature: Seq<u8>,
) -> bool;

/// `hex::decode`: succeeds exactly on an even number of hexadecimal digits of either
/// case, and then yields one byte per pair, the first digit being the high nibble.
#[verifier::external_body]
fn hex_decode(text: &str) -> (res: Option<Vec<u8>>)
    ensures
        res is Some <==> is_hex(text.spec_bytes()),
        res matches Some(v) ==> v@ == hex_decoded(text.spec_bytes()),
{
    hex::decode(text).ok()
}

/// `ed25519_dalek::VerifyingKey::from_bytes`: reports whether the 32 bytes are accepted
/// as a public key. The outcome is a function of the bytes alone.
#[verifier::external_body]
fn key_decodes(key: &Vec<u8>) -> (res: bool)
    requires
        key@.len() == 32,
    ensures
        res == ed25519_key_decodes(key@),
{
    let bytes: [u8; 32] = key.as_slice().try_into().unwrap();
    VerifyingKey::from_bytes(&bytes).is_ok()
}

/// `ed25519_dalek::VerifyingKey::verify` on a key that decodes: reports whether the
/// 64-byte signature is accepted for the message. The outcome is a function of the
/// three byte strings alone.
#[verifier::external_body]
fn signature_valid(key: &Vec<u8>, message: &Vec<u8>, signature: &Vec<u8>) -> (res: bool)
    requires
        key@.len() == 32,
        signature@.len() == 64,
        ed25519_key_decodes(key@),
    ensures
        res == ed25519_signature_valid(key@, message@, signature@),
{
    let key_bytes: [u8; 32] = key.as_slice().try_into().unwrap();
    let signature_bytes: [u8; 64] = signature.as_slice().try_into().unwrap();
    let verifying_key = VerifyingKey::from_bytes(&key_bytes).unwrap();
    verifying_key.verify(message.as_slice(), &Signature::from_bytes(&signature_bytes)).is_ok()
}

/// What checking a request yields, over the UTF-8 bytes of the four inputs.
///
/// Wrong lengths are a plain `false`. Text of the right length that is not hexadecimal,
/// or a key that is no curve point, is an error. Otherwise the result is whether the
/// signature is accepted for the bytes of the timestamp followed by those of the body.
pub open spec fn verify_outcome(
    signature_hex: Seq<u8>,
    timestamp: Seq<u8>,
    body: Seq<u8>,
    public_key_hex: Seq<u8>,
) -> Result<bool, SignatureError> {
    if signature_hex.len() != SIGNATURE_HEX_LEN || public_key_hex.len() != PUBLIC_KEY_HEX_LEN {
        Ok(false)
    } else if !is_hex(signature_hex) {
        Err(SignatureError::InvalidSignatureHex)
    } else if !is_hex(public_key_hex) {
        Err(SignatureError::InvalidPublicKeyHex)
    } else {
        verdict(
            ed25519_key_decodes(hex_decoded(public_key_hex)),
            ed25519_signature_valid(
                hex_decoded(public_key_hex),
                timestamp + body,
                hex_decoded(signature_hex),
            ),
        )
    }
}

/// The result for well-formed hexadecimal input, from what the curve arithmetic decided.
pub open spec fn verdict(key_decodes: bool, signature_accepted: bool) -> Result<
    bool,
    SignatureError,
> {
    if key_decodes {
        Ok(signature_accepted)
    } else {
        Err(SignatureError::InvalidPublicKey)
    }
}

/// Turns the two decisions of the signature scheme into the verification result: a key
/// that does not decode is an error, otherwise the result is the acceptance itself.
pub fn verification_result(key_decodes: bool, signature_accepted: bool) -> (res: Result<
    bool,
    SignatureError,
>)
    ensures
        res == verdict(key_decodes, signature_accepted),
{
    if key_decodes {
        Ok(signature_accepted)
    } else {
        Err(SignatureError::InvalidPublicKey)
    }
}

/// Whether both encoded lengths are the fixed ones.
pub fn lengths_match(signature_hex: &str, public_key_hex: &str) -> (res: bool)
    ensures
        res == (signature_hex.spec_bytes().len() == SIGNATURE_HEX_LEN
            && public_key_hex.spec_bytes().len() == PUBLIC_KEY_HEX_LEN),
{
    signature_hex.as_bytes().len() == SIGNATURE_HEX_LEN && public_key_hex.as_bytes().len()
        == PUBLIC_KEY_HEX_LEN
}

/// Checks the signature of a request.
///
/// Never fails on malformed input: a signature or key of the wrong length gives
/// `Ok(false)` before anything is decoded.
pub fn verify_signature(
    signature_hex: &str,
    timestamp: &str,
    body: &str,
    public_key_hex: &str,
) -> (res: Result<bool, SignatureError>)
    ensures
        res == verify_outcome(
            signature_hex.spec_bytes(),
            timestamp.spec_bytes(),
            body.spec_bytes(),
            public_key_hex.spec_bytes(),
        ),
        signature_hex.spec_bytes().len() != SIGNATURE_HEX_LEN || public_key_hex.spec_bytes().len()
            != PUBLIC_KEY_HEX_LEN ==> res == Ok::<bool, SignatureError>(false),
{
    if !lengths_match(signature_hex, public_key_hex) {
        return Ok(false);
    }
    let signature = match hex_decode(signature_hex) {
        Some(bytes) => bytes,
        None => {
            return Err(SignatureError::InvalidSignatureHex);
        },
    };
    let key = match hex_decode(public_key_hex) {
        Some(bytes) => bytes,
        None => {
            return Err(SignatureError::InvalidPublicKeyHex);
        },
    };
    let mut message = timestamp.as_bytes_vec();
    message.extend_from_slice(body.as_bytes());
    assert(message@ =~= timestamp.spec_bytes() + body.spec_bytes());
    if !key_decodes(&key) {
        return verification_result(false, false);
    }
    let accepted = signature_valid(&key, &message, &signature);
    verification_result(true, accepted)
}

/// Verification is a function of its inputs, and reads timestamp and body only through
/// their concatenation: two requests with the same signature, the same key and the same
/// signed bytes get the same result.
pub proof fn lemma_verify_reads_signed_bytes(
    signature_hex: Seq<u8>,
    timestamp_a: Seq<u8>,
    body_a: Seq<u8>,
    timestamp_b: Seq<u8>,
    body_b: Seq<u8>,
    public_key_hex: Seq<u8>,
)
    requires
        timestamp_a + body_a == timestamp_b + body_b,
    ensures
        verify_outcome(signature_hex, timestamp_a, body_a, public_key_hex) == verify_outcome(
            signature_hex,
            timestamp_b,
            body_b,
            public_key_hex,
        ),
{
}

} // verus!
