//! The two stateless operations: signing a message and verifying a signature.
//!
//! Both take raw bytes of any length and check the fixed lengths themselves,
//! so neither has a precondition and neither panics.

use crate::bytes::to_array;
use crate::error::SignatureError;
use crate::keypair::is_key_pair;
use crate::primitive::{
    ed25519_accepts, ed25519_key_decodes, ed25519_signature, sign_with_secret, verify_with_key,
    PUBLIC_KEY_LENGTH, SECRET_KEY_LENGTH, SIGNATURE_LENGTH,
};
use vstd::prelude::*;
use vstd::slice::slice_to_vec;

verus! {

/// What `sign` returns: the signature under a 32-byte key, and
/// `InvalidKey` for a key of any other length.
pub open spec fn sign_result(message: Seq<u8>, signing_key: Seq<u8>) -> Result<
    Seq<u8>,
    SignatureError,
> {
    if signing_key.len() == SECRET_KEY_LENGTH {
        Ok(ed25519_signature(signing_key, message))
    } else {
        Err(SignatureError::InvalidKey)
    }
}

/// The verdict on the outcome of the primitive's check: a key that does not
/// decode is `InvalidKey`, a rejected signature is `Ok(false)`.
pub open spec fn outcome_verdict(outcome: Option<bool>) -> Result<bool, SignatureError> {
    match outcome {
        Some(accepted) => Ok(accepted),
        None => Err(SignatureError::InvalidKey),
    }
}

/// What `verify` returns. A signature that is not 64 bytes or a public key
/// that is not 32 bytes is `InvalidEncoding`; 32 bytes that encode no curve
/// point are `InvalidKey`; otherwise the result says whether the key accepts
/// the signature for the message, and a mismatch is `Ok(false)`, not an error.
pub open spec fn verify_result(
    message: Seq<u8>,
    signature: Seq<u8>,
    public_key: Seq<u8>,
) -> Result<bool, SignatureError> {
    if signature.len() != SIGNATURE_LENGTH || public_key.len() != PUBLIC_KEY_LENGTH {
        Err(SignatureError::InvalidEncoding)
    } else if !ed25519_key_decodes(public_key) {
        Err(SignatureError::InvalidKey)
    } else {
        Ok(ed25519_accepts(public_key, message, signature))
    }
}

/// The bytes of a signing result, in place of the vector that holds them.
pub open spec fn signed_bytes(signed: Result<Vec<u8>, SignatureError>) -> Result<
    Seq<u8>,
    SignatureError,
> {
    match signed {
        Ok(signature) => Ok(signature@),
        Err(e) => Err(e),
    }
}

/// Signs `message` with the 32-byte secret `signing_key`.
///
/// The signature is 64 bytes long and depends on the message and the key
/// alone. Under every public key that forms a key pair with `signing_key`,
/// verifying the returned signature for `message` gives `Ok(true)`.
pub fn sign(message: &[u8], signing_key: &[u8]) -> (signed: Result<Vec<u8>, SignatureError>)
    ensures
        signed_bytes(signed) == sign_result(message@, signing_key@),
        signed matches Ok(signature) ==> signature@.len() == SIGNATURE_LENGTH,
        forall|public_key: Seq<u8>| #[trigger]
            is_key_pair(signing_key@, public_key) ==> (signed matches Ok(signature)
                && verify_result(message@, signature@, public_key) == Ok::<bool, SignatureError>(
                true,
            )),
{
    match to_array::<SECRET_KEY_LENGTH>(signing_key) {
        Some(secret) => {
            let signature: [u8; SIGNATURE_LENGTH] = sign_with_secret(&secret, message);
            Ok(slice_to_vec(signature.as_slice()))
        },
        None => Err(SignatureError::InvalidKey),
    }
}

/// Turns the outcome of the primitive's check into the result of `verify`.
pub fn verification_outcome(outcome: Option<bool>) -> (verdict: Result<bool, SignatureError>)
    ensures
        verdict == outcome_verdict(outcome),
{
    match outcome {
        Some(accepted) => Ok(accepted),
        None => Err(SignatureError::InvalidKey),
    }
}

/// Verifies `signature` for `message` under `public_key`.
///
/// Returns `Ok(true)` if and only if the lengths are right, the key decodes
/// and the key accepts the signature for the message.
pub fn verify(message: &[u8], signature: &[u8], public_key: &[u8]) -> (verified: Result<
    bool,
    SignatureError,
>)
    ensures
        verified == verify_result(message@, signature@, public_key@),
{
    let signature_bytes: [u8; SIGNATURE_LENGTH] = match to_array::<SIGNATURE_LENGTH>(signature) {
        Some(bytes) => bytes,
        None => return Err(SignatureError::InvalidEncoding),
    };
    let key_bytes: [u8; PUBLIC_KEY_LENGTH] = match to_array::<PUBLIC_KEY_LENGTH>(public_key) {
        Some(bytes) => bytes,
        None => return Err(SignatureError::InvalidEncoding),
    };
    verification_outcome(verify_with_key(&key_bytes, message, &signature_bytes))
}

/// Signing is deterministic: equal messages and equal keys give equal
/// results, byte for byte.
pub proof fn sign_is_deterministic(
    message_a: Seq<u8>,
    key_a: Seq<u8>,
    message_b: Seq<u8>,
    key_b: Seq<u8>,
)
    requires
        message_a =~= message_b,
        key_a =~= key_b,
    ensures
        sign_result(message_a, key_a) == sign_result(message_b, key_b),
{
}

/// A signature or a public key of the wrong length is an encoding error,
/// whatever the message and the other bytes are: never `Ok(false)`.
pub proof fn wrong_length_is_invalid_encoding(
    message: Seq<u8>,
    signature: Seq<u8>,
    public_key: Seq<u8>,
)
    requires
        signature.len() != SIGNATURE_LENGTH || public_key.len() != PUBLIC_KEY_LENGTH,
    ensures
        verify_result(message, signature, public_key) == Err::<bool, SignatureError>(
            SignatureError::InvalidEncoding,
        ),
{
}

/// A signature that does not match is no error: under the public key of a
/// key pair, every 64 bytes are answered with `Ok`, a mismatch with
/// `Ok(false)`.
pub proof fn mismatch_is_not_an_error(
    message: Seq<u8>,
    signature: Seq<u8>,
    private_key: Seq<u8>,
    public_key: Seq<u8>,
)
    requires
        is_key_pair(private_key, public_key),
        signature.len() == SIGNATURE_LENGTH,
    ensures
        verify_result(message, signature, public_key) == Ok::<bool, SignatureError>(
            ed25519_accepts(public_key, message, signature),
        ),
{
}

} // verus!
