//! The boundary to the Ed25519 primitive.
//!
//! No function in this file is proved. Each one calls `ed25519_dalek` (or,
//! for fresh randomness, `solana_sdk`) and carries a contract that is taken
//! on trust. The spec functions without a body give names to what those calls
//! return, so that the rest of the crate can state exact contracts.

use ed25519_dalek::{Signature, Signer, SigningKey, Verifier, VerifyingKey};
use solana_sdk::signature::Keypair;
use vstd::prelude::*;

verus! {

/// Length in bytes of a secret key.
pub const SECRET_KEY_LENGTH: usize = 32;

/// Length in bytes of a public key.
pub const PUBLIC_KEY_LENGTH: usize = 32;

/// Length in bytes of a signature.
pub const SIGNATURE_LENGTH: usize = 64;

/// The encoded public key that belongs to a 32-byte secret key: what
/// `SigningKey::from_bytes(secret).verifying_key().to_bytes()` returns.
pub uninterp spec fn ed25519_public_key(secret: Seq<u8>) -> Seq<u8>;

/// The signature of `message` under a 32-byte secret key: what
/// `SigningKey::from_bytes(secret).sign(message).to_bytes()` returns.
pub uninterp spec fn ed25519_signature(secret: Seq<u8>, message: Seq<u8>) -> Seq<u8>;

/// Whether 32 bytes encode a curve point, that is whether
/// `VerifyingKey::from_bytes` returns `Ok` on them.
pub uninterp spec fn ed25519_key_decodes(public_key: Seq<u8>) -> bool;

/// Whether the key decoded from `public_key` accepts the 64 bytes `signature`
/// for `message`, that is whether `Verifier::verify` returns `Ok`. It is
/// meant for key bytes that decode; of others nothing is said.
pub uninterp spec fn ed25519_accepts(
    public_key: Seq<u8>,
    message: Seq<u8>,
    signature: Seq<u8>,
) -> bool;

/// Calls `SigningKey::from_bytes`, `SigningKey::verifying_key` and
/// `VerifyingKey::to_bytes`.
///
/// Trusted: the result is a function of the secret alone, and it is the
/// encoding of a curve point, so `VerifyingKey::from_bytes` accepts it.
#[verifier::external_body]
pub(crate) fn derive_public_key(secret: &[u8; SECRET_KEY_LENGTH]) -> (public_key: [u8;
    PUBLIC_KEY_LENGTH])
    ensures
        public_key@ == ed25519_public_key(secret@),
        ed25519_key_decodes(public_key@),
{
    SigningKey::from_bytes(secret).verifying_key().to_bytes()
}

/// Calls `SigningKey::from_bytes`, `Signer::sign` and `Signature::to_bytes`.
///
/// Trusted: signing is deterministic, so the result is a function of the
/// secret and the message alone; and the public key of the same secret
/// accepts the signature for that message. The second claim is the
/// correctness of Ed25519, which the documentation of `ed25519_dalek` shows
/// in its sign-then-verify example.
#[verifier::external_body]
pub(crate) fn sign_with_secret(secret: &[u8; SECRET_KEY_LENGTH], message: &[u8]) -> (signature:
    [u8; SIGNATURE_LENGTH])
    ensures
        signature@ == ed25519_signature(secret@, message@),
        ed25519_accepts(ed25519_public_key(secret@), message@, signature@),
{
    SigningKey::from_bytes(secret).sign(message).to_bytes()
}

/// Calls `VerifyingKey::from_bytes`, then `Signature::from_bytes` and
/// `Verifier::verify` with the decoded key.
///
/// Trusted: both calls are functions of their arguments alone. The result is
/// `None` exactly where the key bytes do not decode, and otherwise says
/// whether `verify` returned `Ok`.
#[verifier::external_body]
pub(crate) fn verify_with_key(
    public_key: &[u8; PUBLIC_KEY_LENGTH],
    message: &[u8],
    signature: &[u8; SIGNATURE_LENGTH],
) -> (outcome: Option<bool>)
    ensures
        outcome is Some <==> ed25519_key_decodes(public_key@),
        outcome matches Some(accepted) ==> accepted == ed25519_accepts(
            public_key@,
            message@,
            signature@,
        ),
{
    match VerifyingKey::from_bytes(public_key) {
        Ok(key) => Some(key.verify(message, &Signature::from_bytes(signature)).is_ok()),
        Err(_) => None,
    }
}

/// Calls `Keypair::new`, which draws a secret key from the operating
/// system's random number generator, and `Keypair::secret_bytes`.
///
/// Nothing is promised of the bytes that come back: two calls may differ.
#[verifier::external_body]
pub(crate) fn fresh_secret() -> (secret: [u8; SECRET_KEY_LENGTH]) {
    *Keypair::new().secret_bytes()
}

} // verus!
