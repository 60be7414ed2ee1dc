//! A signer that owns its key pair.

use crate::bytes::to_array;
use crate::error::SignatureError;
use crate::keypair::{is_key_pair, KeyPair, KeyPairView};
use crate::primitive::{
    ed25519_accepts, sign_with_secret, verify_with_key, PUBLIC_KEY_LENGTH, SECRET_KEY_LENGTH,
    SIGNATURE_LENGTH,
};
use crate::service::{sign_result, verification_outcome, verify_result};
use vstd::prelude::*;
use vstd::slice::slice_to_vec;

verus! {

/// Signs messages with the secret key of its key pair and verifies
/// signatures against the public key of the same pair.
pub struct MessageSigner {
    keypair: KeyPair,
}

impl View for MessageSigner {
    type V = KeyPairView;

    closed spec fn view(&self) -> KeyPairView {
        self.keypair@
    }
}

impl MessageSigner {
    /// A signer with a fresh random key pair.
    pub fn new() -> (signer: MessageSigner)
        ensures
            is_key_pair(signer@.private_key, signer@.public_key),
    {
        MessageSigner { keypair: KeyPair::generate() }
    }

    /// A signer that owns the given key pair.
    pub fn from_keypair(keypair: KeyPair) -> (signer: MessageSigner)
        ensures
            signer@ == keypair@,
    {
        MessageSigner { keypair }
    }

    /// The key pair that this signer owns.
    pub fn keypair(&self) -> (keypair: &KeyPair)
        ensures
            keypair@ == self@,
    {
        &self.keypair
    }

    /// Signs `message` and returns the 64 raw signature bytes.
    ///
    /// The signature is the one that `sign` gives for the signer's secret
    /// key, and verifying it for `message` under the signer's public key
    /// gives `Ok(true)`.
    pub fn sign_message_detailed(&self, message: &[u8]) -> (signature: Vec<u8>)
        ensures
            signature@.len() == SIGNATURE_LENGTH,
            sign_result(message@, self@.private_key) == Ok::<Seq<u8>, SignatureError>(signature@),
            verify_result(message@, signature@, self@.public_key) == Ok::<bool, SignatureError>(
                true,
            ),
    {
        let secret: [u8; SECRET_KEY_LENGTH] = self.keypair.private_key();
        let signature: [u8; SIGNATURE_LENGTH] = sign_with_secret(&secret, message);
        slice_to_vec(signature.as_slice())
    }

    /// Verifies `signature_bytes` for `message` under the signer's public key.
    ///
    /// Bytes that are not 64 long are `InvalidEncoding`. Any 64 bytes are
    /// answered with `Ok`: the signer's own public key always decodes, so
    /// `InvalidKey` cannot come out.
    pub fn verify_signature(&self, message: &[u8], signature_bytes: &[u8]) -> (verified: Result<
        bool,
        SignatureError,
    >)
        ensures
            verified == verify_result(message@, signature_bytes@, self@.public_key),
            signature_bytes@.len() == SIGNATURE_LENGTH ==> verified == Ok::<bool, SignatureError>(
                ed25519_accepts(self@.public_key, message@, signature_bytes@),
            ),
            signature_bytes@.len() != SIGNATURE_LENGTH ==> verified == Err::<bool, SignatureError>(
                SignatureError::InvalidEncoding,
            ),
    {
        let public_key: [u8; PUBLIC_KEY_LENGTH] = self.keypair.public_key();
        match to_array::<SIGNATURE_LENGTH>(signature_bytes) {
            Some(signature) => verification_outcome(
                verify_with_key(&public_key, message, &signature),
            ),
            None => Err(SignatureError::InvalidEncoding),
        }
    }
}

} // verus!
