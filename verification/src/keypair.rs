//! The key pair: a secret key together with the public key that belongs to it.

use crate::bytes::to_array;
use crate::error::SignatureError;
use crate::primitive::{
    derive_public_key, ed25519_key_decodes, ed25519_public_key, fresh_secret, PUBLIC_KEY_LENGTH,
    SECRET_KEY_LENGTH,
};
use vstd::prelude::*;

verus! {

/// Whether `public_key` is the public half of the secret `private_key`:
/// both have their fixed length, and the public key is the point encoding
/// that Ed25519 derives from the secret.
pub open spec fn is_key_pair(private_key: Seq<u8>, public_key: Seq<u8>) -> bool {
    &&& private_key.len() == SECRET_KEY_LENGTH
    &&& public_key.len() == PUBLIC_KEY_LENGTH
    &&& public_key == ed25519_public_key(private_key)
    &&& ed25519_key_decodes(public_key)
}

/// What a key pair holds, as plain byte sequences.
pub struct KeyPairView {
    pub private_key: Seq<u8>,
    pub public_key: Seq<u8>,
}

/// A 32-byte secret key and the 32-byte public key derived from it.
///
/// The fields are private and no method changes them, so a key pair stays
/// what its constructor made: the two halves always belong together.
pub struct KeyPair {
    private_key: [u8; SECRET_KEY_LENGTH],
    public_key: [u8; PUBLIC_KEY_LENGTH],
}

impl View for KeyPair {
    type V = KeyPairView;

    closed spec fn view(&self) -> KeyPairView {
        KeyPairView { private_key: self.private_key@, public_key: self.public_key@ }
    }
}

impl KeyPair {
    #[verifier::type_invariant]
    spec fn halves_belong_together(&self) -> bool {
        is_key_pair(self.private_key@, self.public_key@)
    }

    /// Derives the public key of `secret` and pairs the two.
    fn from_secret(secret: [u8; SECRET_KEY_LENGTH]) -> (pair: KeyPair)
        ensures
            pair@.private_key == secret@,
            is_key_pair(pair@.private_key, pair@.public_key),
    {
        let public_key: [u8; PUBLIC_KEY_LENGTH] = derive_public_key(&secret);
        KeyPair { private_key: secret, public_key }
    }

    /// The key pair whose secret key is `seed`: the same seed always gives
    /// the same pair. A seed that is not 32 bytes long is `InvalidKey`.
    pub fn from_seed(seed: &[u8]) -> (made: Result<KeyPair, SignatureError>)
        ensures
            made is Ok <==> seed@.len() == SECRET_KEY_LENGTH,
            made matches Ok(pair) ==> pair@.private_key == seed@,
            made matches Ok(pair) ==> is_key_pair(pair@.private_key, pair@.public_key),
            made matches Err(e) ==> e == SignatureError::InvalidKey,
    {
        match to_array::<SECRET_KEY_LENGTH>(seed) {
            Some(secret) => Ok(KeyPair::from_secret(secret)),
            None => Err(SignatureError::InvalidKey),
        }
    }

    /// A key pair with a fresh random secret key. Which secret comes back is
    /// open; whatever it is, the public key is the one that belongs to it.
    pub fn generate() -> (pair: KeyPair)
        ensures
            is_key_pair(pair@.private_key, pair@.public_key),
    {
        KeyPair::from_secret(fresh_secret())
    }

    /// The secret key.
    pub fn private_key(&self) -> (key: [u8; SECRET_KEY_LENGTH])
        ensures
            key@ == self@.private_key,
            is_key_pair(key@, self@.public_key),
    {
        proof {
            use_type_invariant(self);
        }
        self.private_key
    }

    /// The public key.
    pub fn public_key(&self) -> (key: [u8; PUBLIC_KEY_LENGTH])
        ensures
            key@ == self@.public_key,
            is_key_pair(self@.private_key, key@),
    {
        proof {
            use_type_invariant(self);
        }
        self.public_key
    }
}

} // verus!
