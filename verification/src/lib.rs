//! Ed25519 message signing and verification over raw bytes.
//!
//! The crate offers two stateless operations, [`service::sign`] and
//! [`service::verify`], a [`keypair::KeyPair`] value type, and
//! [`signer::MessageSigner`], which owns a key pair and signs and verifies
//! with it. The Ed25519 arithmetic itself is done by `ed25519_dalek`; the
//! contracts here are stated over named results of that crate's functions.

pub mod bytes;
pub mod error;
pub mod keypair;
pub mod primitive;
pub mod service;
pub mod signer;
