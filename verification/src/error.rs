//! The errors that signing and verification report.

use vstd::prelude::*;

verus! {

/// Why an input was refused.
#[derive(Clone, Copy, Debug, PartialEq, Eq, Structural)]
pub enum SignatureError {
    /// Key material has the wrong length, or does not encode a curve point.
    InvalidKey,
    /// A signature or a public key does not have its fixed byte length.
    InvalidEncoding,
}

} // verus!
