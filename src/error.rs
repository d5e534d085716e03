//! The ways a verification can fail, as opposed to a signature that is
//! well-formed but does not verify.
use vstd::prelude::*;

verus! {

/// Why a verification did not reach a verdict.
#[derive(Debug, Clone, Copy, PartialEq, Eq, Structural)]
pub enum VerifyError {
    /// The public key is not the canonical encoding of a curve point.
    InvalidPublicKey,
    /// The first half of the signature is not the canonical encoding of a
    /// curve point.
    InvalidSignatureR,
    /// A group operation refused an operand.
    ArithmeticFailure,
}

} // verus!
