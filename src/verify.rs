//! Verification of a signature `R || s` on a message `M` under a public key
//! `A`: the signature holds when `[s]B - [h]A` encodes to `R`, with
//! `h = SHA-512(R || A || M) mod L`.
use crate::challenge::{challenge_of, challenge_scalar};
use crate::curve::{
    base_point, base_point_encoding, decompresses, edwards_difference, edwards_product, is_valid_point,
    point_accepted, point_sub, scalar_mul,
};
use crate::encoding::canonical_point_encoding;
use crate::error::VerifyError;
use crate::scalar::{reduce_32, reduced_scalar};
use vstd::prelude::*;

verus! {

/// The outcome of the verification equation for commitment `r`, reduced
/// scalar `s`, challenge `h` and public key `a`: `Ok` of whether
/// `[s]B - [h]A` encodes to `r`, or an arithmetic failure where a group
/// operation refused an operand.
pub open spec fn equation_outcome(r: Seq<u8>, s: Seq<u8>, h: Seq<u8>, a: Seq<u8>) -> Result<
    bool,
    VerifyError,
> {
    match edwards_product(s, base_point_encoding()) {
        None => Err(VerifyError::ArithmeticFailure),
        Some(sb) => match edwards_product(h, a) {
            None => Err(VerifyError::ArithmeticFailure),
            Some(ha) => match edwards_difference(sb, ha) {
                None => Err(VerifyError::ArithmeticFailure),
                Some(rp) => Ok(rp == r),
            },
        },
    }
}

/// The result of verifying signature `sig` on message `msg` under public key
/// `pk`.
pub open spec fn verify_outcome(pk: Seq<u8>, sig: Seq<u8>, msg: Seq<u8>) -> Result<
    bool,
    VerifyError,
> {
    let r = sig.subrange(0, 32);
    if !point_accepted(pk) {
        Err(VerifyError::InvalidPublicKey)
    } else if !point_accepted(r) {
        Err(VerifyError::InvalidSignatureR)
    } else {
        equation_outcome(r, reduced_scalar(sig.subrange(32, 64)), challenge_of(r, pk, msg), pk)
    }
}

/// The two halves `R` and `s` of a signature.
fn split_signature(signature: &[u8; 64]) -> (halves: ([u8; 32], [u8; 32]))
    ensures
        halves.0@ == signature@.subrange(0, 32),
        halves.1@ == signature@.subrange(32, 64),
{
    let mut r = [0u8; 32];
    let mut s = [0u8; 32];
    let mut i: usize = 0;
    while i < 32
        invariant
            0 <= i <= 32,
            r@.len() == 32,
            s@.len() == 32,
            forall|j: int| 0 <= j < i ==> r@[j] == signature@[j],
            forall|j: int| 0 <= j < i ==> s@[j] == signature@[j + 32],
        decreases 32 - i,
    {
        r[i] = signature[i];
        s[i] = signature[i + 32];
        i = i + 1;
    }
    proof {
        assert(r@ =~= signature@.subrange(0, 32));
        assert(s@ =~= signature@.subrange(32, 64));
    }
    (r, s)
}

/// Whether the recomputed commitment `r_prime` is the commitment `r` of the
/// signature, compared on their encodings.
pub fn commitment_matches(r_prime: &[u8; 32], r: &[u8; 32]) -> (m: bool)
    ensures
        m == (r_prime@ == r@),
{
    let mut i: usize = 0;
    while i < 32
        invariant
            0 <= i <= 32,
            r_prime@.len() == 32,
            r@.len() == 32,
            forall|j: int| 0 <= j < i ==> r_prime@[j] == r@[j],
        decreases 32 - i,
    {
        if r_prime[i] != r[i] {
            return false;
        }
        i = i + 1;
    }
    proof {
        assert(r_prime@ =~= r@);
    }
    true
}

/// Verifies the 64-byte signature `R || s` on `message` under the 32-byte
/// public key: `Ok(true)` when it holds, `Ok(false)` when the inputs are
/// well-formed but the equation fails, and an error for an encoding that is not
/// accepted as a point.
pub fn verify_signature(pubkey: &[u8; 32], signature: &[u8; 64], message: &[u8]) -> (r: Result<
    bool,
    VerifyError,
>)
    ensures
        r == verify_outcome(pubkey@, signature@, message@),
        !canonical_point_encoding(pubkey@) ==> r == Err::<bool, VerifyError>(
            VerifyError::InvalidPublicKey,
        ),
        canonical_point_encoding(pubkey@) && decompresses(pubkey@) && !canonical_point_encoding(
            signature@.subrange(0, 32),
        ) ==> r == Err::<bool, VerifyError>(VerifyError::InvalidSignatureR),
        !point_accepted(pubkey@) ==> r == Err::<bool, VerifyError>(VerifyError::InvalidPublicKey),
        point_accepted(pubkey@) && !point_accepted(signature@.subrange(0, 32)) ==> r == Err::<
            bool,
            VerifyError,
        >(VerifyError::InvalidSignatureR),
{
    let (r_bytes, s_bytes) = split_signature(signature);
    if !is_valid_point(pubkey) {
        return Err(VerifyError::InvalidPublicKey);
    }
    if !is_valid_point(&r_bytes) {
        return Err(VerifyError::InvalidSignatureR);
    }
    let s = reduce_32(&s_bytes);
    let h = challenge_scalar(&r_bytes, pubkey, message);
    let b = base_point();
    let s_b = match scalar_mul(&s, &b) {
        Ok(p) => p,
        Err(e) => return Err(e),
    };
    let h_a = match scalar_mul(&h, pubkey) {
        Ok(p) => p,
        Err(e) => return Err(e),
    };
    let r_prime = match point_sub(&s_b, &h_a) {
        Ok(p) => p,
        Err(e) => return Err(e),
    };
    Ok(commitment_matches(&r_prime, &r_bytes))
}

/// Verification is a function of its inputs: two verifications of the same
/// public key, signature and message reach the same result.
pub proof fn lemma_verify_deterministic(
    pk: Seq<u8>,
    sig: Seq<u8>,
    msg: Seq<u8>,
    first: Result<bool, VerifyError>,
    second: Result<bool, VerifyError>,
)
    requires
        first == verify_outcome(pk, sig, msg),
        second == verify_outcome(pk, sig, msg),
    ensures
        first == second,
{
}

} // verus!
