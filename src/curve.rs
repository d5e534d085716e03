//! Points of the Edwards curve, exchanged as 32-byte compressed encodings,
//! and the group operations that the verification equation needs.
use crate::encoding::{canonical_point_encoding, is_canonical_point_encoding};
use crate::error::VerifyError;
use solana_zk_token_sdk::curve25519::edwards::PodEdwardsPoint;
use solana_zk_token_sdk::curve25519::scalar::PodScalar;
use vstd::prelude::*;

verus! {

/// Whether a 32-byte encoding decompresses to a point of the curve: the
/// y-coordinate read from its low 255 bits admits an x-coordinate on the curve.
pub uninterp spec fn decompresses(b: Seq<u8>) -> bool;

/// The encoding of `[s]P`, where `s` is a canonical scalar encoding and `P`
/// decompresses; `None` where an operand is refused.
pub uninterp spec fn edwards_product(s: Seq<u8>, p: Seq<u8>) -> Option<Seq<u8>>;

/// The encoding of `P - Q` where both operands decompress; `None` where an
/// operand is refused.
pub uninterp spec fn edwards_difference(p: Seq<u8>, q: Seq<u8>) -> Option<Seq<u8>>;

/// The encoding of the base point `B`: y = 4/5, x positive.
pub open spec fn base_point_encoding() -> Seq<u8> {
    Seq::new(32, |i: int| if i == 0 { 0x58u8 } else { 0x66u8 })
}

/// An encoding is accepted as a point when it is canonical and decompresses.
/// Points of small order are accepted: no cofactor check is made.
pub open spec fn point_accepted(b: Seq<u8>) -> bool {
    canonical_point_encoding(b) && decompresses(b)
}

/// The outcome of a group operation: a refused operand is an arithmetic
/// failure.
pub open spec fn operation_result(o: Option<Seq<u8>>) -> Result<Seq<u8>, VerifyError> {
    match o {
        Some(x) => Ok(x),
        None => Err(VerifyError::ArithmeticFailure),
    }
}

/// The bytes held by an optional encoding.
pub open spec fn option_view(o: Option<[u8; 32]>) -> Option<Seq<u8>> {
    match o {
        Some(x) => Some(x@),
        None => None,
    }
}

/// The bytes held by the outcome of a group operation.
pub open spec fn result_view(r: Result<[u8; 32], VerifyError>) -> Result<Seq<u8>, VerifyError> {
    match r {
        Ok(x) => Ok(x@),
        Err(e) => Err(e),
    }
}

/// Relies on solana_zk_token_sdk's `validate_edwards`: whether the encoding
/// decompresses to a curve point, which depends on the bytes alone.
#[verifier::external_body]
fn edwards_point_decompresses(b: &[u8; 32]) -> (r: bool)
    ensures
        r == decompresses(b@),
{
    solana_zk_token_sdk::curve25519::edwards::validate_edwards(&PodEdwardsPoint(*b))
}

/// Relies on solana_zk_token_sdk's `multiply_edwards`: the compressed product
/// of a scalar and a point, or `None` for a refused operand.
#[verifier::external_body]
fn multiply_edwards(s: &[u8; 32], p: &[u8; 32]) -> (r: Option<[u8; 32]>)
    ensures
        option_view(r) == edwards_product(s@, p@),
{
    solana_zk_token_sdk::curve25519::edwards::multiply_edwards(&PodScalar(*s), &PodEdwardsPoint(*p))
        .map(|x| x.0)
}

/// Relies on solana_zk_token_sdk's `subtract_edwards`: the compressed
/// difference of two points, or `None` for a refused operand.
#[verifier::external_body]
fn subtract_edwards(p: &[u8; 32], q: &[u8; 32]) -> (r: Option<[u8; 32]>)
    ensures
        option_view(r) == edwards_difference(p@, q@),
{
    solana_zk_token_sdk::curve25519::edwards::subtract_edwards(
        &PodEdwardsPoint(*p),
        &PodEdwardsPoint(*q),
    ).map(|x| x.0)
}

/// The encoding of the base point.
pub fn base_point() -> (r: [u8; 32])
    ensures
        r@ == base_point_encoding(),
{
    let mut b = [0x66u8; 32];
    b[0] = 0x58;
    proof {
        assert(b@ =~= base_point_encoding());
    }
    b
}

/// Whether `b` is accepted as a point: a canonical encoding that decompresses.
pub fn is_valid_point(b: &[u8; 32]) -> (r: bool)
    ensures
        r == point_accepted(b@),
{
    is_canonical_point_encoding(b) && edwards_point_decompresses(b)
}

/// `[scalar]point`, for a canonical scalar encoding and a point encoding.
pub fn scalar_mul(scalar: &[u8; 32], point: &[u8; 32]) -> (r: Result<[u8; 32], VerifyError>)
    ensures
        result_view(r) == operation_result(edwards_product(scalar@, point@)),
{
    match multiply_edwards(scalar, point) {
        Some(x) => Ok(x),
        None => Err(VerifyError::ArithmeticFailure),
    }
}

/// `p1 - p2`, for two point encodings.
pub fn point_sub(p1: &[u8; 32], p2: &[u8; 32]) -> (r: Result<[u8; 32], VerifyError>)
    ensures
        result_view(r) == operation_result(edwards_difference(p1@, p2@)),
{
    match subtract_edwards(p1, p2) {
        Some(x) => Ok(x),
        None => Err(VerifyError::ArithmeticFailure),
    }
}

} // verus!
