//! Scalars: integers reduced modulo the order of the base point.
use crate::encoding::{le_bytes, le_nat, pow256};
use vstd::arithmetic::div_mod::lemma_small_mod;
use vstd::prelude::*;

verus! {

/// The prime order `L = 2^252 + 27742317777372353535851937790883648493` of the
/// subgroup generated by the base point.
pub open spec fn group_order() -> nat {
    16 * pow256(31) + 27742317777372353535851937790883648493
}

/// The canonical 32-byte encoding of the little-endian value of `b` reduced
/// modulo the group order.
pub open spec fn reduced_scalar(b: Seq<u8>) -> Seq<u8> {
    le_bytes(le_nat(b) % group_order(), 32)
}

/// Relies on curve25519_dalek's `Scalar::from_bytes_mod_order`, read back with
/// `Scalar::to_bytes`: the 256-bit little-endian integer reduced modulo `L`.
#[verifier::external_body]
fn scalar_from_bytes_mod_order(b: [u8; 32]) -> (r: [u8; 32])
    ensures
        r@ == reduced_scalar(b@),
{
    curve25519_dalek::scalar::Scalar::from_bytes_mod_order(b).to_bytes()
}

/// Relies on curve25519_dalek's `Scalar::from_bytes_mod_order_wide`, read back
/// with `Scalar::to_bytes`: the 512-bit little-endian integer reduced modulo `L`.
#[verifier::external_body]
fn scalar_from_bytes_mod_order_wide(b: &[u8; 64]) -> (r: [u8; 32])
    ensures
        r@ == reduced_scalar(b@),
{
    curve25519_dalek::scalar::Scalar::from_bytes_mod_order_wide(b).to_bytes()
}

/// Reduces a 32-byte little-endian integer modulo the group order.
pub fn reduce_32(bytes: &[u8; 32]) -> (r: [u8; 32])
    ensures
        r@ == reduced_scalar(bytes@),
{
    scalar_from_bytes_mod_order(*bytes)
}

/// Reduces a 64-byte little-endian integer modulo the group order, as needed
/// for a 512-bit hash output.
pub fn reduce_wide(bytes: &[u8; 64]) -> (r: [u8; 32])
    ensures
        r@ == reduced_scalar(bytes@),
{
    scalar_from_bytes_mod_order_wide(bytes)
}

/// Reducing a 64-byte value `v` gives the same scalar as reducing any 32-byte
/// string `w` that holds `v mod L`: the wide and the narrow reduction agree on
/// the residue class.
pub proof fn lemma_reduce_wide_agrees(v: Seq<u8>, w: Seq<u8>)
    requires
        v.len() == 64,
        w.len() == 32,
        le_nat(w) == le_nat(v) % group_order(),
    ensures
        reduced_scalar(v) == reduced_scalar(w),
{
    lemma_small_mod(le_nat(w), group_order());
}

} // verus!
