//! The challenge scalar `h = SHA-512(R || A || M) mod L` that binds the
//! signature's commitment, the public key and the message together.
use crate::scalar::{reduce_wide, reduced_scalar};
use vstd::prelude::*;

verus! {

/// The SHA-512 digest of a byte string.
pub uninterp spec fn sha512_of(m: Seq<u8>) -> Seq<u8>;

/// The challenge scalar for commitment `r`, public key `a` and message `m`.
pub open spec fn challenge_of(r: Seq<u8>, a: Seq<u8>, m: Seq<u8>) -> Seq<u8> {
    reduced_scalar(sha512_of(r + a + m))
}

/// Relies on sha2's `Sha512::digest`: the 64-byte SHA-512 digest of `data`,
/// which depends on the bytes alone.
#[verifier::external_body]
fn sha512(data: &[u8]) -> (r: [u8; 64])
    ensures
        r@ == sha512_of(data@),
{
    let digest = <sha2::Sha512 as sha2::Digest>::digest(data);
    let mut out = [0u8; 64];
    out.copy_from_slice(&digest);
    out
}

/// The hash input `r || a || m`, in that order.
pub fn challenge_input(r: &[u8; 32], a: &[u8; 32], m: &[u8]) -> (v: Vec<u8>)
    ensures
        v@ == r@ + a@ + m@,
{
    let mut v: Vec<u8> = Vec::new();
    v.extend_from_slice(r.as_slice());
    v.extend_from_slice(a.as_slice());
    v.extend_from_slice(m);
    proof {
        assert(v@ =~= r@ + a@ + m@);
    }
    v
}

/// The challenge scalar computed from a SHA-512 digest: the digest read as a
/// 512-bit little-endian integer and reduced modulo the group order.
pub fn challenge_from_digest(digest: &[u8; 64]) -> (h: [u8; 32])
    ensures
        h@ == reduced_scalar(digest@),
{
    reduce_wide(digest)
}

/// The challenge scalar `SHA-512(r || a || m) mod L`.
pub fn challenge_scalar(r: &[u8; 32], a: &[u8; 32], m: &[u8]) -> (h: [u8; 32])
    ensures
        h@ == challenge_of(r@, a@, m@),
{
    let input = challenge_input(r, a, m);
    let digest = sha512(input.as_slice());
    challenge_from_digest(&digest)
}

} // verus!
