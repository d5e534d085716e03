//! Ed25519 signature verification assembled from individual curve
//! primitives: point decoding with canonicity checks, scalar reduction,
//! challenge hashing and the verification equation `[s]B - [h]A == R`.

pub mod encoding;
pub mod scalar;
pub mod error;
pub mod curve;
pub mod challenge;
pub mod verify;
