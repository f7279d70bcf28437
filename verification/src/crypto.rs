//! The two outside calls the builder itself makes: hashing the sighash
//! preimage and drawing fresh random scalars.

use vstd::prelude::*;
use rand::RngCore;
use sha2::Digest;

verus! {

/// The 32-byte SHA-256 digest of a byte string; it depends on the bytes
/// alone.
pub uninterp spec fn sha256_of(data: Seq<u8>) -> Seq<u8>;

/// Relies on sha2's SHA-256 implementation: the digest of the input bytes.
#[verifier::external_body]
pub(crate) fn sha256(data: &Vec<u8>) -> (r: [u8; 32])
    ensures
        r@ == sha256_of(data@),
{
    let digest = sha2::Sha256::digest(data.as_slice());
    let mut r = [0u8; 32];
    r.copy_from_slice(&digest);
    r
}

/// Relies on rand's OsRng for 32 cryptographically secure random bytes;
/// nothing is promised of the value drawn.
#[verifier::external_body]
pub(crate) fn fresh_scalar_bytes() -> (r: [u8; 32]) {
    let mut r = [0u8; 32];
    rand::rngs::OsRng.fill_bytes(&mut r);
    r
}

} // verus!
