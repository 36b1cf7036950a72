//! HKDF-SHA-256 extract-and-expand key derivation.
use vstd::prelude::*;

use hkdf::Hkdf;
use sha2::Sha256;

verus! {

/// The `n`-byte HKDF-SHA-256 output for the given salt, input key material,
/// and info label: extract with `salt` over `ikm`, then expand under `info`.
/// A function of its arguments alone.
pub uninterp spec fn hkdf_of(salt: Seq<u8>, ikm: Seq<u8>, info: Seq<u8>, n: nat) -> Seq<u8>;

/// Relies on `hkdf::Hkdf::<Sha256>::new` and `Hkdf::expand`: derives `n`
/// output bytes deterministically from salt, input key material, and info.
/// `expand` fails only when more than 255 hash blocks (8160 bytes) are
/// requested, which the precondition rules out.
#[verifier::external_body]
pub(crate) fn hkdf_sha256(salt: &[u8], ikm: &[u8], info: &[u8], n: usize) -> (r: Vec<u8>)
    requires
        n <= 8160,
    ensures
        r@ == hkdf_of(salt@, ikm@, info@, n as nat),
        r@.len() == n,
{
    let hk = Hkdf::<Sha256>::new(Some(salt), ikm);
    let mut okm = vec![0u8; n];
    hk.expand(info, &mut okm).expect("output length fits in 255 hash blocks");
    okm
}

} // verus!
