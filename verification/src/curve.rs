//! X25519 elliptic-curve operations: base-point multiplication and
//! Diffie-Hellman key agreement over raw 32-byte scalars and points.
use vstd::prelude::*;

verus! {

/// The 32-byte X25519 public point obtained by clamping a 32-byte private
/// scalar and multiplying the curve's base point by it. A function of the
/// scalar bytes alone.
pub uninterp spec fn pk_of(private: Seq<u8>) -> Seq<u8>;

/// The 32-byte X25519 Diffie-Hellman output of a 32-byte private scalar
/// (clamped during the multiplication) and a 32-byte public point. A function
/// of the two byte strings alone.
pub uninterp spec fn dh_of(private: Seq<u8>, public: Seq<u8>) -> Seq<u8>;

/// Relies on `x25519_dalek::PublicKey::from(&StaticSecret)`: computes the
/// public point of a private scalar by clamped base-point multiplication,
/// deterministically from the scalar bytes.
#[verifier::external_body]
pub(crate) fn x25519_public(private: &[u8; 32]) -> (r: [u8; 32])
    ensures
        r@ == pk_of(private@),
        r@.len() == 32,
{
    let secret = x25519_dalek::StaticSecret::from(*private);
    *x25519_dalek::PublicKey::from(&secret).as_bytes()
}

/// Relies on `x25519_dalek::StaticSecret::diffie_hellman`: multiplies the
/// peer's public point by the clamped private scalar, deterministically from
/// the two byte strings. The second clause is the Diffie-Hellman agreement
/// property that the crate documents with its two-party example: when the
/// peer's point is itself a public key, both parties compute the same output.
#[verifier::external_body]
pub(crate) fn x25519_shared(private: &[u8; 32], public: &[u8; 32]) -> (r: [u8; 32])
    ensures
        r@ == dh_of(private@, public@),
        r@.len() == 32,
        forall|other: Seq<u8>| public@ == #[trigger] pk_of(other) ==> r@ == dh_of(
            other,
            pk_of(private@),
        ),
{
    let secret = x25519_dalek::StaticSecret::from(*private);
    let peer = x25519_dalek::PublicKey::from(*public);
    secret.diffie_hellman(&peer).to_bytes()
}

/// Relies on `x25519_dalek::StaticSecret::random_from_rng` with the operating
/// system's entropy source (`rand_core::OsRng`): returns 32 freshly sampled
/// random bytes for use as a private scalar. Nothing is promised of the value.
#[verifier::external_body]
pub(crate) fn x25519_random_secret() -> (r: [u8; 32])
{
    x25519_dalek::StaticSecret::random_from_rng(rand_core::OsRng).to_bytes()
}

} // verus!
