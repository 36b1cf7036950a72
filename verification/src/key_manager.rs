//! Long-lived identity key pairs: generation, base64 export and import of the
//! private scalar, and base64 transport of the public point.
use vstd::prelude::*;

use crate::CryptoError;
use crate::curve::{pk_of, x25519_public, x25519_random_secret};
use crate::encoding::{b64_decode, b64_encode, b64_of, bytes32_from_vec};

verus! {

/// A 32-byte X25519 public point; freely shareable.
#[derive(Clone, Copy, Debug)]
pub struct PublicKey(pub [u8; 32]);

/// A 32-byte X25519 private scalar; must never leave the owning device
/// unencrypted.
#[derive(Clone, Copy)]
pub struct PrivateKey(pub [u8; 32]);

/// A user's long-lived identity key pair.
pub struct IdentityKeyPair {
    pub private: PrivateKey,
    pub public: PublicKey,
}

impl IdentityKeyPair {
    /// The pair's invariant: the public point is the clamped base-point
    /// multiple of the private scalar.
    pub open spec fn wf(self) -> bool {
        self.public.0@ == pk_of(self.private.0@)
    }
}

pub struct KeyManager;

impl KeyManager {
    /// Samples a fresh private scalar from the secure random source and
    /// derives its public point. Always succeeds.
    pub fn generate_identity_keypair() -> (r: IdentityKeyPair)
        ensures
            r.wf(),
    {
        let private = PrivateKey(x25519_random_secret());
        let public = PublicKey(x25519_public(&private.0));
        IdentityKeyPair { private, public }
    }

    /// Encodes the raw 32-byte private scalar as base64 text. The caller must
    /// guard any backup of this text; the core does not protect it at rest.
    pub fn export_private_key_base64(pair: &IdentityKeyPair) -> (r: String)
        ensures
            r@ == b64_of(pair.private.0@),
    {
        b64_encode(pair.private.0.as_slice())
    }

    /// Reconstructs a key pair from base64 text of the private scalar.
    /// Fails with `Decode` when the text is not valid base64 or does not
    /// decode to exactly 32 bytes.
    pub fn import_private_key_base64(encoded: &str) -> (r: Result<IdentityKeyPair, CryptoError>)
        ensures
            r is Ok ==> r->Ok_0.wf() && encoded@ == b64_of(r->Ok_0.private.0@),
            forall|b: Seq<u8>|
                encoded@ == #[trigger] b64_of(b) ==> (r is Ok <==> b.len() == 32),
            forall|b: Seq<u8>|
                encoded@ == #[trigger] b64_of(b) && b.len() == 32 ==> r is Ok
                    && r->Ok_0.private.0@ == b,
            r is Err ==> r->Err_0 == CryptoError::Decode,
    {
        match b64_decode(encoded) {
            Ok(bytes) => {
                if bytes.len() == 32 {
                    let private = PrivateKey(bytes32_from_vec(&bytes));
                    let public = PublicKey(x25519_public(&private.0));
                    Ok(IdentityKeyPair { private, public })
                } else {
                    Err(CryptoError::Decode)
                }
            },
            Err(_) => Err(CryptoError::Decode),
        }
    }

    /// Encodes the 32-byte public point as base64 text.
    pub fn public_key_base64(pair: &IdentityKeyPair) -> (r: String)
        ensures
            r@ == b64_of(pair.public.0@),
    {
        b64_encode(pair.public.0.as_slice())
    }

    /// Decodes a peer's public point from base64 text. Fails with `Decode` on
    /// malformed base64 or a decoded length other than 32 bytes. No curve
    /// membership check is made: any 32 bytes are accepted as a point.
    pub fn public_key_from_base64(encoded: &str) -> (r: Result<PublicKey, CryptoError>)
        ensures
            r is Ok ==> encoded@ == b64_of(r->Ok_0.0@),
            forall|b: Seq<u8>|
                encoded@ == #[trigger] b64_of(b) ==> (r is Ok <==> b.len() == 32),
            forall|b: Seq<u8>|
                encoded@ == #[trigger] b64_of(b) && b.len() == 32 ==> r is Ok && r->Ok_0.0@ == b,
            r is Err ==> r->Err_0 == CryptoError::Decode,
    {
        match b64_decode(encoded) {
            Ok(bytes) => {
                if bytes.len() == 32 {
                    Ok(PublicKey(bytes32_from_vec(&bytes)))
                } else {
                    Err(CryptoError::Decode)
                }
            },
            Err(_) => Err(CryptoError::Decode),
        }
    }
}

} // verus!
