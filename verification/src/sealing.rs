//! ChaCha20-Poly1305 authenticated encryption with associated data.
use vstd::prelude::*;

use chacha20poly1305::aead::{Aead, KeyInit, Payload};
use chacha20poly1305::{ChaCha20Poly1305, Key, Nonce};

verus! {

/// The ciphertext-with-tag that ChaCha20-Poly1305 produces for a 32-byte key,
/// a 12-byte nonce, associated data, and a plaintext: the keystream-encrypted
/// plaintext followed by the 16-byte Poly1305 tag over the associated data and
/// the ciphertext. A function of its arguments alone.
pub uninterp spec fn seal_of(key: Seq<u8>, nonce: Seq<u8>, aad: Seq<u8>, msg: Seq<u8>) -> Seq<u8>;

#[verifier::external_type_specification]
#[verifier::external_body]
pub struct ExAeadError(chacha20poly1305::Error);

/// Relies on `chacha20poly1305::aead::Aead::encrypt` for `ChaCha20Poly1305`:
/// on success the result is the deterministic ciphertext-with-tag for the
/// given key, nonce, associated data, and plaintext, 16 bytes longer than the
/// plaintext.
#[verifier::external_body]
pub(crate) fn aead_encrypt(key: &[u8; 32], nonce: &[u8], aad: &[u8], msg: &[u8]) -> (r: Result<
    Vec<u8>,
    chacha20poly1305::Error,
>)
    requires
        nonce@.len() == 12,
    ensures
        r is Ok ==> r->Ok_0@ == seal_of(key@, nonce@, aad@, msg@),
        r is Ok ==> r->Ok_0@.len() == msg@.len() + 16,
{
    let cipher = ChaCha20Poly1305::new(Key::from_slice(key));
    let payload = Payload { msg, aad };
    cipher.encrypt(Nonce::from_slice(nonce), payload)
}

/// Relies on `chacha20poly1305::aead::Aead::decrypt` for `ChaCha20Poly1305`.
/// Decryption succeeds exactly when the Poly1305 tag verifies: on success the
/// input is the sealing of the returned plaintext under the given key, nonce,
/// and associated data, and every sealed ciphertext opens back to its
/// plaintext.
#[verifier::external_body]
pub(crate) fn aead_decrypt(key: &[u8; 32], nonce: &[u8], aad: &[u8], ct: &[u8]) -> (r: Result<
    Vec<u8>,
    chacha20poly1305::Error,
>)
    requires
        nonce@.len() == 12,
    ensures
        r is Ok ==> ct@ == seal_of(key@, nonce@, aad@, r->Ok_0@),
        forall|m: Seq<u8>| ct@ == #[trigger] seal_of(key@, nonce@, aad@, m) ==> r is Ok
            && r->Ok_0@ == m,
{
    let cipher = ChaCha20Poly1305::new(Key::from_slice(key));
    let payload = Payload { msg: ct, aad };
    cipher.decrypt(Nonce::from_slice(nonce), payload)
}

} // verus!
