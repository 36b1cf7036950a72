//! Text-level operations for a host boundary that exchanges keys, shared
//! secrets, and envelopes as base64 strings. Each function takes and returns
//! plain text values so that a thin marshaling layer can expose it directly.
use vstd::prelude::*;

use crate::CryptoError;
use crate::crypto_service::{aad_of, chat_key_of, envelope_of, CryptoService};
use crate::curve::dh_of;
use crate::encoding::{b64_decode, b64_encode, b64_of, bytes32_from_vec};
use crate::key_manager::KeyManager;
use crate::models::{ChatId, UserId};
use crate::sealing::seal_of;
use vstd::utf8::{encode_utf8, valid_utf8};

verus! {

/// Decodes base64 text of a 32-byte shared secret. Fails with `Decode` on
/// malformed base64 or a decoded length other than 32 bytes.
pub fn shared_secret_from_base64(encoded: &str) -> (r: Result<[u8; 32], CryptoError>)
    ensures
        r is Ok ==> encoded@ == b64_of(r->Ok_0@),
        forall|b: Seq<u8>| encoded@ == #[trigger] b64_of(b) ==> (r is Ok <==> b.len() == 32),
        forall|b: Seq<u8>|
            encoded@ == #[trigger] b64_of(b) && b.len() == 32 ==> r is Ok && r->Ok_0@ == b,
        r is Err ==> r->Err_0 == CryptoError::Decode,
{
    match b64_decode(encoded) {
        Ok(bytes) => {
            if bytes.len() == 32 {
                Ok(bytes32_from_vec(&bytes))
            } else {
                Err(CryptoError::Decode)
            }
        },
        Err(_) => Err(CryptoError::Decode),
    }
}

/// Imports the local private key and the peer's public key from base64 text,
/// computes their Diffie-Hellman shared secret, and returns it as base64.
pub fn derive_shared_secret_base64(my_private_b64: &str, peer_public_b64: &str) -> (r: Result<
    String,
    CryptoError,
>)
    ensures
        forall|p: Seq<u8>, q: Seq<u8>|
            my_private_b64@ == #[trigger] b64_of(p) && peer_public_b64@ == #[trigger] b64_of(q)
                && p.len() == 32 && q.len() == 32 ==> r is Ok && r->Ok_0@ == b64_of(dh_of(p, q)),
        forall|p: Seq<u8>|
            my_private_b64@ == #[trigger] b64_of(p) && p.len() != 32 ==> r is Err,
        forall|p: Seq<u8>, q: Seq<u8>|
            my_private_b64@ == #[trigger] b64_of(p) && p.len() == 32 && peer_public_b64@
                == #[trigger] b64_of(q) && q.len() != 32 ==> r is Err,
        r is Err ==> r->Err_0 == CryptoError::Decode,
{
    let pair = match KeyManager::import_private_key_base64(my_private_b64) {
        Ok(p) => p,
        Err(e) => {
            return Err(e);
        },
    };
    let peer = match KeyManager::public_key_from_base64(peer_public_b64) {
        Ok(p) => p,
        Err(e) => {
            return Err(e);
        },
    };
    let shared = CryptoService::derive_shared_secret_from_identities(&pair, &peer);
    Ok(b64_encode(shared.as_slice()))
}

/// Decodes a base64 shared secret, derives the chat key, and seals the
/// plaintext for the given chat and sender. Fails with `Decode` on a
/// malformed or wrong-length secret, and with `Aead` when sealing fails.
pub fn encrypt_message_base64(
    shared_b64: &str,
    chat_id: &ChatId,
    sender_id: &UserId,
    plaintext: &str,
) -> (r: Result<String, CryptoError>)
    ensures
        forall|s: Seq<u8>|
            shared_b64@ == #[trigger] b64_of(s) && s.len() == 32 && r is Ok ==> exists|
                nonce: Seq<u8>,
            |
                nonce.len() == 12 && r->Ok_0@ == #[trigger] envelope_of(
                    chat_key_of(s, chat_id@),
                    nonce,
                    aad_of(chat_id@, sender_id@),
                    encode_utf8(plaintext@),
                ) && seal_of(
                    chat_key_of(s, chat_id@),
                    nonce,
                    aad_of(chat_id@, sender_id@),
                    encode_utf8(plaintext@),
                ).len() == encode_utf8(plaintext@).len() + 16,
        forall|s: Seq<u8>|
            shared_b64@ == #[trigger] b64_of(s) && s.len() == 32 && r is Err ==> r->Err_0
                == CryptoError::Aead,
        forall|s: Seq<u8>|
            shared_b64@ == #[trigger] b64_of(s) && s.len() != 32 ==> r is Err && r->Err_0
                == CryptoError::Decode,
{
    let shared = match shared_secret_from_base64(shared_b64) {
        Ok(s) => s,
        Err(e) => {
            return Err(e);
        },
    };
    let chat_key = CryptoService::derive_chat_key(&shared, chat_id);
    CryptoService::encrypt_message(&chat_key, plaintext, chat_id, sender_id)
}

/// Decodes a base64 shared secret, derives the chat key, and opens a sealed
/// envelope for the given chat and expected sender. Every envelope sealed
/// under that key and context opens to its text; on success the envelope is
/// exactly such a sealing. Once the secret is well-formed, the error is
/// fixed per cause exactly as for `CryptoService::decrypt_message`.
pub fn decrypt_message_base64(
    shared_b64: &str,
    chat_id: &ChatId,
    sender_id: &UserId,
    encrypted_b64: &str,
) -> (r: Result<String, CryptoError>)
    ensures
        forall|s: Seq<u8>, nonce: Seq<u8>, msg: Seq<char>|
            shared_b64@ == #[trigger] b64_of(s) && s.len() == 32 && nonce.len() == 12
                && encrypted_b64@ == #[trigger] envelope_of(
                chat_key_of(s, chat_id@),
                nonce,
                aad_of(chat_id@, sender_id@),
                encode_utf8(msg),
            ) ==> r is Ok && r->Ok_0@ == msg,
        forall|s: Seq<u8>|
            shared_b64@ == #[trigger] b64_of(s) && s.len() == 32 && r is Ok ==> exists|
                nonce: Seq<u8>,
            |
                nonce.len() == 12 && encrypted_b64@ == #[trigger] envelope_of(
                    chat_key_of(s, chat_id@),
                    nonce,
                    aad_of(chat_id@, sender_id@),
                    encode_utf8(r->Ok_0@),
                ),
        forall|s: Seq<u8>|
            shared_b64@ == #[trigger] b64_of(s) && s.len() != 32 ==> r is Err && r->Err_0
                == CryptoError::Decode,
        forall|s: Seq<u8>|
            shared_b64@ == #[trigger] b64_of(s) && s.len() == 32 && (forall|b: Seq<u8>|
                encrypted_b64@ != #[trigger] b64_of(b)) ==> r is Err && r->Err_0
                == CryptoError::Decode,
        forall|s: Seq<u8>, b: Seq<u8>|
            shared_b64@ == #[trigger] b64_of(s) && s.len() == 32 && encrypted_b64@
                == #[trigger] b64_of(b) && b.len() < 12 ==> r is Err && r->Err_0
                == CryptoError::Aead,
        forall|s: Seq<u8>, nonce: Seq<u8>, m: Seq<u8>|
            shared_b64@ == #[trigger] b64_of(s) && s.len() == 32 && nonce.len() == 12
                && encrypted_b64@ == #[trigger] envelope_of(
                chat_key_of(s, chat_id@),
                nonce,
                aad_of(chat_id@, sender_id@),
                m,
            ) && !valid_utf8(m) ==> r is Err && r->Err_0 == CryptoError::Decode,
        forall|s: Seq<u8>, b: Seq<u8>|
            shared_b64@ == #[trigger] b64_of(s) && s.len() == 32 && encrypted_b64@
                == #[trigger] b64_of(b) && 12 <= b.len() && (forall|m: Seq<u8>|
                b.subrange(12, b.len() as int) != #[trigger] seal_of(
                    chat_key_of(s, chat_id@),
                    b.subrange(0, 12),
                    aad_of(chat_id@, sender_id@),
                    m,
                )) ==> r is Err && r->Err_0 == CryptoError::Aead,
{
    let shared = match shared_secret_from_base64(shared_b64) {
        Ok(s) => s,
        Err(e) => {
            return Err(e);
        },
    };
    let ghost sec = shared@;
    let chat_key = CryptoService::derive_chat_key(&shared, chat_id);
    let r = CryptoService::decrypt_message(&chat_key, encrypted_b64, chat_id, sender_id);
    proof {
        assert forall|s: Seq<u8>, b: Seq<u8>|
            shared_b64@ == #[trigger] b64_of(s) && s.len() == 32 && encrypted_b64@
                == #[trigger] b64_of(b) && 12 <= b.len() && (forall|m: Seq<u8>|
                b.subrange(12, b.len() as int) != #[trigger] seal_of(
                    chat_key_of(s, chat_id@),
                    b.subrange(0, 12),
                    aad_of(chat_id@, sender_id@),
                    m,
                )) implies r is Err && r->Err_0 == CryptoError::Aead by {
            assert(sec == s);
            assert(chat_key.0@ == chat_key_of(s, chat_id@));
            assert forall|m: Seq<u8>|
                b.subrange(12, b.len() as int) != #[trigger] seal_of(
                    chat_key.0@,
                    b.subrange(0, 12),
                    aad_of(chat_id@, sender_id@),
                    m,
                ) by {
                assert(seal_of(chat_key.0@, b.subrange(0, 12), aad_of(chat_id@, sender_id@), m)
                    == seal_of(
                    chat_key_of(s, chat_id@),
                    b.subrange(0, 12),
                    aad_of(chat_id@, sender_id@),
                    m,
                ));
            }
        }
    }
    r
}

} // verus!
