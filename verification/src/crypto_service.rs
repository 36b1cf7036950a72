//! Shared-secret derivation, per-chat key derivation, and authenticated
//! sealing and opening of message text.
use vstd::prelude::*;

use std::time::{SystemTime, UNIX_EPOCH};

use crate::CryptoError;
use crate::curve::{dh_of, pk_of, x25519_shared};
use crate::encoding::{b64_decode, b64_encode, b64_of, bytes32_from_vec, string_from_utf8};
use crate::kdf::{hkdf_of, hkdf_sha256};
use crate::key_manager::{IdentityKeyPair, PrivateKey, PublicKey};
use crate::models::{ChatId, UserId};
use crate::rng::random_bytes;
use crate::sealing::{aead_decrypt, aead_encrypt, seal_of};
use vstd::slice::slice_to_vec;
use vstd::utf8::{encode_utf8, encode_utf8_decode_utf8, encode_utf8_valid_utf8, valid_utf8};

verus! {

/// Symmetric 32-byte key of one chat, derived from a shared secret and the
/// chat identifier.
#[derive(Debug, Clone, Copy)]
pub struct ChatKey(pub [u8; 32]);

/// Joins the chat and sender identifiers in the associated data: the ASCII
/// code of the vertical bar.
pub const AAD_DELIMITER: u8 = 124;

/// Domain-separation label for chat-key derivation: the ASCII bytes of the
/// eight-character label text (`chat-key`).
pub open spec fn chat_key_info() -> Seq<u8> {
    seq![99u8, 104u8, 97u8, 116u8, 45u8, 107u8, 101u8, 121u8]
}

/// The chat key that a shared secret and a chat identifier determine:
/// HKDF-SHA-256 with the identifier's bytes as salt, the secret as input key
/// material, and the fixed label as info, expanded to 32 bytes.
pub open spec fn chat_key_of(secret: Seq<u8>, chat: Seq<char>) -> Seq<u8> {
    hkdf_of(encode_utf8(chat), secret, chat_key_info(), 32)
}

/// The associated data binding a ciphertext to its conversation and claimed
/// author: the chat identifier's bytes, the delimiter, the sender
/// identifier's bytes.
pub open spec fn aad_of(chat: Seq<char>, sender: Seq<char>) -> Seq<u8> {
    encode_utf8(chat).push(AAD_DELIMITER) + encode_utf8(sender)
}

/// The transport text of one sealed message: base64 of the nonce followed by
/// the ciphertext-with-tag for the given key, nonce, associated data, and
/// plaintext bytes.
pub open spec fn envelope_of(key: Seq<u8>, nonce: Seq<u8>, aad: Seq<u8>, msg: Seq<u8>) -> Seq<
    char,
> {
    b64_of(nonce + seal_of(key, nonce, aad, msg))
}

/// Law: the associated data binds the conversation and claimed author
/// uniquely. Whenever the chat identifiers' byte encodings are free of the
/// delimiter, two identifier pairs produce the same associated data only if
/// they are the same pair.
pub proof fn lemma_aad_injective(c1: Seq<char>, s1: Seq<char>, c2: Seq<char>, s2: Seq<char>)
    requires
        !encode_utf8(c1).contains(AAD_DELIMITER),
        !encode_utf8(c2).contains(AAD_DELIMITER),
        aad_of(c1, s1) == aad_of(c2, s2),
    ensures
        c1 == c2,
        s1 == s2,
{
    let a1 = encode_utf8(c1);
    let a2 = encode_utf8(c2);
    let b1 = encode_utf8(s1);
    let b2 = encode_utf8(s2);
    if a1.len() < a2.len() {
        assert(aad_of(c1, s1)[a1.len() as int] == AAD_DELIMITER);
        assert(aad_of(c2, s2)[a1.len() as int] == a2[a1.len() as int]);
        assert(a2.contains(a2[a1.len() as int]));
        assert(false);
    }
    if a2.len() < a1.len() {
        assert(aad_of(c2, s2)[a2.len() as int] == AAD_DELIMITER);
        assert(aad_of(c1, s1)[a2.len() as int] == a1[a2.len() as int]);
        assert(a1.contains(a1[a2.len() as int]));
        assert(false);
    }
    assert forall|i: int| 0 <= i < a1.len() implies a1[i] == a2[i] by {
        assert(aad_of(c1, s1)[i] == a1[i]);
        assert(aad_of(c2, s2)[i] == a2[i]);
    }
    assert(a1 =~= a2);
    assert(aad_of(c1, s1).len() == a1.len() + 1 + b1.len());
    assert(aad_of(c2, s2).len() == a2.len() + 1 + b2.len());
    assert(b1.len() == b2.len());
    assert forall|i: int| 0 <= i < b1.len() implies b1[i] == b2[i] by {
        assert(aad_of(c1, s1)[a1.len() + 1 + i] == b1[i]);
        assert(aad_of(c2, s2)[a2.len() + 1 + i] == b2[i]);
    }
    assert(b1 =~= b2);
    encode_utf8_decode_utf8(c1);
    encode_utf8_decode_utf8(c2);
    encode_utf8_decode_utf8(s1);
    encode_utf8_decode_utf8(s2);
}

/// Builds the associated data for a chat and sender identifier.
pub(crate) fn build_aad(chat_id: &str, sender_id: &str) -> (r: Vec<u8>)
    ensures
        r@ == aad_of(chat_id@, sender_id@),
{
    let mut aad = slice_to_vec(chat_id.as_bytes());
    aad.push(AAD_DELIMITER);
    let mut tail = slice_to_vec(sender_id.as_bytes());
    aad.append(&mut tail);
    proof {
        assert(aad@ =~= aad_of(chat_id@, sender_id@));
    }
    aad
}

/// Builds the domain-separation label bytes for chat-key derivation.
fn chat_key_info_bytes() -> (r: Vec<u8>)
    ensures
        r@ == chat_key_info(),
{
    let mut v: Vec<u8> = Vec::new();
    v.push(99);
    v.push(104);
    v.push(97);
    v.push(116);
    v.push(45);
    v.push(107);
    v.push(101);
    v.push(121);
    proof {
        assert(v@ =~= chat_key_info());
    }
    v
}

/// Relies on `std::time::SystemTime::now` and `duration_since` against the
/// Unix epoch: the clock's current reading in milliseconds. Non-negative;
/// not monotonic across clock adjustments.
#[verifier::external_body]
fn system_millis() -> (r: i64)
    ensures
        0 <= r,
{
    let now = SystemTime::now().duration_since(UNIX_EPOCH).expect("clock reads before the epoch");
    now.as_millis() as i64
}

/// Stateless service deriving keys and sealing or opening message text.
pub struct CryptoService;

impl CryptoService {
    /// Raw Diffie-Hellman between the local private scalar and the peer's
    /// public point. Deterministic; direction-symmetric whenever the peer's
    /// point is itself a derived public key.
    pub fn derive_shared_secret(my_private: &PrivateKey, peer_public: &PublicKey) -> (r: [u8; 32])
        ensures
            r@ == dh_of(my_private.0@, peer_public.0@),
            forall|other: Seq<u8>|
                peer_public.0@ == #[trigger] pk_of(other) ==> r@ == dh_of(
                    other,
                    pk_of(my_private.0@),
                ),
    {
        x25519_shared(&my_private.0, &peer_public.0)
    }

    /// The same agreement, taking the private scalar from an identity pair.
    pub fn derive_shared_secret_from_identities(me: &IdentityKeyPair, peer_public: &PublicKey) -> (r:
        [u8; 32])
        ensures
            r@ == dh_of(me.private.0@, peer_public.0@),
            forall|other: Seq<u8>|
                peer_public.0@ == #[trigger] pk_of(other) ==> r@ == dh_of(
                    other,
                    pk_of(me.private.0@),
                ),
    {
        Self::derive_shared_secret(&me.private, peer_public)
    }

    /// Derives the chat-scoped key from a shared secret and the chat
    /// identifier. A pure function of its inputs: both parties derive the
    /// identical key independently.
    pub fn derive_chat_key(shared_secret: &[u8; 32], chat_id: &ChatId) -> (r: ChatKey)
        ensures
            r.0@ == chat_key_of(shared_secret@, chat_id@),
    {
        let info = chat_key_info_bytes();
        let okm = hkdf_sha256(
            chat_id.as_str().as_bytes(),
            shared_secret.as_slice(),
            info.as_slice(),
            32,
        );
        ChatKey(bytes32_from_vec(&okm))
    }

    /// Seals message text for one chat and sender: a fresh random 12-byte
    /// nonce, authenticated encryption bound to the chat and sender
    /// identifiers, and base64 of nonce plus ciphertext-with-tag, which is 16
    /// bytes longer than the plaintext's encoding. Any failure of the random
    /// source or the cipher collapses to `Aead`.
    pub fn encrypt_message(
        chat_key: &ChatKey,
        plaintext: &str,
        chat_id: &ChatId,
        sender_id: &UserId,
    ) -> (r: Result<String, CryptoError>)
        ensures
            r is Ok ==> exists|nonce: Seq<u8>|
                nonce.len() == 12 && r->Ok_0@ == #[trigger] envelope_of(
                    chat_key.0@,
                    nonce,
                    aad_of(chat_id@, sender_id@),
                    encode_utf8(plaintext@),
                ) && seal_of(
                    chat_key.0@,
                    nonce,
                    aad_of(chat_id@, sender_id@),
                    encode_utf8(plaintext@),
                ).len() == encode_utf8(plaintext@).len() + 16,
            r is Err ==> r->Err_0 == CryptoError::Aead,
    {
        let nonce = match random_bytes(12) {
            Ok(n) => n,
            Err(_) => {
                return Err(CryptoError::Aead);
            },
        };
        let ghost nonce_view = nonce@;
        let aad = build_aad(chat_id.as_str(), sender_id.as_str());
        let sealed = match aead_encrypt(
            &chat_key.0,
            nonce.as_slice(),
            aad.as_slice(),
            plaintext.as_bytes(),
        ) {
            Ok(c) => c,
            Err(_) => {
                return Err(CryptoError::Aead);
            },
        };
        let mut combined = nonce;
        let mut tail = sealed;
        combined.append(&mut tail);
        let encoded = b64_encode(combined.as_slice());
        proof {
            assert(encoded@ == envelope_of(
                chat_key.0@,
                nonce_view,
                aad_of(chat_id@, sender_id@),
                encode_utf8(plaintext@),
            ));
            assert(seal_of(
                chat_key.0@,
                nonce_view,
                aad_of(chat_id@, sender_id@),
                encode_utf8(plaintext@),
            ).len() == encode_utf8(plaintext@).len() + 16);
        }
        Ok(encoded)
    }

    /// Opens a sealed envelope for one chat and expected sender. The error is
    /// fixed per cause: `Decode` on malformed base64 and on authenticated
    /// bytes that are not valid UTF-8; `Aead` on a decoded buffer too short
    /// for a nonce and on any authentication failure, one indistinguishable
    /// value for all of them. On success the envelope is, for some 12-byte
    /// nonce, exactly the sealing of the returned text under this key, chat,
    /// and sender; and every envelope of that form opens to its text.
    pub fn decrypt_message(
        chat_key: &ChatKey,
        encrypted_payload_base64: &str,
        chat_id: &ChatId,
        sender_id: &UserId,
    ) -> (r: Result<String, CryptoError>)
        ensures
            r is Ok ==> exists|nonce: Seq<u8>|
                nonce.len() == 12 && encrypted_payload_base64@ == #[trigger] envelope_of(
                    chat_key.0@,
                    nonce,
                    aad_of(chat_id@, sender_id@),
                    encode_utf8(r->Ok_0@),
                ),
            forall|nonce: Seq<u8>, msg: Seq<char>|
                nonce.len() == 12 && encrypted_payload_base64@ == #[trigger] envelope_of(
                    chat_key.0@,
                    nonce,
                    aad_of(chat_id@, sender_id@),
                    encode_utf8(msg),
                ) ==> r is Ok && r->Ok_0@ == msg,
            (forall|b: Seq<u8>| encrypted_payload_base64@ != #[trigger] b64_of(b)) ==> r is Err
                && r->Err_0 == CryptoError::Decode,
            forall|b: Seq<u8>|
                encrypted_payload_base64@ == #[trigger] b64_of(b) && b.len() < 12 ==> r is Err
                    && r->Err_0 == CryptoError::Aead,
            forall|nonce: Seq<u8>, m: Seq<u8>|
                nonce.len() == 12 && encrypted_payload_base64@ == #[trigger] envelope_of(
                    chat_key.0@,
                    nonce,
                    aad_of(chat_id@, sender_id@),
                    m,
                ) && !valid_utf8(m) ==> r is Err && r->Err_0 == CryptoError::Decode,
            forall|b: Seq<u8>|
                encrypted_payload_base64@ == #[trigger] b64_of(b) && 12 <= b.len() && (forall|
                    m: Seq<u8>,
                |
                    b.subrange(12, b.len() as int) != #[trigger] seal_of(
                        chat_key.0@,
                        b.subrange(0, 12),
                        aad_of(chat_id@, sender_id@),
                        m,
                    )) ==> r is Err && r->Err_0 == CryptoError::Aead,
    {
        let ghost key = chat_key.0@;
        let ghost aad_spec = aad_of(chat_id@, sender_id@);
        let raw = match b64_decode(encrypted_payload_base64) {
            Ok(v) => v,
            Err(_) => {
                return Err(CryptoError::Decode);
            },
        };
        if raw.len() < 12 {
            proof {
                assert forall|nonce: Seq<u8>, m: Seq<u8>|
                    !(nonce.len() == 12 && encrypted_payload_base64@ == #[trigger] envelope_of(
                        key,
                        nonce,
                        aad_spec,
                        m,
                    )) by {
                    if nonce.len() == 12 && encrypted_payload_base64@ == envelope_of(
                        key,
                        nonce,
                        aad_spec,
                        m,
                    ) {
                        assert(raw@ == nonce + seal_of(key, nonce, aad_spec, m));
                    }
                }
            }
            return Err(CryptoError::Aead);
        }
        let (nonce_part, ct) = raw.as_slice().split_at(12);
        let aad = build_aad(chat_id.as_str(), sender_id.as_str());
        proof {
            assert forall|nonce: Seq<u8>, m: Seq<u8>|
                nonce.len() == 12 && encrypted_payload_base64@ == #[trigger] envelope_of(
                    key,
                    nonce,
                    aad_spec,
                    m,
                ) implies nonce_part@ == nonce && ct@ == seal_of(key, nonce, aad_spec, m) by {
                assert(raw@ == nonce + seal_of(key, nonce, aad_spec, m));
                assert(nonce_part@ =~= nonce);
                assert(ct@ =~= seal_of(key, nonce, aad_spec, m));
            }
        }
        let clear = match aead_decrypt(&chat_key.0, nonce_part, aad.as_slice(), ct) {
            Ok(v) => v,
            Err(_) => {
                return Err(CryptoError::Aead);
            },
        };
        let ghost clear_view = clear@;
        let text = match string_from_utf8(clear) {
            Some(t) => t,
            None => {
                proof {
                    assert forall|nonce: Seq<u8>, msg: Seq<char>|
                        !(nonce.len() == 12 && encrypted_payload_base64@ == #[trigger] envelope_of(
                            key,
                            nonce,
                            aad_spec,
                            encode_utf8(msg),
                        )) by {
                        if nonce.len() == 12 && encrypted_payload_base64@ == envelope_of(
                            key,
                            nonce,
                            aad_spec,
                            encode_utf8(msg),
                        ) {
                            encode_utf8_valid_utf8(msg);
                        }
                    }
                    assert forall|b: Seq<u8>|
                        !(encrypted_payload_base64@ == #[trigger] b64_of(b) && 12 <= b.len() && (
                        forall|m: Seq<u8>|
                            b.subrange(12, b.len() as int) != #[trigger] seal_of(
                                key,
                                b.subrange(0, 12),
                                aad_spec,
                                m,
                            ))) by {
                        if encrypted_payload_base64@ == b64_of(b) && 12 <= b.len() {
                            assert(b == raw@);
                            assert(b.subrange(0, 12) =~= nonce_part@);
                            assert(b.subrange(12, b.len() as int) =~= ct@);
                            assert(b.subrange(12, b.len() as int) == seal_of(
                                key,
                                b.subrange(0, 12),
                                aad_spec,
                                clear_view,
                            ));
                        }
                    }
                }
                return Err(CryptoError::Decode);
            },
        };
        proof {
            assert(raw@ =~= nonce_part@ + ct@);
            assert(nonce_part@.len() == 12);
            assert(encrypted_payload_base64@ == envelope_of(
                key,
                nonce_part@,
                aad_spec,
                encode_utf8(text@),
            ));
            assert forall|nonce: Seq<u8>, msg: Seq<char>|
                nonce.len() == 12 && encrypted_payload_base64@ == #[trigger] envelope_of(
                    key,
                    nonce,
                    aad_spec,
                    encode_utf8(msg),
                ) implies text@ == msg by {
                assert(clear_view == encode_utf8(msg));
                encode_utf8_decode_utf8(text@);
                encode_utf8_decode_utf8(msg);
            }
            assert forall|nonce: Seq<u8>, m: Seq<u8>|
                !(nonce.len() == 12 && encrypted_payload_base64@ == #[trigger] envelope_of(
                    key,
                    nonce,
                    aad_spec,
                    m,
                ) && !valid_utf8(m)) by {
                if nonce.len() == 12 && encrypted_payload_base64@ == envelope_of(
                    key,
                    nonce,
                    aad_spec,
                    m,
                ) {
                    assert(clear_view == m);
                    assert(valid_utf8(clear_view));
                }
            }
            assert forall|b: Seq<u8>|
                !(encrypted_payload_base64@ == #[trigger] b64_of(b) && 12 <= b.len() && (forall|
                    m: Seq<u8>,
                |
                    b.subrange(12, b.len() as int) != #[trigger] seal_of(
                        key,
                        b.subrange(0, 12),
                        aad_spec,
                        m,
                    ))) by {
                if encrypted_payload_base64@ == b64_of(b) && 12 <= b.len() {
                    assert(b == raw@);
                    assert(b.subrange(0, 12) =~= nonce_part@);
                    assert(b.subrange(12, b.len() as int) =~= ct@);
                    assert(b.subrange(12, b.len() as int) == seal_of(
                        key,
                        b.subrange(0, 12),
                        aad_spec,
                        clear_view,
                    ));
                }
            }
        }
        let ghost text_view = text@;
        let result: Result<String, CryptoError> = Ok(text);
        proof {
            assert(result is Ok);
            assert(result->Ok_0@ == text_view);
            assert(exists|nonce: Seq<u8>|
                nonce.len() == 12 && encrypted_payload_base64@ == #[trigger] envelope_of(
                    chat_key.0@,
                    nonce,
                    aad_of(chat_id@, sender_id@),
                    encode_utf8(result->Ok_0@),
                ));
        }
        result
    }

    /// Milliseconds since the Unix epoch, for message metadata. Not required
    /// to be monotonic across clock adjustments.
    pub fn now_ms() -> (r: i64)
        ensures
            0 <= r,
    {
        system_millis()
    }
}

} // verus!
