use base64::Engine;
use chacha20poly1305::aead::{Aead, KeyInit, Payload};
use chat_crypto::boundary::{
    decrypt_message_base64, derive_shared_secret_base64, encrypt_message_base64,
    shared_secret_from_base64,
};
use chat_crypto::{
    ChatKey, CoreMessage, CryptoError, CryptoService, KeyManager, MessageDeliveryStatus,
};

fn b64(bytes: &[u8]) -> String {
    base64::engine::general_purpose::STANDARD.encode(bytes)
}

fn b64d(text: &str) -> Vec<u8> {
    base64::engine::general_purpose::STANDARD.decode(text).unwrap()
}

#[test]
fn public_key_encoding_round_trip() {
    let pair = KeyManager::generate_identity_keypair();
    let encoded = KeyManager::public_key_base64(&pair);
    let decoded = KeyManager::public_key_from_base64(&encoded).unwrap();
    assert_eq!(decoded.0, pair.public.0);
}

#[test]
fn private_key_export_import_round_trip() {
    let pair = KeyManager::generate_identity_keypair();
    let exported = KeyManager::export_private_key_base64(&pair);
    let imported = KeyManager::import_private_key_base64(&exported).unwrap();
    assert_eq!(imported.private.0, pair.private.0);
    assert_eq!(imported.public.0, pair.public.0);
}

#[test]
fn private_key_export_of_known_bytes() {
    let text = b64(&[0u8; 32]);
    assert_eq!(text.len(), 44);
    let imported = KeyManager::import_private_key_base64(&text).unwrap();
    assert_eq!(imported.private.0, [0u8; 32]);
    assert_eq!(KeyManager::export_private_key_base64(&imported), text);
}

#[test]
fn import_rejects_malformed_base64() {
    let r = KeyManager::import_private_key_base64("not base64!!");
    assert!(matches!(r, Err(CryptoError::Decode)));
}

#[test]
fn import_rejects_wrong_length() {
    let text = b64(&[7u8; 16]);
    let r = KeyManager::import_private_key_base64(&text);
    assert!(matches!(r, Err(CryptoError::Decode)));
}

#[test]
fn public_key_decode_rejects_malformed_input() {
    assert_eq!(
        KeyManager::public_key_from_base64("@@@@").unwrap_err(),
        CryptoError::Decode
    );
    let short = b64(&[1u8; 31]);
    assert_eq!(
        KeyManager::public_key_from_base64(&short).unwrap_err(),
        CryptoError::Decode
    );
}

#[test]
fn shared_secret_is_symmetric() {
    let a = KeyManager::generate_identity_keypair();
    let b = KeyManager::generate_identity_keypair();
    let ab = CryptoService::derive_shared_secret(&a.private, &b.public);
    let ba = CryptoService::derive_shared_secret(&b.private, &a.public);
    assert_eq!(ab, ba);
}

#[test]
fn shared_secret_matches_reference_curve() {
    let a = KeyManager::generate_identity_keypair();
    let b = KeyManager::generate_identity_keypair();
    let ours = CryptoService::derive_shared_secret(&a.private, &b.public);
    let secret = x25519_dalek::StaticSecret::from(a.private.0);
    let peer = x25519_dalek::PublicKey::from(b.public.0);
    let expected = secret.diffie_hellman(&peer).to_bytes();
    assert_eq!(ours, expected);
}

#[test]
fn public_key_matches_reference_curve() {
    let pair = KeyManager::generate_identity_keypair();
    let secret = x25519_dalek::StaticSecret::from(pair.private.0);
    let expected = *x25519_dalek::PublicKey::from(&secret).as_bytes();
    assert_eq!(pair.public.0, expected);
}

#[test]
fn each_encryption_uses_a_fresh_nonce() {
    let key = ChatKey([4u8; 32]);
    let chat = "chat-6".to_string();
    let sender = "fred".to_string();
    let s1 = CryptoService::encrypt_message(&key, "same text", &chat, &sender).unwrap();
    let s2 = CryptoService::encrypt_message(&key, "same text", &chat, &sender).unwrap();
    assert_ne!(s1, s2);
    assert_ne!(b64d(&s1)[..12], b64d(&s2)[..12]);
}

#[test]
fn chat_keys_differ_across_chats() {
    let shared = [9u8; 32];
    let k1 = CryptoService::derive_chat_key(&shared, &"chat-1".to_string());
    let k2 = CryptoService::derive_chat_key(&shared, &"chat-2".to_string());
    assert_ne!(k1.0, k2.0);
}

#[test]
fn chat_key_matches_reference_derivation() {
    let shared = [3u8; 32];
    let chat_id = "chat-77".to_string();
    let key = CryptoService::derive_chat_key(&shared, &chat_id);
    let hk = hkdf::Hkdf::<sha2::Sha256>::new(Some(chat_id.as_bytes()), &shared);
    let mut okm = [0u8; 32];
    hk.expand(b"chat-key", &mut okm).unwrap();
    assert_eq!(key.0, okm);
}

#[test]
fn message_round_trip() {
    let key = ChatKey([5u8; 32]);
    let chat = "chat-9".to_string();
    let sender = "alice".to_string();
    let text = "hello, \u{43f}\u{440}\u{438}\u{432}\u{435}\u{442} \u{1F600}";
    let sealed = CryptoService::encrypt_message(&key, text, &chat, &sender).unwrap();
    let opened = CryptoService::decrypt_message(&key, &sealed, &chat, &sender).unwrap();
    assert_eq!(opened, text);
}

#[test]
fn empty_message_round_trip() {
    let key = ChatKey([0u8; 32]);
    let chat = "c".to_string();
    let sender = "s".to_string();
    let sealed = CryptoService::encrypt_message(&key, "", &chat, &sender).unwrap();
    let opened = CryptoService::decrypt_message(&key, &sealed, &chat, &sender).unwrap();
    assert_eq!(opened, "");
}

#[test]
fn tampering_any_bit_fails_authentication() {
    let key = ChatKey([11u8; 32]);
    let chat = "chat-1".to_string();
    let sender = "alice".to_string();
    let sealed = CryptoService::encrypt_message(&key, "attack at dawn", &chat, &sender).unwrap();
    let raw = b64d(&sealed);
    for i in 0..raw.len() {
        for bit in 0..8 {
            let mut tampered = raw.clone();
            tampered[i] ^= 1u8 << bit;
            let text = b64(&tampered);
            let r = CryptoService::decrypt_message(&key, &text, &chat, &sender);
            assert_eq!(r.unwrap_err(), CryptoError::Aead);
        }
    }
}

#[test]
fn wrong_context_fails_authentication() {
    let key = ChatKey([13u8; 32]);
    let chat = "chat-1".to_string();
    let sender = "alice".to_string();
    let sealed = CryptoService::encrypt_message(&key, "hi", &chat, &sender).unwrap();
    let other_chat = "chat-2".to_string();
    let other_sender = "bob".to_string();
    assert_eq!(
        CryptoService::decrypt_message(&key, &sealed, &other_chat, &sender).unwrap_err(),
        CryptoError::Aead
    );
    assert_eq!(
        CryptoService::decrypt_message(&key, &sealed, &chat, &other_sender).unwrap_err(),
        CryptoError::Aead
    );
}

#[test]
fn wrong_key_fails_authentication() {
    let chat = "chat-1".to_string();
    let sender = "alice".to_string();
    let sealed =
        CryptoService::encrypt_message(&ChatKey([1u8; 32]), "hi", &chat, &sender).unwrap();
    let r = CryptoService::decrypt_message(&ChatKey([2u8; 32]), &sealed, &chat, &sender);
    assert_eq!(r.unwrap_err(), CryptoError::Aead);
}

#[test]
fn decrypt_rejects_malformed_base64() {
    let key = ChatKey([0u8; 32]);
    let chat = "c".to_string();
    let sender = "s".to_string();
    let r = CryptoService::decrypt_message(&key, "!!not-base64!!", &chat, &sender);
    assert_eq!(r.unwrap_err(), CryptoError::Decode);
}

#[test]
fn decrypt_rejects_envelope_shorter_than_nonce() {
    let key = ChatKey([0u8; 32]);
    let chat = "c".to_string();
    let sender = "s".to_string();
    let text = b64(&[1u8; 11]);
    let r = CryptoService::decrypt_message(&key, &text, &chat, &sender);
    assert_eq!(r.unwrap_err(), CryptoError::Aead);
}

#[test]
fn decrypt_rejects_recovered_bytes_that_are_not_text() {
    let key_bytes = [21u8; 32];
    let chat = "chat-1".to_string();
    let sender = "alice".to_string();
    let cipher =
        chacha20poly1305::ChaCha20Poly1305::new(chacha20poly1305::Key::from_slice(&key_bytes));
    let nonce = [7u8; 12];
    let aad = format!("{}|{}", chat, sender);
    let sealed = cipher
        .encrypt(
            chacha20poly1305::Nonce::from_slice(&nonce),
            Payload { msg: &[0xffu8, 0xfe, 0x00, 0x80], aad: aad.as_bytes() },
        )
        .unwrap();
    let mut raw = nonce.to_vec();
    raw.extend_from_slice(&sealed);
    let text = b64(&raw);
    let r = CryptoService::decrypt_message(&ChatKey(key_bytes), &text, &chat, &sender);
    assert_eq!(r.unwrap_err(), CryptoError::Decode);
}

#[test]
fn end_to_end_two_parties() {
    let a = KeyManager::generate_identity_keypair();
    let b = KeyManager::generate_identity_keypair();
    let shared = CryptoService::derive_shared_secret(&a.private, &b.public);
    let chat = "chat-42".to_string();
    let key = CryptoService::derive_chat_key(&shared, &chat);
    let ct = CryptoService::encrypt_message(&key, "hello", &chat, &"userA".to_string()).unwrap();
    let opened = CryptoService::decrypt_message(&key, &ct, &chat, &"userA".to_string()).unwrap();
    assert_eq!(opened, "hello");
    let r = CryptoService::decrypt_message(&key, &ct, &chat, &"userB".to_string());
    assert_eq!(r.unwrap_err(), CryptoError::Aead);
}

#[test]
fn both_parties_derive_identical_chat_keys() {
    let a = KeyManager::generate_identity_keypair();
    let b = KeyManager::generate_identity_keypair();
    let chat = "room-7".to_string();
    let ka = CryptoService::derive_chat_key(
        &CryptoService::derive_shared_secret(&a.private, &b.public),
        &chat,
    );
    let kb = CryptoService::derive_chat_key(
        &CryptoService::derive_shared_secret(&b.private, &a.public),
        &chat,
    );
    assert_eq!(ka.0, kb.0);
}

#[test]
fn now_ms_is_non_negative() {
    assert!(CryptoService::now_ms() >= 0);
}

#[test]
fn shared_secret_text_boundary() {
    let a = KeyManager::generate_identity_keypair();
    let b = KeyManager::generate_identity_keypair();
    let my_private = KeyManager::export_private_key_base64(&a);
    let peer_public = KeyManager::public_key_base64(&b);
    let shared_b64 = derive_shared_secret_base64(&my_private, &peer_public).unwrap();
    let expected = CryptoService::derive_shared_secret(&a.private, &b.public);
    assert_eq!(b64d(&shared_b64), expected.to_vec());
    let back = shared_secret_from_base64(&shared_b64).unwrap();
    assert_eq!(back, expected);
}

#[test]
fn shared_secret_text_boundary_rejects_bad_input() {
    assert_eq!(
        derive_shared_secret_base64("***", "***").unwrap_err(),
        CryptoError::Decode
    );
    let short = b64(&[1u8; 8]);
    assert_eq!(
        shared_secret_from_base64(&short).unwrap_err(),
        CryptoError::Decode
    );
}

#[test]
fn message_text_boundary_round_trip() {
    let shared_b64 = b64(&[17u8; 32]);
    let chat = "chat-5".to_string();
    let sender = "carol".to_string();
    let sealed = encrypt_message_base64(&shared_b64, &chat, &sender, "boundary text").unwrap();
    let opened = decrypt_message_base64(&shared_b64, &chat, &sender, &sealed).unwrap();
    assert_eq!(opened, "boundary text");
    let r = decrypt_message_base64(&shared_b64, &chat, &"mallory".to_string(), &sealed);
    assert_eq!(r.unwrap_err(), CryptoError::Aead);
}

#[test]
fn message_text_boundary_rejects_bad_secret() {
    let chat = "chat-5".to_string();
    let sender = "carol".to_string();
    let short = b64(&[17u8; 31]);
    assert_eq!(
        encrypt_message_base64(&short, &chat, &sender, "x").unwrap_err(),
        CryptoError::Decode
    );
    assert_eq!(
        decrypt_message_base64("%%%", &chat, &sender, "AAAA").unwrap_err(),
        CryptoError::Decode
    );
}

#[test]
fn core_message_holds_sealed_payload() {
    let key = ChatKey([2u8; 32]);
    let chat = "chat-3".to_string();
    let sender = "dave".to_string();
    let sealed = CryptoService::encrypt_message(&key, "stored text", &chat, &sender).unwrap();
    let message = CoreMessage {
        id: "m-1".to_string(),
        chat_id: chat.clone(),
        sender_id: sender.clone(),
        encrypted_payload_base64: sealed,
        created_at_ms: CryptoService::now_ms(),
        status: MessageDeliveryStatus::Sending,
    };
    assert_eq!(message.status, MessageDeliveryStatus::Sending);
    let opened =
        CryptoService::decrypt_message(&key, &message.encrypted_payload_base64, &chat, &sender)
            .unwrap();
    assert_eq!(opened, "stored text");
}

#[test]
fn envelope_layout_is_nonce_then_ciphertext_and_tag() {
    let key = ChatKey([8u8; 32]);
    let chat = "chat-8".to_string();
    let sender = "erin".to_string();
    let sealed = CryptoService::encrypt_message(&key, "abcde", &chat, &sender).unwrap();
    let raw = b64d(&sealed);
    assert_eq!(raw.len(), 12 + 5 + 16);
}
