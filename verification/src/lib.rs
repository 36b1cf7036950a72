pub mod boundary;
pub mod crypto_service;
pub mod curve;
pub mod encoding;
pub mod kdf;
pub mod key_manager;
pub mod models;
pub mod rng;
pub mod sealing;

pub use crypto_service::{ChatKey, CryptoService};
pub use key_manager::{IdentityKeyPair, KeyManager, PrivateKey, PublicKey};
pub use models::{ChatId, CoreChat, CoreMessage, CoreUser, MessageDeliveryStatus, MessageId, UserId};

use vstd::prelude::*;

verus! {

/// Errors reported by the key-management and message-sealing operations.
///
/// `Decode` covers malformed base64, a wrong decoded length for a key, and
/// recovered plaintext that is not valid UTF-8. `Aead` covers authentication
/// failure and an envelope too short to contain a nonce.
#[derive(Debug, Clone, Copy, PartialEq, Eq, Structural)]
pub enum CryptoError {
    Decode,
    Aead,
}

} // verus!
