//! Plain data records describing users, chats, and messages. Inert
//! structures with no behavior of their own; the host layer owns their
//! serialization.
use vstd::prelude::*;

verus! {

pub type UserId = String;

pub type ChatId = String;

pub type MessageId = String;

#[derive(Clone, Debug)]
pub struct CoreUser {
    pub id: UserId,
    pub display_name: String,
    pub public_key_base64: String,
    pub tag: Option<String>,
    pub phone_number: Option<String>,
    pub avatar_base64: Option<String>,
}

#[derive(Clone, Debug)]
pub struct CoreChat {
    pub id: ChatId,
    pub participant_user_ids: Vec<UserId>,
}

/// Delivery status of a message.
#[derive(Clone, Copy, Debug, PartialEq, Eq, Structural)]
pub enum MessageDeliveryStatus {
    Sending,
    SentToServer,
    DeliveredToPeer,
    Read,
}

/// A message as the core stores it: only the sealed payload, never the text.
#[derive(Clone, Debug)]
pub struct CoreMessage {
    pub id: MessageId,
    pub chat_id: ChatId,
    pub sender_id: UserId,
    pub encrypted_payload_base64: String,
    pub created_at_ms: i64,
    pub status: MessageDeliveryStatus,
}

} // verus!
