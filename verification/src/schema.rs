//! The request and response records of the name-server and message-relay
//! protocol: name lookup, note relay, and the nullifier registry. The
//! server is a dumb store-and-forward; these records are what it carries.
//! Addresses, public keys and field elements travel as opaque
//! round-trippable strings, as agreed with the server.

use vstd::prelude::*;

use crate::cipher::EncryptedData;

verus! {

/// A user record as the server returns it; absent fields are `None`.
#[derive(Debug, Clone, PartialEq, Eq)]
pub struct User {
    pub id: Option<String>,
    pub has_double_spent: Option<bool>,
    pub nonce: Option<String>,
    pub username: Option<String>,
    pub pubkey: Option<String>,
    pub messages: Option<Vec<String>>,
    pub notes: Option<Vec<String>>,
    pub address: Option<String>,
}

/// The body of a user-creation request.
#[derive(Debug, Clone, PartialEq, Eq)]
pub struct CreateUserSchema {
    pub username: String,
    pub pubkey: String,
    pub nonce: String,
    pub address: String,
    pub messages: Vec<String>,
    pub notes: Vec<String>,
    pub has_double_spent: bool,
}

/// How a user is looked up: by username or by address.
#[derive(Debug, Clone, PartialEq, Eq)]
pub enum UserIdentifier {
    Username(String),
    Address(String),
}

/// The body of a user lookup.
#[derive(Debug, Clone, PartialEq, Eq)]
pub struct UserRequest {
    pub identifier: UserIdentifier,
}

/// A lookup wrapper used by the note-relay endpoints.
#[derive(Debug, Clone, PartialEq, Eq)]
pub struct IdentifierWrapper {
    pub identifier: UserIdentifier,
}

/// The body of a username-keyed request.
#[derive(Debug, Clone, PartialEq, Eq)]
pub struct UsernameRequest {
    pub username: String,
}

/// A note spelled out field by field, for endpoints that store one.
#[derive(Debug, Clone, PartialEq, Eq)]
pub struct SaveNoteRequestSchema {
    pub asset_hash: String,
    pub owner: String,
    pub value: u64,
    pub step: u32,
    pub parent_note: String,
    pub out_index: String,
    pub blind: String,
}

/// An encrypted history as relayed: the ciphertext, the receiver's
/// address, and the sender's username.
#[derive(Debug, Clone, PartialEq, Eq)]
pub struct SaveNoteHistoryRequestSchema {
    pub data: Vec<u8>,
    pub address: String,
    pub sender: String,
}

/// The body of a note transfer.
#[derive(Debug, Clone, PartialEq, Eq)]
pub struct NoteHistoryRequest {
    pub owner_username: Option<String>,
    pub recipient_username: String,
    pub note_history: SaveNoteHistoryRequestSchema,
    pub message: String,
}

/// A nullifier registration: the nullifier, the note and owner it came
/// from, the step it was spent at, and the state it closes.
#[derive(Debug, Clone, PartialEq, Eq)]
pub struct NoteNullifierSchema {
    pub nullifier: String,
    pub note: String,
    pub step: i32,
    pub owner: String,
    pub state: String,
}

/// A nullifier lookup.
#[derive(Debug, Clone, PartialEq, Eq)]
pub struct NullifierRequest {
    pub nullifier: String,
    pub state: String,
}

/// A note lookup by owner key and optional step.
#[derive(Debug, Clone, PartialEq, Eq)]
pub struct NoteRequest {
    pub owner_pub_key: String,
    pub step: Option<u32>,
}

/// A login challenge issued by the server.
#[derive(Debug, Clone, PartialEq, Eq)]
pub struct ChallengeSchema {
    pub challenge_id: String,
    pub user_id: String,
    pub created_at: i64,
    pub expires_at: i64,
}

/// A signed response to a login challenge.
#[derive(Debug, Clone, PartialEq, Eq)]
pub struct AuthData {
    pub username: String,
    pub signature_hex: String,
    pub challenge_id: String,
}

/// The registry's answer when a nullifier is stored or queried.
#[derive(Debug, Clone, PartialEq, Eq)]
pub struct NullifierResponseData {
    pub status: String,
    pub nullifier: NoteNullifierSchema,
}

/// The outcome of a nullifier query: found (a double-spend signal),
/// absent, or a registry failure.
#[derive(Debug, Clone, PartialEq, Eq)]
pub enum NullifierResponse {
    Found(NoteNullifierSchema),
    NotFound,
    Error,
}

/// The transport scheme of the relay service.
#[derive(Debug, Clone, Copy, PartialEq, Eq)]
pub enum HttpScheme {
    Http,
    Https,
}

/// The sender of a relayed note, as reported alongside it.
#[derive(Debug, Clone, PartialEq, Eq)]
pub struct Sender {
    pub username: String,
}

/// An encrypted history together with its receiver's user record.
#[derive(Debug, Clone, PartialEq, Eq)]
pub struct EncryptedNoteHistory {
    pub receiver: User,
    pub encrypted: EncryptedData,
}

/// A batch of relayed notes.
#[derive(Debug, Clone, PartialEq, Eq)]
pub struct Notes {
    pub notes: Vec<EncryptedNoteHistory>,
}

} // verus!
