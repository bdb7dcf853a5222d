//! Local storage: where the databases live, how their keys are derived, the
//! records they hold, and the status updates of stored messages.
use vstd::prelude::*;

use crate::crypto::{
    argon2id_key, random_bytes_32, sha256, spec_argon2id_key, spec_sha256, Argon2Failure, Argon2Outcome,
};
use crate::text::{hex_encode, hex_spec, push_str, str_eq};

verus! {

/// Name of the master database file.
pub open spec fn master_db_name() -> Seq<char> {
    "master.db"@
}

/// `base` joined with the relative name `name` (Unix paths): a separator is
/// added unless `base` is empty or already ends with one; an absolute name
/// replaces `base`.
pub open spec fn join_path(base: Seq<char>, name: Seq<char>) -> Seq<char> {
    if name.len() > 0 && name[0] == '/' {
        name
    } else if base.len() == 0 || base.last() == '/' {
        base + name
    } else {
        base + seq!['/'] + name
    }
}

/// Joins a path and a file name.
pub fn join(base: &str, name: &str) -> (r: String)
    ensures
        r@ == join_path(base@, name@),
{
    let mut s = String::new();
    if starts_with_slash(name) {
        push_str(&mut s, name);
        return s;
    }
    push_str(&mut s, base);
    if !base.is_empty() && !ends_with_slash(base) {
        crate::text::push_char(&mut s, '/');
    }
    push_str(&mut s, name);
    s
}

fn starts_with_slash(s: &str) -> (r: bool)
    ensures
        r == (s@.len() > 0 && s@[0] == '/'),
{
    let mut r = false;
    let mut first = true;
    for c in it: s.chars()
        invariant
            it.seq() == s@,
            first == (it.index() == 0),
            !first ==> r == (s@[0] == '/'),
            first ==> !r,
    {
        if first {
            r = c == '/';
            first = false;
        }
    }
    r
}

fn ends_with_slash(s: &str) -> (r: bool)
    ensures
        r == (s@.len() > 0 && s@.last() == '/'),
{
    let mut r = false;
    for c in it: s.chars()
        invariant
            it.seq() == s@,
            it.index() > 0 ==> r == (s@[it.index() - 1] == '/'),
            it.index() == 0 ==> !r,
    {
        r = c == '/';
    }
    r
}

/// Name of the folder that holds the databases.
pub open spec fn db_folder_name() -> Seq<char> {
    "database"@
}

/// Name of the folder that holds the databases.
pub fn db_folder() -> (r: &'static str)
    ensures
        r@ == db_folder_name(),
{
    "database"
}

/// Whether an executable runs from a cargo build directory (a development
/// run, whose databases live beside the sources rather than beside the
/// executable).
pub fn is_build_dir(exe_dir: &str) -> (r: bool)
    ensures
        r == (crate::messages::text_contains(exe_dir@, "target/debug"@)
            || crate::messages::text_contains(exe_dir@, "target/release"@)),
{
    crate::messages::contains_text(exe_dir, "target/debug") || crate::messages::contains_text(
        exe_dir,
        "target/release",
    )
}

/// Path of the master database in `db_dir`.
pub fn master_db_path(db_dir: &str) -> (r: String)
    ensures
        r@ == join_path(db_dir@, master_db_name()),
{
    join(db_dir, "master.db")
}

/// Path of a user's database in `db_dir`: `<name_hash>.db`.
pub fn user_db_path(db_dir: &str, name_hash: &str) -> (r: String)
    ensures
        r@ == join_path(db_dir@, name_hash@ + ".db"@),
{
    let mut file = String::new();
    push_str(&mut file, name_hash);
    push_str(&mut file, ".db");
    join(db_dir, file.as_str())
}

/// Size of a database salt.
pub const SALT_SIZE: usize = 32;

/// Size of a database key.
pub const KEY_SIZE: usize = 32;

/// Memory of the key derivation, in KiB (64 MiB).
pub const ARGON2_M_COST: u32 = 65536;

/// Passes of the key derivation.
pub const ARGON2_T_COST: u32 = 3;

/// Lanes of the key derivation.
pub const ARGON2_P_COST: u32 = 4;

/// A fresh salt from the operating system's generator.
pub fn generate_salt() -> (r: [u8; SALT_SIZE]) {
    random_bytes_32()
}

/// What can go wrong with the local databases.
#[derive(Debug, Clone, PartialEq, Eq)]
pub enum DbError {
    Sqlite(String),
    Migration(String),
    UserNotFound(String),
    UserAlreadyExists(String),
    InvalidPassword,
    Encryption(String),
    NotInitialized,
    Io(String),
    NotFound(String),
    InvalidOperation(String),
}

/// The text of an Argon2 failure.
pub open spec fn argon2_failure_text(f: Argon2Failure) -> Seq<char> {
    match f {
        Argon2Failure::PwdTooLong => "password is too long"@,
        Argon2Failure::SaltTooShort => "salt is too short"@,
        Argon2Failure::SaltTooLong => "salt is too long"@,
    }
}

fn argon2_failure_message(f: Argon2Failure) -> (r: &'static str)
    ensures
        r@ == argon2_failure_text(f),
{
    match f {
        Argon2Failure::PwdTooLong => "password is too long",
        Argon2Failure::SaltTooShort => "salt is too short",
        Argon2Failure::SaltTooLong => "salt is too long",
    }
}

/// Derives the key of a user's database: Argon2id (64 MiB, 3 passes, 4
/// lanes) of the password's bytes with the salt.
pub fn derive_sqlcipher_key(password: &str, salt: &[u8]) -> (r: Result<[u8; KEY_SIZE], DbError>)
    ensures
        match r {
            Ok(k) => k@ == spec_argon2id_key(
                vstd::utf8::encode_utf8(password@),
                salt@,
                ARGON2_M_COST,
                ARGON2_T_COST,
                ARGON2_P_COST,
            ),
            Err(e) => e matches DbError::Encryption(m) && exists|f: Argon2Failure|
                #![trigger argon2_failure_text(f)]
                m@ == "Argon2 hash error: "@ + argon2_failure_text(f),
        },
        vstd::utf8::encode_utf8(password@).len() <= 0xffff_ffff && 8 <= salt@.len()
            <= 0xffff_ffff ==> r is Ok,
{
    match argon2id_key(password.as_bytes(), salt, ARGON2_M_COST, ARGON2_T_COST, ARGON2_P_COST) {
        Argon2Outcome::Key(k) => Ok(k),
        Argon2Outcome::Refused(f) => {
            let mut m = String::new();
            push_str(&mut m, "Argon2 hash error: ");
            push_str(&mut m, argon2_failure_message(f));
            Err(DbError::Encryption(m))
        },
    }
}

/// The key pragma of SQLCipher for a raw key: `x'<hex>'`.
pub fn key_to_sqlcipher_pragma(key: &[u8; KEY_SIZE]) -> (r: String)
    ensures
        r@ == "x'"@ + hex_spec(key@) + "'"@,
{
    let mut s = String::new();
    push_str(&mut s, "x'");
    let h = hex_encode(key);
    push_str(&mut s, h.as_str());
    push_str(&mut s, "'");
    s
}

/// The database name of a user: the first 8 bytes of SHA-256 of the user
/// name, in hex (16 characters).
pub open spec fn username_db_name(username: Seq<char>) -> Seq<char> {
    hex_spec(spec_sha256(vstd::utf8::encode_utf8(username)).take(8))
}

/// The database name of a user.
pub fn hash_username(username: &str) -> (r: String)
    ensures
        r@ == username_db_name(username@),
        r@.len() == 16,
{
    let digest = sha256(username.as_bytes());
    let prefix = crate::bytes::copy_range(&digest, 0, 8);
    assert(prefix@ =~= digest@.take(8));
    proof {
        crate::text::lemma_hex_spec_len(prefix@);
    }
    hex_encode(prefix.as_slice())
}

/// The public user hash: SHA-256 applied twice to the user name.
pub open spec fn username_hash_spec(username: Seq<char>) -> Seq<u8> {
    spec_sha256(spec_sha256(vstd::utf8::encode_utf8(username)))
}

/// The public user hash of a user name.
pub fn generate_username_hash(username: &str) -> (r: Vec<u8>)
    ensures
        r@ == username_hash_spec(username@),
{
    let once = sha256(username.as_bytes());
    let twice = sha256(&once);
    crate::bytes::copy_range(&twice, 0, 32)
}

/// A user of the master database.
#[derive(Debug, Clone)]
pub struct UserEntry {
    pub name_hash: String,
    pub salt: Vec<u8>,
}

/// A device paired with this one.
#[derive(Debug, Clone)]
pub struct PairedDeviceInfo {
    pub peer_dilithium_pubkey: Vec<u8>,
    pub added_at: i64,
}

/// The local user's record.
#[derive(Debug, Clone)]
pub struct UserInfo {
    pub id: i64,
    pub pseudo: String,
    pub username_hash: String,
    pub identity_key_public: Vec<u8>,
    pub kyber_public_key: Vec<u8>,
    pub x25519_public_key: Option<Vec<u8>>,
    pub registration_id: i64,
    pub created_at: i64,
    pub encrypted_identity_keys: Vec<u8>,
    pub identity_keys_iv: Vec<u8>,
}

/// The public part of the local user's record.
#[derive(Debug, Clone)]
pub struct UserInfoSync {
    pub id: i64,
    pub pseudo: String,
    pub username_hash: String,
    pub identity_key_public: Vec<u8>,
    pub kyber_public_key: Vec<u8>,
    pub x25519_public_key: Option<Vec<u8>>,
}

/// The local user's record before it is stored.
#[derive(Debug, Clone)]
pub struct NewUserInfo {
    pub pseudo: String,
    pub username_hash: String,
    pub encrypted_network_key: Vec<u8>,
    pub network_key_iv: Vec<u8>,
    pub encrypted_identity_keys: Vec<u8>,
    pub identity_keys_iv: Vec<u8>,
    pub identity_key_public: Vec<u8>,
    pub kyber_public_key: Vec<u8>,
    pub x25519_public_key: Option<Vec<u8>>,
    pub registration_id: i64,
    pub created_at: i64,
}

/// A contact.
#[derive(Debug, Clone)]
pub struct Friend {
    pub id: i64,
    pub pseudo: String,
    pub username_hash: String,
    pub identity_key_public: Vec<u8>,
    pub kyber_public_key: Option<Vec<u8>>,
    pub x25519_public_key: Option<Vec<u8>>,
    pub friendship_signature_local: Option<Vec<u8>>,
    pub friendship_signature_remote: Option<Vec<u8>>,
    pub verified: bool,
    pub blocked: bool,
    pub created_at: i64,
    pub updated_at: i64,
    pub avatar: Option<Vec<u8>>,
}

/// A contact before it is stored.
#[derive(Debug, Clone)]
pub struct NewFriend {
    pub pseudo: String,
    pub username_hash: String,
    pub identity_key_public: Vec<u8>,
    pub kyber_public_key: Option<Vec<u8>>,
    pub x25519_public_key: Option<Vec<u8>>,
    pub friendship_signature_local: Option<Vec<u8>>,
    pub friendship_signature_remote: Option<Vec<u8>>,
    pub verified: bool,
    pub created_at: i64,
}

/// A stored message.
#[derive(Debug, Clone)]
pub struct Message {
    pub id: i64,
    pub friend_id: i64,
    pub message_id: String,
    pub is_outgoing: bool,
    pub message_type: String,
    pub encrypted_content: Vec<u8>,
    pub content_iv: Vec<u8>,
    pub filename: Option<String>,
    pub file_size: Option<i64>,
    pub mime_type: Option<String>,
    pub timestamp: i64,
    pub status: String,
    pub delivered_at: Option<i64>,
    pub read_at: Option<i64>,
    pub reply_to_id: Option<String>,
    pub edited: bool,
    pub deleted: bool,
    pub vault_encrypted: bool,
}

/// A message before it is stored.
#[derive(Debug, Clone)]
pub struct NewMessage {
    pub friend_id: i64,
    pub message_id: String,
    pub is_outgoing: bool,
    pub message_type: String,
    pub encrypted_content: Vec<u8>,
    pub content_iv: Vec<u8>,
    pub filename: Option<String>,
    pub file_size: Option<i64>,
    pub mime_type: Option<String>,
    pub timestamp: i64,
    pub status: String,
    pub vault_encrypted: bool,
    pub reply_to_id: Option<String>,
}

/// A friend request waiting for an answer.
#[derive(Debug, Clone)]
pub struct PendingRequest {
    pub id: i64,
    pub direction: String,
    pub remote_username_hash: String,
    pub remote_pseudo: Option<String>,
    pub remote_identity_key: Vec<u8>,
    pub remote_kyber_public_key: Option<Vec<u8>>,
    pub remote_x25519_public_key: Option<Vec<u8>>,
    pub dilithium_signature: Vec<u8>,
    pub status: String,
    pub message: Option<String>,
    pub created_at: i64,
    pub expires_at: Option<i64>,
}

/// A friend request before it is stored.
#[derive(Debug, Clone)]
pub struct NewPendingRequest {
    pub direction: String,
    pub remote_username_hash: String,
    pub remote_pseudo: Option<String>,
    pub remote_identity_key: Vec<u8>,
    pub remote_kyber_public_key: Option<Vec<u8>>,
    pub remote_x25519_public_key: Option<Vec<u8>>,
    pub dilithium_signature: Vec<u8>,
    pub status: String,
    pub message: Option<String>,
    pub created_at: i64,
    pub expires_at: Option<i64>,
}

/// A Double Ratchet session before it is stored (its secret keys are
/// encrypted on the way in).
#[derive(Debug, Clone)]
pub struct NewSession {
    pub friend_id: i64,
    pub root_key: Vec<u8>,
    pub sending_chain_key: Vec<u8>,
    pub receiving_chain_key: Option<Vec<u8>>,
    pub sending_counter: u32,
    pub receiving_counter: u32,
    pub dh_public: Vec<u8>,
    pub dh_private: Vec<u8>,
    pub remote_dh_public: Option<Vec<u8>>,
}

/// What is listed of a stored session: no key material.
#[derive(Debug, Clone)]
pub struct SessionInfo {
    pub id: i64,
    pub friend_id: i64,
    pub friend_pseudo: String,
    pub friend_hash: String,
    pub sending_counter: u32,
    pub receiving_counter: u32,
    pub created_at: i64,
    pub last_used_at: i64,
}

/// The delivery and read times set by a status update at `now`: `delivered`
/// sets the delivery time, `read` the read time, anything else neither
/// (existing times are kept).
pub fn status_times(status: &str, now: i64) -> (r: (Option<i64>, Option<i64>))
    ensures
        r == if status@ == "delivered"@ {
            (Some(now), None::<i64>)
        } else if status@ == "read"@ {
            (None::<i64>, Some(now))
        } else {
            (None::<i64>, None::<i64>)
        },
{
    if str_eq(status, "delivered") {
        (Some(now), None)
    } else if str_eq(status, "read") {
        (None, Some(now))
    } else {
        (None, None)
    }
}

/// A stored message after a status update at `now`.
pub fn apply_status_update(message: &Message, status: &str, now: i64) -> (r: Message)
    ensures
        r.status@ == status@,
        r.delivered_at == if status@ == "delivered"@ {
            Some(now)
        } else {
            message.delivered_at
        },
        r.read_at == if status@ == "read"@ {
            Some(now)
        } else {
            message.read_at
        },
        r.id == message.id,
        r.friend_id == message.friend_id,
        r.message_id == message.message_id,
        r.is_outgoing == message.is_outgoing,
        r.message_type == message.message_type,
        r.encrypted_content@ == message.encrypted_content@,
        r.content_iv@ == message.content_iv@,
        r.filename == message.filename,
        r.file_size == message.file_size,
        r.mime_type == message.mime_type,
        r.timestamp == message.timestamp,
        r.reply_to_id == message.reply_to_id,
        r.edited == message.edited,
        r.deleted == message.deleted,
        r.vault_encrypted == message.vault_encrypted,
{
    proof {
        reveal_strlit("delivered");
        reveal_strlit("read");
        assert("delivered"@ != "read"@) by {
            assert("delivered"@.len() != "read"@.len());
        }
    }
    let (delivered, read) = status_times(status, now);
    let encrypted_content = copy_bytes(&message.encrypted_content);
    let content_iv = copy_bytes(&message.content_iv);
    Message {
        id: message.id,
        friend_id: message.friend_id,
        message_id: message.message_id.clone(),
        is_outgoing: message.is_outgoing,
        message_type: message.message_type.clone(),
        encrypted_content,
        content_iv,
        filename: copy_text(&message.filename),
        file_size: message.file_size,
        mime_type: copy_text(&message.mime_type),
        timestamp: message.timestamp,
        status: status.to_owned(),
        delivered_at: match delivered {
            Some(t) => Some(t),
            None => message.delivered_at,
        },
        read_at: match read {
            Some(t) => Some(t),
            None => message.read_at,
        },
        reply_to_id: copy_text(&message.reply_to_id),
        edited: message.edited,
        deleted: message.deleted,
        vault_encrypted: message.vault_encrypted,
    }
}

fn copy_bytes(v: &Vec<u8>) -> (r: Vec<u8>)
    ensures
        r@ == v@,
{
    crate::bytes::copy_range(v.as_slice(), 0, v.len())
}

fn copy_text(t: &Option<String>) -> (r: Option<String>)
    ensures
        r == *t,
{
    match t {
        Some(s) => Some(s.clone()),
        None => None,
    }
}

/// Whether a pending request has expired at `now` (and is cleaned up).
pub fn request_expired(expires_at: Option<i64>, now: i64) -> (r: bool)
    ensures
        r == (expires_at matches Some(t) && t < now),
{
    match expires_at {
        Some(t) => t < now,
        None => false,
    }
}

} // verus!
