use zenth_client::db::{db_folder, is_build_dir};
use sha2::{Digest, Sha256};
use zenth_client::clock::current_timestamp;
use zenth_client::db::{
    apply_status_update, derive_sqlcipher_key, generate_salt, generate_username_hash,
    hash_username, join, key_to_sqlcipher_pragma, master_db_path, request_expired, status_times,
    user_db_path, DbError, Message, SALT_SIZE,
};
use zenth_client::sync::now_secs;

#[test]
fn test_paths_end_with_db() {
    assert!(master_db_path("database").ends_with("master.db"));
    assert!(user_db_path("database", "abc123").ends_with("abc123.db"));
}

#[test]
fn queries_test_current_timestamp() {
    let ts = current_timestamp();
    assert!(ts > 0);
}

#[test]
fn test_generate_salt() {
    let salt1 = generate_salt();
    let salt2 = generate_salt();
    assert_ne!(salt1, salt2);
    assert_eq!(salt1.len(), SALT_SIZE);
}

#[test]
fn test_derive_key() {
    let salt = generate_salt();
    let key1 = derive_sqlcipher_key("password123", &salt).unwrap();
    let key2 = derive_sqlcipher_key("password123", &salt).unwrap();
    let key3 = derive_sqlcipher_key("different", &salt).unwrap();

    assert_eq!(key1, key2);
    assert_ne!(key1, key3);
}

#[test]
fn test_hash_username() {
    let hash1 = hash_username("alice");
    let hash2 = hash_username("alice");
    let hash3 = hash_username("bob");

    assert_eq!(hash1, hash2);
    assert_ne!(hash1, hash3);
    assert_eq!(hash1.len(), 16);
}

#[test]
fn hash_username_is_sha256_prefix() {
    let digest = Sha256::digest(b"alice");
    assert_eq!(hash_username("alice"), hex::encode(&digest[..8]));
}

#[test]
fn username_hash_is_double_sha256() {
    let once = Sha256::digest(b"alice");
    let twice = Sha256::digest(once);
    assert_eq!(generate_username_hash("alice"), twice.to_vec());
}

#[test]
fn short_salt_is_refused() {
    assert_eq!(
        derive_sqlcipher_key("pw", &[1, 2, 3]),
        Err(DbError::Encryption("Argon2 hash error: salt is too short".to_string()))
    );
}

#[test]
fn key_pragma_is_hex_literal() {
    let key = [0xabu8; 32];
    assert_eq!(key_to_sqlcipher_pragma(&key), format!("x'{}'", "ab".repeat(32)));
}

#[test]
fn path_joining() {
    assert_eq!(master_db_path("/data/zenth"), "/data/zenth/master.db");
    assert_eq!(master_db_path("/data/zenth/"), "/data/zenth/master.db");
    assert_eq!(user_db_path("", "abc"), "abc.db");
    assert_eq!(join("/a", "/b"), "/b");
}

fn message() -> Message {
    Message {
        id: 1,
        friend_id: 2,
        message_id: "m1".to_string(),
        is_outgoing: true,
        message_type: "text".to_string(),
        encrypted_content: vec![1, 2],
        content_iv: vec![],
        filename: None,
        file_size: None,
        mime_type: None,
        timestamp: 10,
        status: "sent".to_string(),
        delivered_at: Some(11),
        read_at: None,
        reply_to_id: None,
        edited: false,
        deleted: false,
        vault_encrypted: false,
    }
}

#[test]
fn status_updates_set_their_time() {
    assert_eq!(status_times("delivered", 50), (Some(50), None));
    assert_eq!(status_times("read", 50), (None, Some(50)));
    assert_eq!(status_times("failed", 50), (None, None));
    let read = apply_status_update(&message(), "read", 60);
    assert_eq!(read.status, "read");
    assert_eq!(read.delivered_at, Some(11));
    assert_eq!(read.read_at, Some(60));
    let delivered = apply_status_update(&message(), "delivered", 70);
    assert_eq!(delivered.delivered_at, Some(70));
    assert_eq!(delivered.read_at, None);
}

#[test]
fn pending_request_expiry() {
    assert!(request_expired(Some(5), 6));
    assert!(!request_expired(Some(6), 6));
    assert!(!request_expired(None, 1_000_000));
}

#[test]
fn sync_clock_reads_after_epoch() {
    assert!(now_secs() > 1_600_000_000);
}

#[test]
fn build_directories() {
    assert!(is_build_dir("/home/u/zenth/src-tauri/target/debug"));
    assert!(is_build_dir("/x/target/release/bundle"));
    assert!(!is_build_dir("/usr/lib/zenth"));
    assert_eq!(db_folder(), "database");
}
