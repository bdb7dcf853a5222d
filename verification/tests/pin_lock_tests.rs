use argon2::password_hash::{PasswordHash, PasswordVerifier};
use argon2::Argon2;
use zenth_client::pin_lock::{
    check_unlock, lock_result, matching_locked_conversations, pin_hash, pin_hash_with_salt,
};

#[test]
fn stored_pin_hash_verifies_its_pin() {
    let h = pin_hash("1234").unwrap();
    assert!(h.starts_with("$argon2id$"));
    let parsed = PasswordHash::new(&h).unwrap();
    assert!(Argon2::default().verify_password(b"1234", &parsed).is_ok());
    assert!(Argon2::default().verify_password(b"4321", &parsed).is_err());
}

#[test]
fn same_salt_same_hash() {
    let salt = [7u8; 16];
    let a = pin_hash_with_salt("0000", &salt).unwrap();
    let b = pin_hash_with_salt("0000", &salt).unwrap();
    assert_eq!(a, b);
    assert_ne!(a, pin_hash_with_salt("0000", &[8u8; 16]).unwrap());
}

#[test]
fn pin_opens_its_conversations() {
    let h1 = pin_hash("1111").unwrap();
    let h2 = pin_hash("2222").unwrap();
    let h3 = pin_hash("1111").unwrap();
    let locked = vec![(10, h1), (20, h2), (30, h3), (40, "not a hash".to_string())];
    assert_eq!(matching_locked_conversations(&locked, "1111"), vec![10, 30]);
    assert_eq!(matching_locked_conversations(&locked, "2222"), vec![20]);
    assert!(matching_locked_conversations(&locked, "9999").is_empty());
}

#[test]
fn unlock_answers() {
    let h = pin_hash("5555").unwrap();
    assert_eq!(check_unlock(Some(h.clone()), "5555"), Ok(()));
    assert_eq!(check_unlock(Some(h), "5556"), Err("PIN incorrect".to_string()));
    assert_eq!(
        check_unlock(None, "5555"),
        Err("Cette conversation n'est pas verrouillée".to_string())
    );
    assert_eq!(lock_result(1), Ok(()));
    assert_eq!(
        lock_result(0),
        Err("Conversation introuvable ou déjà verrouillée".to_string())
    );
}
