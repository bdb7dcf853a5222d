use pqcrypto_dilithium::dilithium2;
use pqcrypto_traits::sign::{DetachedSignature, PublicKey, SecretKey};
use zenth_client::sync::dilithium_sign;
use sha2::{Digest, Sha256};
use zenth_client::api_error::ApiError;
use zenth_client::db::{Friend, PendingRequest};
use zenth_client::friends::{
    accepted_pseudo, bytes_lt, check_new_name, fetch_responses_message, fingerprint_of_hash,
    friend_info, friend_request_message, friendship_message, get_friend_fingerprint, is_blank,
    pending_request_info, rejection_message, search_user, SearchError,
};
use zenth_client::register::{
    needs_replenish, registration_answer, registration_failure_message,
    registration_signature_data, RetryLoop,
};
use zenth_client::sessions::{
    data_from_header, header_from_data, validate_prekey_bundle, validate_prekey_signature,
    EncryptedMessageData, HeaderError, PreKeyBundleData, SessionError,
};
use zenth_client::text::HexDecodeError;

#[test]
fn prekey_signature_checked_with_dilithium() {
    let (pk, sk) = dilithium2::keypair();
    let prekey = [5u8; 32];
    let sig = dilithium2::detached_sign(&prekey, &sk);
    assert_eq!(validate_prekey_signature(pk.as_bytes(), &prekey, sig.as_bytes()), Ok(true));
    assert_eq!(validate_prekey_signature(pk.as_bytes(), &[6u8; 32], sig.as_bytes()), Ok(false));
    assert_eq!(
        validate_prekey_signature(&[0; 10], &prekey, sig.as_bytes()),
        Err(SessionError::InvalidKeyFormat("Invalid Dilithium public key format".to_string()))
    );
    assert_eq!(
        validate_prekey_signature(pk.as_bytes(), &prekey, &[0; 2421]),
        Err(SessionError::InvalidSignature("Invalid Dilithium signature format".to_string()))
    );
}

#[test]
fn prekey_bundle_checks() {
    let (pk, sk) = dilithium2::keypair();
    let prekey = vec![9u8; 32];
    let sig = dilithium2::detached_sign(&prekey, &sk);
    let bundle = PreKeyBundleData {
        registration_id: 1,
        device_id: 1,
        identity_key: pk.as_bytes().to_vec(),
        signed_prekey_id: 2,
        signed_prekey: prekey.clone(),
        signed_prekey_signature: sig.as_bytes().to_vec(),
        one_time_prekey_id: None,
        one_time_prekey: None,
    };
    assert_eq!(validate_prekey_bundle(&bundle), Ok(()));
    let mut forged = bundle.clone();
    forged.signed_prekey = vec![8u8; 32];
    assert_eq!(
        validate_prekey_bundle(&forged),
        Err(SessionError::InvalidSignature("Prekey signature verification failed".to_string()))
    );
    let mut short = bundle.clone();
    short.signed_prekey = vec![1; 31];
    assert_eq!(
        validate_prekey_bundle(&short),
        Err(SessionError::InvalidKeyFormat("Invalid X25519 prekey length: expected 32, got 31".to_string()))
    );
    let mut bad_key = bundle.clone();
    bad_key.identity_key = vec![1; 3];
    assert_eq!(
        validate_prekey_bundle(&bad_key),
        Err(SessionError::InvalidKeyFormat(
            "Invalid Dilithium public key length: expected 1312, got 3".to_string()
        ))
    );
    let mut bad_sig = bundle;
    bad_sig.signed_prekey_signature = vec![1; 100];
    assert_eq!(
        validate_prekey_bundle(&bad_sig),
        Err(SessionError::InvalidKeyFormat(
            "Invalid Dilithium signature length: expected 2420, got 100".to_string()
        ))
    );
}

#[test]
fn message_header_roundtrip() {
    let data = EncryptedMessageData {
        version: 1,
        public_key: "ab".repeat(32),
        previous_chain_length: 3,
        message_number: 4,
        ciphertext: vec![1, 2, 3],
        tag: "0F".repeat(16),
    };
    let h = header_from_data(&data).unwrap();
    assert_eq!(h.public_key, [0xab; 32]);
    assert_eq!(h.tag, [0x0f; 16]);
    let back = data_from_header(&h);
    assert_eq!(back.public_key, data.public_key);
    assert_eq!(back.tag, "0f".repeat(16));
    assert_eq!(back.ciphertext, data.ciphertext);
    assert_eq!((back.version, back.previous_chain_length, back.message_number), (1, 3, 4));

    let mut short = data.clone();
    short.public_key = "ab".repeat(31);
    assert_eq!(header_from_data(&short).unwrap_err(), HeaderError::InvalidPublicKeyLength);
    let mut short_tag = data.clone();
    short_tag.tag = "00".repeat(15);
    assert_eq!(header_from_data(&short_tag).unwrap_err(), HeaderError::InvalidTagLength);
    let mut not_hex = data;
    not_hex.public_key = "zz".repeat(32);
    assert_eq!(
        header_from_data(&not_hex).unwrap_err(),
        HeaderError::Hex(HexDecodeError::InvalidHexCharacter { c: b'z', index: 0 })
    );
}

fn expected_fingerprint(a: &[u8], b: &[u8]) -> String {
    let (first, second) = if a < b { (a, b) } else { (b, a) };
    let mut input = b"ZENTH_FINGERPRINT_V1".to_vec();
    input.extend_from_slice(first);
    input.extend_from_slice(second);
    let hash = Sha256::digest(&input);
    let digits: String = hash.iter().flat_map(|b| format!("{:03}", b).chars().collect::<Vec<_>>()).take(60).collect();
    digits
        .as_bytes()
        .chunks(5)
        .map(|c| std::str::from_utf8(c).unwrap().to_string())
        .collect::<Vec<_>>()
        .join(" ")
}

#[test]
fn fingerprint_is_symmetric() {
    let alice = [1u8; 32];
    let bob = [2u8; 32];
    let ab = get_friend_fingerprint(&alice, &hex::encode(bob)).unwrap();
    let ba = get_friend_fingerprint(&bob, &hex::encode(alice)).unwrap();
    assert_eq!(ab, ba);
    assert_eq!(ab, expected_fingerprint(&alice, &bob));
    assert_eq!(ab.len(), 71);
    assert_eq!(
        get_friend_fingerprint(&alice, "abc"),
        Err(HexDecodeError::OddLength)
    );
}

#[test]
fn fingerprint_digits() {
    let mut hash = [0u8; 32];
    hash[0] = 123;
    hash[1] = 45;
    hash[2] = 6;
    let f = fingerprint_of_hash(&hash);
    assert!(f.starts_with("12304 50060 "));
    assert!(bytes_lt(&[1, 2], &[1, 3]));
    assert!(bytes_lt(&[1], &[1, 0]));
    assert!(!bytes_lt(&[2], &[1, 9]));
}

#[test]
fn pseudo_and_names() {
    assert!(is_blank(" \t\n"));
    assert!(!is_blank(" a "));
    assert_eq!(check_new_name("  "), Err("Le nom ne peut pas être vide".to_string()));
    assert_eq!(check_new_name("Bob"), Ok(()));
    let hash = "0123456789abcdef";
    assert_eq!(accepted_pseudo(Some("Zoe".to_string()), Some("z".to_string()), hash), "Zoe");
    assert_eq!(accepted_pseudo(Some("  ".to_string()), Some("remote".to_string()), hash), "remote");
    assert_eq!(accepted_pseudo(None, None, hash), "01234567");
}

#[test]
fn user_search_checks_hash() {
    assert!(matches!(search_user("ab".to_string()), Err(SearchError::BadLength)));
    assert!(matches!(
        search_user("g".repeat(64)),
        Err(SearchError::BadHex(HexDecodeError::InvalidHexCharacter { c: b'g', index: 0 }))
    ));
    let info = search_user("a".repeat(64)).unwrap();
    assert_eq!(info.username_hash, "a".repeat(64));
    assert_eq!(info.identity_key, "pending");
    assert_eq!(info.kyber_public_key, "pending");
    assert!(info.x25519_public_key.is_none());
}

#[test]
fn signed_friend_layouts() {
    assert_eq!(friendship_message(&[1], &[2]), b"FRIENDSHIP:\x01\x02".to_vec());
    assert_eq!(friend_request_message(&[1], &[2, 3], 1), vec![1, 2, 3, 1, 0, 0, 0, 0, 0, 0, 0]);
    assert_eq!(rejection_message(&[7], 2), vec![7, 0, 2, 0, 0, 0, 0, 0, 0, 0]);
    assert_eq!(fetch_responses_message(&[7], 1, 2).len(), 17);
}

#[test]
fn contact_views_encode_keys() {
    let friend = Friend {
        id: 1,
        pseudo: "p".to_string(),
        username_hash: "h".to_string(),
        identity_key_public: vec![0xab, 0x01],
        kyber_public_key: Some(vec![0xff]),
        x25519_public_key: None,
        friendship_signature_local: None,
        friendship_signature_remote: None,
        verified: true,
        blocked: false,
        created_at: 5,
        updated_at: 6,
        avatar: Some(vec![1, 2, 3]),
    };
    let info = friend_info(&friend);
    assert_eq!(info.identity_key_public, "ab01");
    assert_eq!(info.kyber_public_key, Some("ff".to_string()));
    assert_eq!(info.x25519_public_key, None);
    assert_eq!(info.avatar, Some("AQID".to_string()));
    let pending = PendingRequest {
        id: 2,
        direction: "incoming".to_string(),
        remote_username_hash: "r".to_string(),
        remote_pseudo: None,
        remote_identity_key: vec![0x10],
        remote_kyber_public_key: None,
        remote_x25519_public_key: None,
        dilithium_signature: vec![],
        status: "pending".to_string(),
        message: Some("hi".to_string()),
        created_at: 1,
        expires_at: Some(2),
    };
    let p = pending_request_info(&pending);
    assert_eq!(p.remote_identity_key, "10");
    assert_eq!(p.message, Some("hi".to_string()));
    assert_eq!(p.expires_at, Some(2));
}

#[test]
fn prekey_replenish_threshold() {
    assert!(needs_replenish(19));
    assert!(!needs_replenish(20));
}

#[test]
fn registration_answers_and_messages() {
    assert_eq!(registration_answer(true, "ignored"), Ok(()));
    assert_eq!(registration_answer(false, ""), Ok(()));
    assert_eq!(
        registration_answer(false, "taken"),
        Err(ApiError::Server(400, "taken".to_string()))
    );
    let url = "https://api.zenth-project.com";
    assert_eq!(
        registration_failure_message(&ApiError::Server(409, "User ALREADY EXISTS".to_string()), url),
        "Username already taken"
    );
    assert_eq!(
        registration_failure_message(&ApiError::Server(400, "bad".to_string()), url),
        "bad"
    );
    assert_eq!(
        registration_failure_message(&ApiError::Timeout(30), url),
        "Connection timed out. Please try again."
    );
    assert_eq!(
        registration_failure_message(&ApiError::Network("Connection refused (os error 111)".to_string()), url),
        "Server not reachable at https://api.zenth-project.com."
    );
    assert_eq!(
        registration_failure_message(&ApiError::Network("invalid peer certificate".to_string()), url),
        "TLS certificate error. If using a self-signed certificate, set ZENTH_ACCEPT_INVALID_CERTS=1."
    );
    assert_eq!(
        registration_failure_message(&ApiError::MaxRetriesExceeded(3), url),
        "Registration failed: Max retries (3) exceeded"
    );
    assert_eq!(ApiError::Timeout(5).message(), "Request timeout after 5s");
    assert_eq!(
        registration_signature_data(&[1], &[2], "0a"),
        vec![1, 2, b'0', b'a']
    );
}

#[test]
fn retries_stop_at_fatal_or_limit() {
    let mut l = RetryLoop::new(2, 100, true);
    assert!(l.should_attempt());
    assert_eq!(l.delay_before_attempt(), 0);
    l.record_failure(ApiError::Network("x".to_string()));
    assert!(l.should_attempt());
    assert_eq!(l.delay_before_attempt(), 100);
    l.record_failure(ApiError::AuthenticationFailed("no".to_string()));
    assert!(!l.should_attempt());
    assert_eq!(l.final_error(), ApiError::AuthenticationFailed("no".to_string()));

    let mut l = RetryLoop::new(1, 10, false);
    l.record_failure(ApiError::InvalidRegistrationData("a".to_string()));
    assert!(l.should_attempt());
    l.record_failure(ApiError::Timeout(1));
    assert!(!l.should_attempt());
    assert_eq!(l.final_error(), ApiError::Timeout(1));
    assert_eq!(RetryLoop::new(0, 0, true).final_error(), ApiError::MaxRetriesExceeded(0));
}

#[test]
fn dilithium_signatures_verify() {
    let (pk, sk) = dilithium2::keypair();
    let sig = dilithium_sign(sk.as_bytes(), b"relay fetch");
    assert_eq!(sig.len(), 2420);
    let parsed = dilithium2::DetachedSignature::from_bytes(&sig).unwrap();
    assert!(dilithium2::verify_detached_signature(&parsed, b"relay fetch", &pk).is_ok());
    assert_eq!(validate_prekey_signature(pk.as_bytes(), b"relay fetch", &sig), Ok(true));
    assert_eq!(dilithium_sign(sk.as_bytes(), b"relay fetch"), sig);
    assert_ne!(dilithium_sign(sk.as_bytes(), b"other"), sig);
    assert!(dilithium_sign(&[1, 2, 3], b"x").is_empty());
}
