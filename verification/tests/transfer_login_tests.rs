use sha2::{Digest, Sha256};
use zenth_client::file_transfer::{bad_tag_error, check_file_hash, sha256_of};
use zenth_client::file_transfer::{
    cancel_transfer_id, chunk_nonce, split_chunk_tag, split_chunks, validate_download,
    ReceiverState, SenderEntry, CHUNK_SIZE,
};
use zenth_client::api_error::{ApiError, LoginErrorBody, VersionOutdated};
use zenth_client::login::{
    check_login_response, check_version_outdated, login_dht_failure, LoginStep,
    check_login_answer, check_session_expiry, local_login_allowed, replace_text, ws_url_for,
    LoginAttempts,
};

#[test]
fn chunk_nonces_carry_the_index() {
    let iv = [1, 2, 3, 4, 5, 6, 7, 8, 9, 10, 11, 12];
    assert_eq!(chunk_nonce(&iv, 0x01020304), [1, 2, 3, 4, 5, 6, 7, 8, 4, 3, 2, 1]);
    assert_ne!(chunk_nonce(&iv, 1), chunk_nonce(&iv, 2));
}

#[test]
fn chunks_split_and_rejoin() {
    let data: Vec<u8> = (0..(2 * CHUNK_SIZE + 10)).map(|i| (i % 251) as u8).collect();
    let chunks = split_chunks(&data);
    assert_eq!(chunks.len(), 3);
    assert_eq!(chunks[0].len(), CHUNK_SIZE);
    assert_eq!(chunks[2].len(), 10);
    assert_eq!(chunks.concat(), data);
    assert!(split_chunks(&[]).is_empty());
}

#[test]
fn chunk_tags() {
    let chunk: Vec<u8> = (0..20).collect();
    let (body, tag) = split_chunk_tag(3, &chunk).unwrap();
    assert_eq!(body, vec![0, 1, 2, 3]);
    assert_eq!(tag, (4..20).collect::<Vec<u8>>());
    assert_eq!(split_chunk_tag(7, &[0; 5]), Err("Chunk 7 trop court (5 bytes)".to_string()));
}

#[test]
fn sender_progress() {
    let mut entry = SenderEntry {
        chunks: vec![vec![1], vec![2]],
        filename: "f".to_string(),
        chunks_served: 0,
    };
    let first = entry.record_served();
    assert!(first.started && !first.complete);
    let second = entry.record_served();
    assert!(!second.started && second.complete);
    assert_eq!(entry.chunks_served, 2);
}

#[test]
fn receiver_collects_chunks_once() {
    let mut state = ReceiverState::new(
        3,
        [0; 32],
        [0; 12],
        "f".to_string(),
        "image/png".to_string(),
        vec![],
        vec![],
        vec![],
    );
    assert_eq!(state.next_missing(), Some(0));
    state.store_chunk(1, vec![11]);
    state.store_chunk(0, vec![10]);
    state.store_chunk(0, vec![99]);
    state.store_chunk(7, vec![1]);
    assert_eq!(state.next_missing(), Some(2));
    state.store_chunk(2, vec![12]);
    assert_eq!(state.next_missing(), None);
    assert_eq!(state.received_chunks(), vec![vec![10], vec![11], vec![12]]);
}

#[test]
fn download_parameters() {
    let id = [7u8; 16];
    assert_eq!(validate_download(&[1; 3], &[0; 32], &[0; 12], 1), Err("transfer_id invalide".to_string()));
    assert_eq!(
        validate_download(&id, &[0; 31], &[0; 12], 1),
        Err("file_key doit faire 32 bytes".to_string())
    );
    assert_eq!(
        validate_download(&id, &[0; 32], &[0; 11], 1),
        Err("file_iv doit faire 12 bytes".to_string())
    );
    assert_eq!(
        validate_download(&id, &[0; 32], &[0; 12], 0),
        Err("total_chunks ne peut pas être zéro".to_string())
    );
    assert_eq!(validate_download(&id, &[5; 32], &[6; 12], 2), Ok((id, [5; 32], [6; 12])));
    assert_eq!(cancel_transfer_id(&id), Ok(id));
    assert_eq!(cancel_transfer_id(&[1]), Err("transfer_id invalide".to_string()));
}

#[test]
fn wipe_after_configured_failures() {
    let mut attempts = LoginAttempts::new();
    attempts.set_wipe_config("alice", true, 3);
    assert!(!attempts.record_failure("alice"));
    assert!(!attempts.record_failure("alice"));
    assert_eq!(attempts.fail_count("alice"), 2);
    assert!(attempts.record_failure("alice"));
    assert_eq!(attempts.fail_count("alice"), 0);
}

#[test]
fn reset_forgets_failures() {
    let mut attempts = LoginAttempts::new();
    assert!(!attempts.record_failure("bob"));
    assert!(!attempts.record_failure("bob"));
    assert!(!attempts.record_failure("carol"));
    attempts.reset_fail_counter("bob");
    assert_eq!(attempts.fail_count("bob"), 0);
    assert_eq!(attempts.fail_count("carol"), 1);
}

#[test]
fn disabled_wipe_only_counts() {
    let mut attempts = LoginAttempts::new();
    attempts.set_wipe_config("dave", false, 1);
    for _ in 0..5 {
        assert!(!attempts.record_failure("dave"));
    }
    assert_eq!(attempts.fail_count("dave"), 5);
}

#[test]
fn login_answers() {
    assert_eq!(check_login_answer(None, true, ""), Ok(()));
    assert_eq!(check_login_answer(None, false, "bad proof"), Err("Login failed: bad proof".to_string()));
    assert_eq!(
        check_login_answer(Some(("1.2.0".to_string(), "1.3.0".to_string())), true, ""),
        Err("VERSION_OUTDATED:1.2.0".to_string())
    );
    assert_eq!(
        check_login_answer(Some((String::new(), "1.3.0".to_string())), false, "x"),
        Err("VERSION_OUTDATED:1.3.0".to_string())
    );
    assert!(local_login_allowed(1));
    assert!(!local_login_allowed(0));
}

#[test]
fn websocket_addresses() {
    assert_eq!(ws_url_for("https://api.zenth-project.com"), "wss://api.zenth-project.com");
    assert_eq!(ws_url_for("http://localhost:8080"), "ws://localhost:8080");
    assert_eq!(ws_url_for("localhost"), "localhost");
    assert_eq!(replace_text("a-b-c", "-", "+"), "a+b+c");
    assert_eq!(replace_text("aaa", "aa", "b"), "ba");
}

#[test]
fn session_expiry() {
    assert_eq!(check_session_expiry(None, 100), Ok(()));
    assert_eq!(check_session_expiry(Some("100".to_string()), 100), Ok(()));
    assert_eq!(
        check_session_expiry(Some("99".to_string()), 100),
        Err("Session expired. Please login again.".to_string())
    );
    assert_eq!(check_session_expiry(Some("soon".to_string()), 100), Ok(()));
}

#[test]
fn reassembled_file_digest() {
    let data = b"file contents".to_vec();
    let digest = sha256_of(&data);
    assert_eq!(digest, Sha256::digest(&data).to_vec());
    assert_eq!(check_file_hash(data.clone(), &digest), Ok(data.clone()));
    assert_eq!(
        check_file_hash(data, &[0; 32]),
        Err("Hash du fichier invalide: données corrompues".to_string())
    );
    assert_eq!(bad_tag_error(4), "Tag invalide pour chunk 4: fichier corrompu ou altéré");
}

#[test]
fn login_api_responses() {
    let outdated = Some(VersionOutdated { min_version: "3.0".to_string(), latest_version: "3.1".to_string() });
    assert_eq!(check_version_outdated(&None), Ok(()));
    assert_eq!(
        check_version_outdated(&outdated),
        Err(ApiError::Server(400, "VERSION_OUTDATED:3.0".to_string()))
    );
    assert_eq!(check_login_response(&None, true, "", LoginStep::Proof), Ok(()));
    assert_eq!(
        check_login_response(&None, false, "no", LoginStep::Challenge),
        Err(ApiError::Server(400, "no".to_string()))
    );
    assert_eq!(
        check_login_response(&None, false, "no", LoginStep::Proof),
        Err(ApiError::AuthenticationFailed("no".to_string()))
    );
    assert_eq!(
        check_login_response(&outdated, true, "", LoginStep::Proof),
        Err(ApiError::Server(400, "VERSION_OUTDATED:3.0".to_string()))
    );
    assert_eq!(
        login_dht_failure(403, "dht".to_string(), None),
        ApiError::Server(403, "dht".to_string())
    );
    assert_eq!(
        login_dht_failure(
            403,
            "dht".to_string(),
            Some(LoginErrorBody { version_outdated: None, error_message: "bad".to_string() })
        ),
        ApiError::Server(403, "bad".to_string())
    );
    let latest_only = VersionOutdated { min_version: String::new(), latest_version: "3.1".to_string() };
    assert_eq!(
        login_dht_failure(
            403,
            "dht".to_string(),
            Some(LoginErrorBody { version_outdated: Some(latest_only), error_message: "bad".to_string() })
        ),
        ApiError::Server(400, "VERSION_OUTDATED:3.1".to_string())
    );
}
