use zenth_client::api_error::ApiError;
use zenth_client::db::DbError;
use zenth_client::friends::accepted_pseudo;
use zenth_client::login::{local_open_error, login_proof_message};
use zenth_client::messages::{
    envelope_route, incoming_verdict, parse_inner_message, send_session_step, DecryptRoute,
    EnvelopeShape, IncomingVerdict, SendSessionAction,
    SendSessionEvent, SendSessionState,
};
use zenth_client::register::{
    after_local_save, after_server_registration, registration_failure_message,
    RegistrationDecision,
};
use zenth_client::sanitize::media_kind;
use zenth_client::sync::{
    adopted_username, relay_friend_action, relay_step, LocalContact, RelayAction,
    RelayFriendAction, RelayPullEvent, RelayPullState,
};

#[test]
fn relay_pull_runs_to_acknowledgement() {
    let s = RelayPullState::Start { cursor: 7 };
    let (s, a) = relay_step(s, RelayPullEvent::PairedDevices { count: 1 });
    assert_eq!(a, RelayAction::Fetch { since_id: 7 });
    let (s, a) = relay_step(s, RelayPullEvent::EntriesFetched { ids: vec![9, 12, 10] });
    assert_eq!(a, RelayAction::HandleEntry { index: 0 });
    let (s, a) = relay_step(s, RelayPullEvent::EntryHandled { saved: true });
    assert_eq!(a, RelayAction::HandleEntry { index: 1 });
    let (s, a) = relay_step(s, RelayPullEvent::EntryHandled { saved: false });
    assert_eq!(a, RelayAction::HandleEntry { index: 2 });
    let (s, a) = relay_step(s, RelayPullEvent::EntryHandled { saved: true });
    assert_eq!(a, RelayAction::Acknowledge { max_id: 12 });
    let (s, a) = relay_step(s, RelayPullEvent::Acknowledged);
    assert_eq!(a, RelayAction::Stop { inserted: 2 });
    assert_eq!(s, RelayPullState::Finished { inserted: 2 });
    let (_, a) = relay_step(s, RelayPullEvent::Acknowledged);
    assert_eq!(a, RelayAction::Ignore);
}

#[test]
fn relay_pull_stops_early() {
    let (_, a) = relay_step(RelayPullState::Start { cursor: 0 }, RelayPullEvent::PairedDevices { count: 0 });
    assert_eq!(a, RelayAction::Stop { inserted: 0 });
    let (_, a) = relay_step(
        RelayPullState::AwaitingEntries { cursor: 0 },
        RelayPullEvent::EntriesFetched { ids: vec![] },
    );
    assert_eq!(a, RelayAction::Stop { inserted: 0 });
    let (s, a) = relay_step(RelayPullState::Start { cursor: 3 }, RelayPullEvent::Acknowledged);
    assert_eq!((s, a), (RelayPullState::Start { cursor: 3 }, RelayAction::Ignore));
}

#[test]
fn rejected_messages_keep_the_session() {
    match incoming_verdict("ab01", Err("magic".to_string()), true) {
        IncomingVerdict::Rejected { error } => assert_eq!(error, "Message rejeté (ab01) : magic"),
        other => panic!("unexpected {:?}", other),
    }
    match incoming_verdict("ab01", Ok(vec![1, 2]), true) {
        IncomingVerdict::Accepted { content, save_session } => {
            assert_eq!(content, vec![1, 2]);
            assert!(save_session);
        }
        other => panic!("unexpected {:?}", other),
    }
}

#[test]
fn account_rename_conflict() {
    assert_eq!(adopted_username("bob", "alice", true), Ok("bob".to_string()));
    assert_eq!(adopted_username("bob", "alice", false), Err("sync_account_conflict".to_string()));
    assert_eq!(adopted_username("alice", "alice", false), Ok("alice".to_string()));
    assert_eq!(adopted_username("", "alice", false), Ok("alice".to_string()));
}

#[test]
fn registration_rollbacks() {
    let url = "https://api.zenth-project.com";
    assert_eq!(after_server_registration(Ok((true, String::new())), url), RegistrationDecision::Keep);
    assert_eq!(
        after_server_registration(Ok((false, "refused".to_string())), url),
        RegistrationDecision::RollBack { message: "refused".to_string() }
    );
    assert_eq!(
        after_server_registration(Err(ApiError::Timeout(30)), url),
        RegistrationDecision::RollBack { message: "Connection timed out. Please try again.".to_string() }
    );
    assert_eq!(after_local_save(Ok(())), RegistrationDecision::Keep);
    assert_eq!(
        after_local_save(Err("disk".to_string())),
        RegistrationDecision::RollBack { message: "disk".to_string() }
    );
}

#[test]
fn non_ascii_server_messages_are_lowercased() {
    let url = "u";
    assert_eq!(
        registration_failure_message(&ApiError::Server(409, "ÉCHEC: ALREADY EXISTS".to_string()), url),
        "Username already taken"
    );
    assert_eq!(
        registration_failure_message(&ApiError::Server(400, "Refusé".to_string()), url),
        "Refusé"
    );
    assert_eq!(media_kind("PNG\u{301}"), None);
}

#[test]
fn invalid_utf8_is_shown_with_replacement() {
    let parsed = parse_inner_message(None, &[0x61, 0xff, 0x62]);
    assert_eq!(parsed.display_content, "a\u{FFFD}b");
}

#[test]
fn local_login_errors_do_not_tell_users_apart() {
    assert_eq!(local_open_error(&DbError::UserNotFound("x".to_string())), "Invalid username or password");
    assert_eq!(local_open_error(&DbError::InvalidPassword), "Invalid username or password");
    assert_eq!(local_open_error(&DbError::Io("disk".to_string())), "Failed to open user database");
    assert_eq!(login_proof_message(&[1], &[2], 3), vec![1, 2, 3, 0, 0, 0, 0, 0, 0, 0]);
}

#[test]
fn hash_prefix_by_bytes() {
    let hash = "é1234567890";
    assert_eq!(accepted_pseudo(None, None, hash), "é123456");
    let placeholder = Some(LocalContact { pseudo: "é123456".to_string(), has_keys: false });
    assert_eq!(
        relay_friend_action(&placeholder, hash, "Bob"),
        RelayFriendAction::CompletePlaceholder { pseudo: "Bob".to_string() }
    );
    let short = Some(LocalContact { pseudo: "abc".to_string(), has_keys: false });
    assert_eq!(
        relay_friend_action(&short, "abc", "Bob"),
        RelayFriendAction::CompletePlaceholder { pseudo: "Bob".to_string() }
    );
}

#[test]
fn send_session_with_usable_stored_session() {
    let (s, a) = send_session_step(SendSessionState::Start, SendSessionEvent::Lookup(Ok(true)));
    assert_eq!((s.clone(), a), (SendSessionState::Loading, SendSessionAction::LoadSession));
    let (s, a) = send_session_step(s, SendSessionEvent::Loaded { usable: true });
    assert_eq!(a, SendSessionAction::Encrypt);
    let (s, a) = send_session_step(s, SendSessionEvent::Encrypted(Ok(())));
    assert_eq!((s, a), (SendSessionState::Done, SendSessionAction::Send { prekey_ids: None }));
}

#[test]
fn send_session_created_when_none_stored() {
    let (s, a) = send_session_step(SendSessionState::Start, SendSessionEvent::Lookup(Ok(false)));
    assert_eq!(a, SendSessionAction::CreateSession);
    let (s, a) = send_session_step(s, SendSessionEvent::Created(Ok((7, 3))));
    assert_eq!(a, SendSessionAction::Encrypt);
    let (_, a) = send_session_step(s.clone(), SendSessionEvent::Encrypted(Ok(())));
    assert_eq!(a, SendSessionAction::Send { prekey_ids: Some((7, 3)) });
    let (_, a) = send_session_step(s, SendSessionEvent::Encrypted(Err("E".to_string())));
    assert_eq!(a, SendSessionAction::Fail { message: "Double Ratchet encryption failed: E".to_string() });
}

#[test]
fn send_session_recreated_once_after_failures() {
    let (s, a) = send_session_step(SendSessionState::Loading, SendSessionEvent::Loaded { usable: false });
    assert_eq!((s, a), (SendSessionState::Creating { retry: false }, SendSessionAction::DeleteAndCreateSession));
    let stored = SendSessionState::Encrypting { prekey_ids: None, retry: false };
    let (s, a) = send_session_step(stored, SendSessionEvent::Encrypted(Err("E".to_string())));
    assert_eq!(a, SendSessionAction::DeleteAndCreateSession);
    let (s, _) = send_session_step(s, SendSessionEvent::Created(Ok((1, 2))));
    let (s, a) = send_session_step(s, SendSessionEvent::Encrypted(Err("F".to_string())));
    assert_eq!(s, SendSessionState::Done);
    assert_eq!(
        a,
        SendSessionAction::Fail { message: "Double Ratchet encryption failed after retry: F".to_string() }
    );
}

#[test]
fn send_session_errors() {
    let fail = |s: SendSessionState, e: SendSessionEvent| send_session_step(s, e).1;
    assert_eq!(
        fail(SendSessionState::Start, SendSessionEvent::Lookup(Err("X".to_string()))),
        SendSessionAction::Fail { message: "Failed to check session: X".to_string() }
    );
    assert_eq!(
        fail(SendSessionState::Loading, SendSessionEvent::LoadFailed { error: "Y".to_string() }),
        SendSessionAction::Fail { message: "Failed to load session: Y".to_string() }
    );
    assert_eq!(
        fail(SendSessionState::Loading, SendSessionEvent::LoadMissing),
        SendSessionAction::Fail { message: "Session exists but could not be loaded".to_string() }
    );
    assert_eq!(
        fail(SendSessionState::Creating { retry: true }, SendSessionEvent::Created(Err("no bundle".to_string()))),
        SendSessionAction::Fail { message: "no bundle".to_string() }
    );
    assert_eq!(
        fail(SendSessionState::Done, SendSessionEvent::LoadMissing),
        SendSessionAction::Ignore
    );
}

#[test]
fn envelope_routes() {
    let regular = |h: bool, l: bool, o: bool| {
        envelope_route(EnvelopeShape::Regular { has_header: h, has_layers: l, opens_session: o })
    };
    assert_eq!(regular(false, false, true), DecryptRoute::Skip);
    assert_eq!(regular(true, false, true), DecryptRoute::PreKey { synthetic: true });
    assert_eq!(regular(false, true, false), DecryptRoute::Regular);
    assert_eq!(envelope_route(EnvelopeShape::PreKey), DecryptRoute::PreKey { synthetic: false });
    assert_eq!(envelope_route(EnvelopeShape::Empty), DecryptRoute::Skip);
}
