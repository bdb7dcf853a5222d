use zenth_client::api_config::{invalid_certs_flag, ws_url};
use zenth_client::api_config::{
    dht_api_url, dht_config, retry_delay, transport_choice, validate_registration_request,
    ApiClientKind, DarknetType, FriendApiClient, FriendConfig, FriendRequestPayload,
    FriendResponsePayload, PreKeyConfig, RegisterConfig, RegistrationRequest,
};
use zenth_client::api_error::{
    check_http_status, preview_body, ApiError, ErrorBodyInfo, LoginErrorBody, VersionOutdated,
};
use zenth_client::clock::current_timestamp;

#[test]
fn friend_test_default_config() {
    let config = FriendConfig::default();
    assert_eq!(config.timeout_secs, 30);
    assert_eq!(config.max_retries, 3);
}

#[test]
fn test_config_from_register() {
    let register_config = RegisterConfig {
        base_url: "http://example.com".to_string(),
        darknet: DarknetType::Http,
        timeout_secs: 60,
        max_retries: 5,
        retry_delay_ms: 2000,
    };
    let friend_config: FriendConfig = register_config.into();
    assert_eq!(friend_config.base_url, "http://example.com");
    assert_eq!(friend_config.timeout_secs, 60);
}

#[test]
fn prekeys_test_default_config() {
    let config = PreKeyConfig::default();
    assert_eq!(config.timeout_secs, 30);
    assert_eq!(config.max_retries, 3);
    assert_eq!(config.darknet, DarknetType::Http);
}

#[test]
fn prekeys_test_current_timestamp() {
    let ts = current_timestamp();
    assert!(ts > 0);
}

#[test]
fn register_test_default_config() {
    let config = RegisterConfig::default();
    assert_eq!(config.timeout_secs, 30);
    assert_eq!(config.max_retries, 3);
    assert_eq!(config.darknet, DarknetType::Tor);
}

#[test]
fn test_darknet_type_as_str() {
    assert_eq!(DarknetType::Tor.as_str(), "tor");
    assert_eq!(DarknetType::I2P.as_str(), "i2p");
    assert_eq!(DarknetType::Lokinet.as_str(), "lokinet");
    assert_eq!(DarknetType::Http.as_str(), "http");
}

#[test]
fn test_validate_empty_username_hash() {
    let request = RegistrationRequest {
        username_hash: vec![],
        pre_key_bundle: vec![1, 2, 3],
        password_commitment: vec![1, 2, 3],
        initial_proof: vec![1, 2, 3],
        identity_key_dilithium: vec![1, 2, 3],
        identity_signature: vec![1, 2, 3],
        timestamp: 12345,
        proof_type: 0,
    };
    let result = validate_registration_request(&request);
    assert!(result.is_err());
}

#[test]
fn test_i2p_not_implemented() {
    let config = RegisterConfig { darknet: DarknetType::I2P, ..Default::default() };
    let result = transport_choice(ApiClientKind::Register, &config.base_url, config.darknet);
    assert!(matches!(result, Err(ApiError::I2pNotImplemented)));
}

#[test]
fn test_lokinet_not_implemented() {
    let config = RegisterConfig { darknet: DarknetType::Lokinet, ..Default::default() };
    let result = transport_choice(ApiClientKind::Register, &config.base_url, config.darknet);
    assert!(matches!(result, Err(ApiError::LokinetNotImplemented)));
}

fn valid_request() -> RegistrationRequest {
    RegistrationRequest {
        username_hash: vec![7; 32],
        pre_key_bundle: vec![1],
        password_commitment: vec![2],
        initial_proof: vec![3],
        identity_key_dilithium: vec![4],
        identity_signature: vec![5],
        timestamp: 1,
        proof_type: 0,
    }
}

fn registration_error(request: &RegistrationRequest) -> String {
    match validate_registration_request(request) {
        Err(ApiError::InvalidRegistrationData(m)) => m,
        other => panic!("unexpected result {:?}", other),
    }
}

#[test]
fn registration_request_checks_in_order() {
    assert_eq!(validate_registration_request(&valid_request()), Ok(()));
    let mut r = valid_request();
    r.username_hash = vec![1; 5];
    assert_eq!(
        registration_error(&r),
        "Invalid username hash length: expected 32 (SHA256), got 5"
    );
    let mut r = valid_request();
    r.pre_key_bundle = vec![];
    r.timestamp = 0;
    assert_eq!(registration_error(&r), "Pre-key bundle cannot be empty");
    let mut r = valid_request();
    r.password_commitment = vec![];
    assert_eq!(registration_error(&r), "Password commitment cannot be empty");
    let mut r = valid_request();
    r.initial_proof = vec![];
    assert_eq!(registration_error(&r), "Initial proof cannot be empty");
    let mut r = valid_request();
    r.identity_key_dilithium = vec![];
    assert_eq!(registration_error(&r), "Identity key cannot be empty");
    let mut r = valid_request();
    r.identity_signature = vec![];
    assert_eq!(registration_error(&r), "Identity signature cannot be empty");
    let mut r = valid_request();
    r.timestamp = 0;
    assert_eq!(registration_error(&r), "Timestamp cannot be zero");
    let mut r = valid_request();
    r.username_hash = vec![];
    assert_eq!(registration_error(&r), "Username hash cannot be empty");
}

#[test]
fn transports_by_client() {
    let url = "http://x";
    assert_eq!(transport_choice(ApiClientKind::Login, url, DarknetType::Tor), Ok(DarknetType::Tor));
    assert_eq!(transport_choice(ApiClientKind::Delete, url, DarknetType::Http), Ok(DarknetType::Http));
    assert_eq!(
        transport_choice(ApiClientKind::PreKey, url, DarknetType::Lokinet),
        Ok(DarknetType::Lokinet)
    );
    assert_eq!(
        transport_choice(ApiClientKind::PreKey, url, DarknetType::I2P),
        Err(ApiError::I2pNotImplemented)
    );
    assert_eq!(
        transport_choice(ApiClientKind::Sync, url, DarknetType::I2P),
        Err(ApiError::Network("Transport non supporté".to_string()))
    );
    assert_eq!(
        transport_choice(ApiClientKind::Recovery, url, DarknetType::Lokinet),
        Err(ApiError::Network("Transport non supporté".to_string()))
    );
    assert_eq!(
        transport_choice(ApiClientKind::Login, "", DarknetType::Tor),
        Err(ApiError::InvalidRegistrationData("Base URL cannot be empty".to_string()))
    );
    // The delete client does not look at the address.
    assert_eq!(transport_choice(ApiClientKind::Delete, "", DarknetType::Tor), Ok(DarknetType::Tor));
}

#[test]
fn sync_settings_and_release_address() {
    let c = dht_config();
    assert_eq!(c.base_url, "https://api.zenth-project.com");
    assert_eq!(dht_api_url(), "https://api.zenth-project.com");
    assert_eq!(c.darknet, DarknetType::Http);
    assert_eq!(c.timeout_secs, 10);
    assert_eq!(c.max_retries, 1);
    assert_eq!(c.retry_delay_ms, 500);
}

#[test]
fn retry_delay_is_linear() {
    assert_eq!(retry_delay(1000, 0), 0);
    assert_eq!(retry_delay(1000, 3), 3000);
    assert_eq!(retry_delay(500, 2), 1000);
}

#[test]
fn friend_client_works_locally() {
    let empty = FriendConfig { base_url: String::new(), ..Default::default() };
    assert!(matches!(
        FriendApiClient::new(empty),
        Err(ApiError::InvalidRegistrationData(m)) if m == "Base URL cannot be empty"
    ));
    let client = FriendApiClient::new(FriendConfig::default()).unwrap();
    assert_eq!(client.config().timeout_secs, 30);
    assert!(matches!(client.lookup_user(&[1, 2]), Err(ApiError::Network(_))));
    assert_eq!(client.fetch_pending_requests(&[1], &[2]).unwrap().len(), 0);
    let request = FriendRequestPayload {
        from_username_hash: vec![1],
        to_username_hash: vec![2],
        from_identity_key: vec![3],
        from_kyber_public_key: vec![4],
        from_x25519_public_key: None,
        from_pseudo: Some("alice".to_string()),
        message: None,
        timestamp: 5,
        signature: vec![6],
    };
    assert!(client.send_friend_request(request).is_ok());
    let response = FriendResponsePayload {
        from_username_hash: vec![1],
        to_username_hash: vec![2],
        accepted: true,
        from_identity_key: vec![3],
        from_kyber_public_key: vec![4],
        from_x25519_public_key: None,
        from_pseudo: None,
        timestamp: 4,
        signature: vec![5],
    };
    assert!(client.respond_to_request(response).is_ok());
}

#[test]
fn http_status_messages() {
    assert_eq!(check_http_status(200, b"", None), Ok(()));
    assert_eq!(
        check_http_status(0, b"", None),
        Err(ApiError::Server(
            0,
            "SERVER_UNAVAILABLE: no response (network unreachable or DNS failure)".to_string()
        ))
    );
    assert_eq!(
        check_http_status(504, b"", None),
        Err(ApiError::Server(504, "SERVER_UNAVAILABLE: request timed out".to_string()))
    );
    assert_eq!(
        check_http_status(429, b"", None),
        Err(ApiError::Server(429, "SERVER_UNAVAILABLE: too many requests, please wait".to_string()))
    );
    assert_eq!(
        check_http_status(503, b"", None),
        Err(ApiError::Server(503, "SERVER_UNAVAILABLE: server error (HTTP 503)".to_string()))
    );
    assert_eq!(
        check_http_status(404, b"  not\x00\x01found?? here  ", None),
        Err(ApiError::Server(404, "SERVER_ERROR: client error (HTTP 404): not found  here".to_string()))
    );
    assert_eq!(
        check_http_status(302, b"", None),
        Err(ApiError::Server(302, "SERVER_ERROR: unexpected HTTP status 302".to_string()))
    );
}

#[test]
fn http_status_uses_decoded_body() {
    let with_message = ErrorBodyInfo { error_message: "bad signature".to_string(), login: None };
    assert_eq!(
        check_http_status(401, b"", Some(with_message)),
        Err(ApiError::Server(401, "bad signature".to_string()))
    );
    let outdated = ErrorBodyInfo {
        error_message: String::new(),
        login: Some(LoginErrorBody {
            version_outdated: Some(VersionOutdated {
                min_version: String::new(),
                latest_version: "2.1.0".to_string(),
            }),
            error_message: "ignored".to_string(),
        }),
    };
    assert_eq!(
        check_http_status(426, b"", Some(outdated)),
        Err(ApiError::Server(426, "VERSION_OUTDATED:2.1.0".to_string()))
    );
    let login_message = ErrorBodyInfo {
        error_message: String::new(),
        login: Some(LoginErrorBody { version_outdated: None, error_message: "locked".to_string() }),
    };
    assert_eq!(
        check_http_status(403, b"", Some(login_message)),
        Err(ApiError::Server(403, "locked".to_string()))
    );
}

#[test]
fn preview_keeps_first_200_bytes() {
    let body = vec![b'a'; 300];
    assert_eq!(preview_body(&body).len(), 200);
    assert_eq!(preview_body(b"\n\thello   world\r\n"), "hello   world");
    assert_eq!(preview_body(b""), "");
}

#[test]
fn release_addresses_and_certificate_flag() {
    assert_eq!(ws_url(), "wss://api.zenth-project.com");
    assert!(invalid_certs_flag("1"));
    assert!(invalid_certs_flag("TRUE"));
    assert!(invalid_certs_flag("true"));
    assert!(!invalid_certs_flag("yes"));
    assert!(!invalid_certs_flag("0"));
}
