//! Client configuration for the DHT API: transports, defaults, the local
//! friend client and the checks made on a registration request.
use vstd::prelude::*;

use crate::api_error::{ApiError, ApiErrorView};
use crate::text::{push_decimal, push_str};
use crate::text::decimal_spec;

verus! {

/// Anonymity network (or plain HTTP) used to reach the DHT API.
#[derive(Debug, Clone, Copy, PartialEq, Eq, Structural)]
pub enum DarknetType {
    Tor,
    I2P,
    Lokinet,
    Http,
}

/// Lower-case name of a transport, as understood by the request layer.
pub open spec fn darknet_name(d: DarknetType) -> Seq<char> {
    match d {
        DarknetType::Tor => "tor"@,
        DarknetType::I2P => "i2p"@,
        DarknetType::Lokinet => "lokinet"@,
        DarknetType::Http => "http"@,
    }
}

impl DarknetType {
    /// Name of the transport.
    pub fn as_str(&self) -> (r: &'static str)
        ensures
            r@ == darknet_name(*self),
    {
        match self {
            DarknetType::Tor => "tor",
            DarknetType::I2P => "i2p",
            DarknetType::Lokinet => "lokinet",
            DarknetType::Http => "http",
        }
    }
}

/// The DHT API address of a release build.
pub open spec fn release_api_url() -> Seq<char> {
    "https://api.zenth-project.com"@
}

/// The DHT API address of a release build.
pub fn dht_api_url() -> (r: String)
    ensures
        r@ == release_api_url(),
{
    "https://api.zenth-project.com".to_owned()
}

/// The WebSocket address of a release build.
pub open spec fn release_ws_url() -> Seq<char> {
    "wss://api.zenth-project.com"@
}

/// The WebSocket address of a release build.
pub fn ws_url() -> (r: String)
    ensures
        r@ == release_ws_url(),
{
    "wss://api.zenth-project.com".to_owned()
}

/// Whether the value of the development setting that allows self-signed
/// certificates turns it on: `1`, or `true` in any case.
pub open spec fn invalid_certs_enabled(value: Seq<char>) -> bool {
    value == "1"@ || crate::messages::spec_to_lowercase(value) == "true"@
}

/// Reads the development setting that allows self-signed certificates.
pub fn invalid_certs_flag(value: &str) -> (r: bool)
    ensures
        r == invalid_certs_enabled(value@),
        vstd::string::is_ascii(value) ==> r == (value@ == "1"@ || crate::messages::ascii_lower(value@)
            == "true"@),
{
    if crate::text::str_eq(value, "1") {
        return true;
    }
    let lower = crate::messages::to_lowercase(value);
    crate::text::str_eq(lower.as_str(), "true")
}

/// Settings of the registration client (and of the clients built from it).
#[derive(Debug, Clone)]
pub struct RegisterConfig {
    pub base_url: String,
    pub darknet: DarknetType,
    pub timeout_secs: u64,
    pub max_retries: u32,
    pub retry_delay_ms: u64,
}

impl Default for RegisterConfig {
    /// Tor, 30 s, 3 retries, 1000 ms between retries.
    fn default() -> (r: Self)
        ensures
            r.base_url@ == release_api_url(),
            r.darknet == DarknetType::Tor,
            r.timeout_secs == 30,
            r.max_retries == 3,
            r.retry_delay_ms == 1000,
    {
        RegisterConfig {
            base_url: dht_api_url(),
            darknet: DarknetType::Tor,
            timeout_secs: 30,
            max_retries: 3,
            retry_delay_ms: 1000,
        }
    }
}

/// Settings of the friend client.
#[derive(Debug, Clone)]
pub struct FriendConfig {
    pub base_url: String,
    pub darknet: DarknetType,
    pub timeout_secs: u64,
    pub max_retries: u32,
    pub retry_delay_ms: u64,
}

impl Default for FriendConfig {
    /// HTTP, 30 s, 3 retries, 1000 ms between retries.
    fn default() -> (r: Self)
        ensures
            r.base_url@ == release_api_url(),
            r.darknet == DarknetType::Http,
            r.timeout_secs == 30,
            r.max_retries == 3,
            r.retry_delay_ms == 1000,
    {
        FriendConfig {
            base_url: dht_api_url(),
            darknet: DarknetType::Http,
            timeout_secs: 30,
            max_retries: 3,
            retry_delay_ms: 1000,
        }
    }
}

impl From<RegisterConfig> for FriendConfig {
    /// Every field is carried over.
    fn from(config: RegisterConfig) -> (r: Self) {
        FriendConfig {
            base_url: config.base_url,
            darknet: config.darknet,
            timeout_secs: config.timeout_secs,
            max_retries: config.max_retries,
            retry_delay_ms: config.retry_delay_ms,
        }
    }
}

impl vstd::std_specs::convert::FromSpecImpl<RegisterConfig> for FriendConfig {
    open spec fn obeys_from_spec() -> bool {
        true
    }

    open spec fn from_spec(config: RegisterConfig) -> FriendConfig {
        FriendConfig {
            base_url: config.base_url,
            darknet: config.darknet,
            timeout_secs: config.timeout_secs,
            max_retries: config.max_retries,
            retry_delay_ms: config.retry_delay_ms,
        }
    }
}

/// Settings of the pre-key client.
#[derive(Debug, Clone)]
pub struct PreKeyConfig {
    pub base_url: String,
    pub darknet: DarknetType,
    pub timeout_secs: u64,
    pub max_retries: u32,
    pub retry_delay_ms: u64,
}

impl Default for PreKeyConfig {
    /// HTTP, 30 s, 3 retries, 1000 ms between retries.
    fn default() -> (r: Self)
        ensures
            r.base_url@ == release_api_url(),
            r.darknet == DarknetType::Http,
            r.timeout_secs == 30,
            r.max_retries == 3,
            r.retry_delay_ms == 1000,
    {
        PreKeyConfig {
            base_url: dht_api_url(),
            darknet: DarknetType::Http,
            timeout_secs: 30,
            max_retries: 3,
            retry_delay_ms: 1000,
        }
    }
}

/// The settings used by device synchronisation: HTTP, 10 s, one retry,
/// 500 ms between retries.
pub fn dht_config() -> (r: RegisterConfig)
    ensures
        r.base_url@ == release_api_url(),
        r.darknet == DarknetType::Http,
        r.timeout_secs == 10,
        r.max_retries == 1,
        r.retry_delay_ms == 500,
{
    RegisterConfig {
        base_url: dht_api_url(),
        darknet: DarknetType::Http,
        timeout_secs: 10,
        max_retries: 1,
        retry_delay_ms: 500,
    }
}

/// The clients that open a transport: which transport each one asks for.
#[derive(Debug, Clone, Copy, PartialEq, Eq, Structural)]
pub enum ApiClientKind {
    Register,
    Login,
    PreKey,
    Delete,
    Sync,
    Recovery,
}

/// Whether a client refuses an empty base URL before anything else.
pub open spec fn checks_base_url(kind: ApiClientKind) -> bool {
    kind == ApiClientKind::Register || kind == ApiClientKind::Login || kind == ApiClientKind::PreKey
}

/// Which transport a client opens for a network, or the error it returns.
/// The registration, login and pre-key clients refuse an empty base URL
/// first; the sync and recovery clients open only Tor and HTTP; of the
/// others, only the pre-key client opens Lokinet and none opens I2P.
pub open spec fn transport_choice_spec(
    kind: ApiClientKind,
    base_url: Seq<char>,
    darknet: DarknetType,
) -> Result<DarknetType, ApiErrorView> {
    if checks_base_url(kind) && base_url.len() == 0 {
        Err(ApiErrorView::InvalidRegistrationData("Base URL cannot be empty"@))
    } else {
        match darknet {
            DarknetType::Tor => Ok(DarknetType::Tor),
            DarknetType::Http => Ok(DarknetType::Http),
            _ => if kind == ApiClientKind::Sync || kind == ApiClientKind::Recovery {
                Err(ApiErrorView::Network("Transport non supporté"@))
            } else if darknet == DarknetType::I2P {
                Err(ApiErrorView::I2pNotImplemented)
            } else if kind == ApiClientKind::PreKey {
                Ok(DarknetType::Lokinet)
            } else {
                Err(ApiErrorView::LokinetNotImplemented)
            },
        }
    }
}

/// Decides which transport a client opens for its configuration.
pub fn transport_choice(kind: ApiClientKind, base_url: &str, darknet: DarknetType) -> (r: Result<
    DarknetType,
    ApiError,
>)
    ensures
        match r {
            Ok(t) => transport_choice_spec(kind, base_url@, darknet) == Ok::<DarknetType, ApiErrorView>(t),
            Err(e) => transport_choice_spec(kind, base_url@, darknet) == Err::<DarknetType, ApiErrorView>(e@),
        },
{
    let checks = kind == ApiClientKind::Register || kind == ApiClientKind::Login || kind
        == ApiClientKind::PreKey;
    if checks && base_url.is_empty() {
        return Err(ApiError::InvalidRegistrationData("Base URL cannot be empty".to_owned()));
    }
    match darknet {
        DarknetType::Tor => Ok(DarknetType::Tor),
        DarknetType::Http => Ok(DarknetType::Http),
        _ => {
            if kind == ApiClientKind::Sync || kind == ApiClientKind::Recovery {
                Err(ApiError::Network("Transport non supporté".to_owned()))
            } else if darknet == DarknetType::I2P {
                Err(ApiError::I2pNotImplemented)
            } else if kind == ApiClientKind::PreKey {
                Ok(DarknetType::Lokinet)
            } else {
                Err(ApiError::LokinetNotImplemented)
            }
        },
    }
}

/// Pause before retry number `attempt` (linear back-off); none before the
/// first attempt.
pub open spec fn retry_delay_spec(retry_delay_ms: u64, attempt: u32) -> int {
    retry_delay_ms * attempt
}

/// Pause before retry number `attempt`, in milliseconds.
pub fn retry_delay(retry_delay_ms: u64, attempt: u32) -> (r: u64)
    requires
        retry_delay_ms * attempt <= u64::MAX,
    ensures
        r == retry_delay_spec(retry_delay_ms, attempt),
{
    retry_delay_ms * (attempt as u64)
}

/// The registration request as the client builds it.
#[derive(Debug, Clone)]
pub struct RegistrationRequest {
    pub username_hash: Vec<u8>,
    pub pre_key_bundle: Vec<u8>,
    pub password_commitment: Vec<u8>,
    pub initial_proof: Vec<u8>,
    pub identity_key_dilithium: Vec<u8>,
    pub identity_signature: Vec<u8>,
    pub timestamp: u64,
    pub proof_type: i32,
}

/// The first problem of a registration request, in the order the client
/// checks them, or `None`.
pub open spec fn registration_problem(r: RegistrationRequest) -> Option<Seq<char>> {
    if r.username_hash@.len() == 0 {
        Some("Username hash cannot be empty"@)
    } else if r.username_hash@.len() != 32 {
        Some(
            "Invalid username hash length: expected 32 (SHA256), got "@ + decimal_spec(
                r.username_hash@.len(),
            ),
        )
    } else if r.pre_key_bundle@.len() == 0 {
        Some("Pre-key bundle cannot be empty"@)
    } else if r.password_commitment@.len() == 0 {
        Some("Password commitment cannot be empty"@)
    } else if r.initial_proof@.len() == 0 {
        Some("Initial proof cannot be empty"@)
    } else if r.identity_key_dilithium@.len() == 0 {
        Some("Identity key cannot be empty"@)
    } else if r.identity_signature@.len() == 0 {
        Some("Identity signature cannot be empty"@)
    } else if r.timestamp == 0 {
        Some("Timestamp cannot be zero"@)
    } else {
        None
    }
}

/// Checks a registration request before it is sent.
pub fn validate_registration_request(request: &RegistrationRequest) -> (r: Result<(), ApiError>)
    ensures
        r is Ok <==> registration_problem(*request) is None,
        r matches Err(e) ==> (registration_problem(*request) matches Some(m) && e@
            == ApiErrorView::InvalidRegistrationData(m)),
{
    let msg: &str = if request.username_hash.len() == 0 {
        "Username hash cannot be empty"
    } else if request.username_hash.len() != 32 {
        let mut s = String::new();
        push_str(&mut s, "Invalid username hash length: expected 32 (SHA256), got ");
        push_decimal(&mut s, request.username_hash.len() as u64);
        return Err(ApiError::InvalidRegistrationData(s));
    } else if request.pre_key_bundle.len() == 0 {
        "Pre-key bundle cannot be empty"
    } else if request.password_commitment.len() == 0 {
        "Password commitment cannot be empty"
    } else if request.initial_proof.len() == 0 {
        "Initial proof cannot be empty"
    } else if request.identity_key_dilithium.len() == 0 {
        "Identity key cannot be empty"
    } else if request.identity_signature.len() == 0 {
        "Identity signature cannot be empty"
    } else if request.timestamp == 0 {
        "Timestamp cannot be zero"
    } else {
        return Ok(());
    };
    Err(ApiError::InvalidRegistrationData(msg.to_owned()))
}

/// Public keys of a user, as a lookup returns them.
#[derive(Debug, Clone)]
pub struct UserPublicInfo {
    pub username_hash: String,
    pub identity_key_dilithium: Vec<u8>,
    pub kyber_public_key: Vec<u8>,
    pub x25519_public_key: Option<Vec<u8>>,
    pub signed_pre_key: Option<Vec<u8>>,
    pub signed_pre_key_signature: Option<Vec<u8>>,
    pub one_time_pre_key: Option<Vec<u8>>,
}

/// A friend request to send.
#[derive(Debug, Clone)]
pub struct FriendRequestPayload {
    pub from_username_hash: Vec<u8>,
    pub to_username_hash: Vec<u8>,
    pub from_identity_key: Vec<u8>,
    pub from_kyber_public_key: Vec<u8>,
    pub from_x25519_public_key: Option<Vec<u8>>,
    pub from_pseudo: Option<String>,
    pub message: Option<String>,
    pub timestamp: u64,
    pub signature: Vec<u8>,
}

/// The answer to a friend request.
#[derive(Debug, Clone)]
pub struct FriendResponsePayload {
    pub from_username_hash: Vec<u8>,
    pub to_username_hash: Vec<u8>,
    pub accepted: bool,
    pub from_identity_key: Vec<u8>,
    pub from_kyber_public_key: Vec<u8>,
    pub from_x25519_public_key: Option<Vec<u8>>,
    pub from_pseudo: Option<String>,
    pub timestamp: u64,
    pub signature: Vec<u8>,
}

/// A friend request received from the server.
#[derive(Debug, Clone)]
pub struct IncomingFriendRequest {
    pub from_username_hash: String,
    pub from_identity_key: Vec<u8>,
    pub from_kyber_public_key: Vec<u8>,
    pub from_x25519_public_key: Option<Vec<u8>>,
    pub from_pseudo: Option<String>,
    pub message: Option<String>,
    pub timestamp: u64,
    pub signature: Vec<u8>,
}

/// The friend client. The server protocol has no friend methods yet, so the
/// client works locally: sending and answering succeed, fetching returns
/// nothing and a lookup fails.
pub struct FriendApiClient {
    config: FriendConfig,
}

impl FriendApiClient {
    /// The settings of the client.
    pub closed spec fn spec_config(&self) -> FriendConfig {
        self.config
    }

    /// A client for `config`; an empty base URL is refused.
    pub fn new(config: FriendConfig) -> (r: Result<FriendApiClient, ApiError>)
        ensures
            config.base_url@.len() == 0 <==> r is Err,
            r matches Err(e) ==> e@ == ApiErrorView::InvalidRegistrationData("Base URL cannot be empty"@),
            r matches Ok(c) ==> c.spec_config() == config,
    {
        if config.base_url.as_str().is_empty() {
            return Err(ApiError::InvalidRegistrationData("Base URL cannot be empty".to_owned()));
        }
        Ok(FriendApiClient { config })
    }

    /// Looks a user up; the protocol does not offer it yet, so this fails.
    pub fn lookup_user(&self, target_hash: &[u8]) -> (r: Result<UserPublicInfo, ApiError>)
        ensures
            r matches Err(e) && e@ == ApiErrorView::Network(lookup_unavailable_message()),
    {
        Err(ApiError::Network(lookup_unavailable_text()))
    }

    /// Sends a friend request; it is kept locally until the protocol carries it.
    pub fn send_friend_request(&self, request: FriendRequestPayload) -> (r: Result<(), ApiError>)
        ensures
            r is Ok,
    {
        Ok(())
    }

    /// Pending requests of the server; none until the protocol carries them.
    pub fn fetch_pending_requests(&self, user_hash: &[u8], session_token: &[u8]) -> (r: Result<
        Vec<IncomingFriendRequest>,
        ApiError,
    >)
        ensures
            r matches Ok(v) && v@.len() == 0,
    {
        Ok(Vec::new())
    }

    /// Answers a friend request; it is kept locally until the protocol carries it.
    pub fn respond_to_request(&self, response: FriendResponsePayload) -> (r: Result<(), ApiError>)
        ensures
            r is Ok,
    {
        Ok(())
    }

    /// The settings of the client.
    pub fn config(&self) -> (r: &FriendConfig)
        ensures
            *r == self.spec_config(),
    {
        &self.config
    }
}

/// Why a lookup fails.
pub open spec fn lookup_unavailable_message() -> Seq<char> {
    "User lookup not yet implemented in server protocol. Friend requests currently work with direct key exchange only."@
}

fn lookup_unavailable_text() -> (r: String)
    ensures
        r@ == lookup_unavailable_message(),
{
    "User lookup not yet implemented in server protocol. Friend requests currently work with direct key exchange only.".to_owned()
}

/// The request that deletes an account from the directory.
#[derive(Debug, Clone, PartialEq, Eq)]
pub struct DeleteRequest {
    pub user_hash_id: Vec<u8>,
    pub dilithium_signature: Vec<u8>,
    pub timestamp: u64,
}

/// The directory's answer to a deletion.
#[derive(Debug, Clone, PartialEq, Eq)]
pub struct DeleteResponse {
    pub success: bool,
    pub error_message: String,
}

} // verus!
