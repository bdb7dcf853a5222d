//! Registration: the retries of the registration request, the text of an
//! API error and the message a failed registration shows, and the pre-key
//! records a new account stores.
use vstd::prelude::*;

use crate::api_error::{ApiError, ApiErrorView};
use crate::messages::{contains_text, spec_to_lowercase, text_contains, to_lowercase};
use crate::text::{decimal_spec, push_decimal, push_str};

verus! {

/// Number of one-time pre-keys made at registration.
pub const NUM_ONE_TIME_PREKEYS: u32 = 100;

/// Fewest one-time pre-keys left on the server before more are uploaded.
pub const MIN_PREKEY_COUNT: u32 = 20;

/// Number of one-time pre-keys uploaded at a time.
pub const DEFAULT_PREKEY_COUNT: u32 = 100;

/// A one-time pre-key with its encrypted private key.
#[derive(Debug, Clone)]
pub struct PreKeyData {
    pub pre_key_id: u32,
    pub public_key: Vec<u8>,
    pub private_key_encrypted: Vec<u8>,
    pub private_key_iv: Vec<u8>,
}

/// The signed pre-key with its Dilithium signature.
#[derive(Debug, Clone)]
pub struct SignedPreKeyData {
    pub signed_pre_key_id: u32,
    pub public_key: Vec<u8>,
    pub private_key_encrypted: Vec<u8>,
    pub private_key_iv: Vec<u8>,
    pub signature: Vec<u8>,
}

/// A Kyber pre-key.
#[derive(Debug, Clone)]
pub struct KyberPreKeyData {
    pub pq_pre_key_id: u32,
    pub public_key: Vec<u8>,
    pub private_key_encrypted: Vec<u8>,
    pub private_key_iv: Vec<u8>,
}

/// All pre-keys of an account.
#[derive(Debug, Clone)]
pub struct LocalPreKeyBundle {
    pub one_time_pre_keys: Vec<PreKeyData>,
    pub signed_pre_key: SignedPreKeyData,
    pub kyber_pre_key: KyberPreKeyData,
    pub kyber_last_resort: KyberPreKeyData,
}

/// Whether the server holds too few one-time pre-keys.
pub fn needs_replenish(one_time_prekey_count: u32) -> (r: bool)
    ensures
        r == (one_time_prekey_count < MIN_PREKEY_COUNT),
{
    one_time_prekey_count < MIN_PREKEY_COUNT
}

/// The text of an API error.
pub open spec fn api_error_text(e: ApiErrorView) -> Seq<char> {
    match e {
        ApiErrorView::Network(m) => "Network error: "@ + m,
        ApiErrorView::Timeout(s) => "Request timeout after "@ + decimal_spec(s as nat) + "s"@,
        ApiErrorView::Server(c, m) => "Server error ("@ + decimal_spec(c as nat) + "): "@ + m,
        ApiErrorView::InvalidResponse(m) => "Invalid response format: "@ + m,
        ApiErrorView::Serialization(m) => "Serialization error: "@ + m,
        ApiErrorView::I2pNotImplemented => "I2P connection not implemented yet"@,
        ApiErrorView::LokinetNotImplemented => "Lokinet connection not implemented yet"@,
        ApiErrorView::InvalidRegistrationData(m) => "Invalid registration data: "@ + m,
        ApiErrorView::AuthenticationFailed(m) => "Authentication failed: "@ + m,
        ApiErrorView::MaxRetriesExceeded(n) => "Max retries ("@ + decimal_spec(n as nat)
            + ") exceeded"@,
    }
}

impl ApiError {
    /// The text of the error.
    pub fn message(&self) -> (r: String)
        ensures
            r@ == api_error_text(self@),
    {
        let mut s = String::new();
        match self {
            ApiError::Network(m) => {
                push_str(&mut s, "Network error: ");
                push_str(&mut s, m.as_str());
            },
            ApiError::Timeout(t) => {
                push_str(&mut s, "Request timeout after ");
                push_decimal(&mut s, *t);
                push_str(&mut s, "s");
            },
            ApiError::Server(c, m) => {
                push_str(&mut s, "Server error (");
                push_decimal(&mut s, *c as u64);
                push_str(&mut s, "): ");
                push_str(&mut s, m.as_str());
            },
            ApiError::InvalidResponse(m) => {
                push_str(&mut s, "Invalid response format: ");
                push_str(&mut s, m.as_str());
            },
            ApiError::Serialization(m) => {
                push_str(&mut s, "Serialization error: ");
                push_str(&mut s, m.as_str());
            },
            ApiError::I2pNotImplemented => {
                push_str(&mut s, "I2P connection not implemented yet");
            },
            ApiError::LokinetNotImplemented => {
                push_str(&mut s, "Lokinet connection not implemented yet");
            },
            ApiError::InvalidRegistrationData(m) => {
                push_str(&mut s, "Invalid registration data: ");
                push_str(&mut s, m.as_str());
            },
            ApiError::AuthenticationFailed(m) => {
                push_str(&mut s, "Authentication failed: ");
                push_str(&mut s, m.as_str());
            },
            ApiError::MaxRetriesExceeded(n) => {
                push_str(&mut s, "Max retries (");
                push_decimal(&mut s, *n as u64);
                push_str(&mut s, ") exceeded");
            },
        }
        s
    }
}

// ---------------------------------------------------------------------------
// Retries of a request
// ---------------------------------------------------------------------------

/// Whether an error ends the retries at once (the request itself is wrong).
pub open spec fn is_fatal(e: ApiErrorView) -> bool {
    e is InvalidRegistrationData || e is AuthenticationFailed
}

/// The retries of a request: attempts `0..=max_retries`, a pause of
/// `retry_delay_ms * attempt` before each retry, stopping at a fatal error.
pub struct RetryLoop {
    max_retries: u32,
    retry_delay_ms: u64,
    stop_on_fatal: bool,
    attempt: u64,
    stopped: bool,
    last_error: Option<ApiError>,
}

impl RetryLoop {
    /// The largest retry number.
    pub closed spec fn max(&self) -> u32 {
        self.max_retries
    }

    /// The base pause between retries, in milliseconds.
    pub closed spec fn delay(&self) -> u64 {
        self.retry_delay_ms
    }

    /// Whether a fatal error ends the retries.
    pub closed spec fn stops_on_fatal(&self) -> bool {
        self.stop_on_fatal
    }

    /// Number of attempts made so far.
    pub closed spec fn attempts(&self) -> nat {
        self.attempt as nat
    }

    /// Whether no further attempt is made.
    pub closed spec fn finished(&self) -> bool {
        self.stopped || self.attempt > self.max()
    }

    /// The error of the last failed attempt.
    pub closed spec fn last(&self) -> Option<ApiError> {
        self.last_error
    }

    /// A loop before its first attempt. The registration client stops on a
    /// fatal error; the pre-key client retries every error.
    pub fn new(max_retries: u32, retry_delay_ms: u64, stop_on_fatal: bool) -> (r: RetryLoop)
        ensures
            r.max() == max_retries,
            r.delay() == retry_delay_ms,
            r.stops_on_fatal() == stop_on_fatal,
            r.attempts() == 0,
            !r.finished(),
            r.last() is None,
    {
        RetryLoop { max_retries, retry_delay_ms, stop_on_fatal, attempt: 0, stopped: false, last_error: None }
    }

    /// Whether another attempt is made.
    pub fn should_attempt(&self) -> (r: bool)
        ensures
            r == !self.finished(),
    {
        !self.stopped && self.attempt <= self.max_retries as u64
    }

    /// The pause before the next attempt: none before the first.
    pub fn delay_before_attempt(&self) -> (r: u64)
        requires
            self.delay() * self.attempts() <= u64::MAX,
        ensures
            r == self.delay() * self.attempts(),
    {
        self.retry_delay_ms * self.attempt
    }

    /// Records a failed attempt: the error becomes the last one, and a fatal
    /// error (when the loop stops on those) ends the retries. A loop never
    /// makes more than `max_retries + 1` attempts.
    pub fn record_failure(&mut self, e: ApiError)
        requires
            !old(self).finished(),
        ensures
            final(self).max() == old(self).max(),
            final(self).delay() == old(self).delay(),
            final(self).stops_on_fatal() == old(self).stops_on_fatal(),
            final(self).attempts() == old(self).attempts() + 1,
            final(self).attempts() <= final(self).max() + 1,
            final(self).last() == Some(e),
            (old(self).stops_on_fatal() && is_fatal(e@)) ==> final(self).finished(),
            !(old(self).stops_on_fatal() && is_fatal(e@)) ==> (final(self).finished() <==> old(
                self,
            ).attempts() + 1 > old(self).max()),
    {
        let fatal = match &e {
            ApiError::InvalidRegistrationData(_) => true,
            ApiError::AuthenticationFailed(_) => true,
            _ => false,
        };
        if self.stop_on_fatal && fatal {
            self.stopped = true;
        }
        self.attempt = self.attempt + 1;
        self.last_error = Some(e);
    }

    /// The error returned once the retries are over: the last error, or
    /// `MaxRetriesExceeded` when no attempt failed.
    pub fn final_error(self) -> (r: ApiError)
        ensures
            match self.last() {
                Some(e) => r == e,
                None => r@ == ApiErrorView::MaxRetriesExceeded(self.max()),
            },
    {
        match self.last_error {
            Some(e) => e,
            None => ApiError::MaxRetriesExceeded(self.max_retries),
        }
    }
}

/// Reads a registration answer: a refusal with a message becomes a server
/// error 400.
pub fn registration_answer(success: bool, error_message: &str) -> (r: Result<(), ApiError>)
    ensures
        (!success && error_message@.len() > 0) <==> r is Err,
        r matches Err(e) ==> e@ == ApiErrorView::Server(400, error_message@),
{
    if !success && !error_message.is_empty() {
        Err(ApiError::Server(400, error_message.to_owned()))
    } else {
        Ok(())
    }
}

// ---------------------------------------------------------------------------
// What a failed registration shows
// ---------------------------------------------------------------------------

/// The message of a failed registration.
pub open spec fn registration_failure_text(e: ApiErrorView, dht_url: Seq<char>) -> Seq<char> {
    match e {
        ApiErrorView::Server(_, m) => if text_contains(spec_to_lowercase(m), "already exist"@) {
            "Username already taken"@
        } else {
            m
        },
        ApiErrorView::Timeout(_) => "Connection timed out. Please try again."@,
        ApiErrorView::Network(m) if text_contains(m, "Connection refused"@) => "Server not reachable at "@
            + dht_url + "."@,
        _ => {
            let s = api_error_text(e);
            if text_contains(s, "certificate"@) || text_contains(s, "SSL"@) || text_contains(
                s,
                "TLS"@,
            ) || text_contains(s, "UnknownIssuer"@) {
                "TLS certificate error. If using a self-signed certificate, set ZENTH_ACCEPT_INVALID_CERTS=1."@
            } else {
                "Registration failed: "@ + s
            }
        },
    }
}

/// The message a failed registration shows. The server's message is compared
/// in lower case.
pub fn registration_failure_message(e: &ApiError, dht_url: &str) -> (r: String)
    ensures
        r@ == registration_failure_text(e@, dht_url@),
{
    match e {
        ApiError::Server(_, m) => {
            let lower = to_lowercase(m.as_str());
            if contains_text(lower.as_str(), "already exist") {
                "Username already taken".to_owned()
            } else {
                m.as_str().to_owned()
            }
        },
        ApiError::Timeout(_) => "Connection timed out. Please try again.".to_owned(),
        _ => {
            let refused = match e {
                ApiError::Network(m) => contains_text(m.as_str(), "Connection refused"),
                _ => false,
            };
            if refused {
                let mut s = String::new();
                push_str(&mut s, "Server not reachable at ");
                push_str(&mut s, dht_url);
                push_str(&mut s, ".");
                return s;
            }
            let text = e.message();
            let t = text.as_str();
            if contains_text(t, "certificate") || contains_text(t, "SSL") || contains_text(t, "TLS")
                || contains_text(t, "UnknownIssuer") {
                "TLS certificate error. If using a self-signed certificate, set ZENTH_ACCEPT_INVALID_CERTS=1.".to_owned()
            } else {
                let mut s = String::new();
                push_str(&mut s, "Registration failed: ");
                push_str(&mut s, t);
                s
            }
        },
    }
}

/// The message signed with a registration: user hash, password commitment,
/// and the hex text of the proof's public input.
pub fn registration_signature_data(username_hash: &[u8], commitment: &[u8], public_input_hex: &str) -> (r: Vec<u8>)
    ensures
        r@ == username_hash@ + commitment@ + vstd::utf8::encode_utf8(public_input_hex@),
{
    let mut v: Vec<u8> = Vec::new();
    crate::bytes::extend_bytes(&mut v, username_hash);
    crate::bytes::extend_bytes(&mut v, commitment);
    crate::bytes::extend_bytes(&mut v, public_input_hex.as_bytes());
    v
}

/// What the client does after the server's answer to a registration: keep
/// the local account, or remove it again (the master database entry and the
/// user's database) and report the message.
#[derive(Debug, Clone, PartialEq, Eq)]
pub enum RegistrationDecision {
    Keep,
    RollBack { message: String },
}

/// Decides on the server's answer to a registration: the request failed (the
/// error's message), or the server answered with its success flag and
/// message. Any failure removes the local account again.
pub fn after_server_registration(answer: Result<(bool, String), ApiError>, dht_url: &str) -> (r:
    RegistrationDecision)
    ensures
        match answer {
            Err(e) => r matches RegistrationDecision::RollBack { message } && message@
                == registration_failure_text(e@, dht_url@),
            Ok((true, _)) => r == RegistrationDecision::Keep,
            Ok((false, m)) => r == RegistrationDecision::RollBack { message: m },
        },
{
    match answer {
        Err(e) => RegistrationDecision::RollBack { message: registration_failure_message(&e, dht_url) },
        Ok((success, m)) => {
            if success {
                RegistrationDecision::Keep
            } else {
                RegistrationDecision::RollBack { message: m }
            }
        },
    }
}

/// Decides on the local saving that follows a successful registration: a
/// failure removes the local account so that the user can register again.
pub fn after_local_save(saved: Result<(), String>) -> (r: RegistrationDecision)
    ensures
        match saved {
            Ok(()) => r == RegistrationDecision::Keep,
            Err(m) => r == RegistrationDecision::RollBack { message: m },
        },
{
    match saved {
        Ok(()) => RegistrationDecision::Keep,
        Err(m) => RegistrationDecision::RollBack { message: m },
    }
}

} // verus!
