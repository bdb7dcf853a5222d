//! Errors of the API clients, and the reading of an HTTP status before a
//! response body is decoded.
use vstd::prelude::*;

use crate::text::{decimal_spec, push_char, push_decimal, push_str};

verus! {

/// What can go wrong when talking to the DHT API.
#[derive(Debug, Clone, PartialEq, Eq)]
pub enum ApiError {
    Network(String),
    Timeout(u64),
    Server(u16, String),
    InvalidResponse(String),
    Serialization(String),
    I2pNotImplemented,
    LokinetNotImplemented,
    InvalidRegistrationData(String),
    AuthenticationFailed(String),
    MaxRetriesExceeded(u32),
}

/// An `ApiError` with its texts as character sequences.
pub enum ApiErrorView {
    Network(Seq<char>),
    Timeout(u64),
    Server(u16, Seq<char>),
    InvalidResponse(Seq<char>),
    Serialization(Seq<char>),
    I2pNotImplemented,
    LokinetNotImplemented,
    InvalidRegistrationData(Seq<char>),
    AuthenticationFailed(Seq<char>),
    MaxRetriesExceeded(u32),
}

impl View for ApiError {
    type V = ApiErrorView;

    open spec fn view(&self) -> ApiErrorView {
        match self {
            ApiError::Network(m) => ApiErrorView::Network(m@),
            ApiError::Timeout(t) => ApiErrorView::Timeout(*t),
            ApiError::Server(c, m) => ApiErrorView::Server(*c, m@),
            ApiError::InvalidResponse(m) => ApiErrorView::InvalidResponse(m@),
            ApiError::Serialization(m) => ApiErrorView::Serialization(m@),
            ApiError::I2pNotImplemented => ApiErrorView::I2pNotImplemented,
            ApiError::LokinetNotImplemented => ApiErrorView::LokinetNotImplemented,
            ApiError::InvalidRegistrationData(m) => ApiErrorView::InvalidRegistrationData(m@),
            ApiError::AuthenticationFailed(m) => ApiErrorView::AuthenticationFailed(m@),
            ApiError::MaxRetriesExceeded(n) => ApiErrorView::MaxRetriesExceeded(*n),
        }
    }
}

/// The version fields of a refused login.
#[derive(Debug, Clone)]
pub struct VersionOutdated {
    pub min_version: String,
    pub latest_version: String,
}

/// The fields of a login response carried in an error body.
#[derive(Debug, Clone)]
pub struct LoginErrorBody {
    pub version_outdated: Option<VersionOutdated>,
    pub error_message: String,
}

/// What the protobuf layer read from a 4xx body: the DHT response's error
/// message and, when its payload was not empty and held a login response,
/// that response.
#[derive(Debug, Clone)]
pub struct ErrorBodyInfo {
    pub error_message: String,
    pub login: Option<LoginErrorBody>,
}

/// Whether a byte is shown in a body preview (printable ASCII other than
/// `?`); every other byte separates words.
pub open spec fn preview_shown(b: u8) -> bool {
    0x20 <= b < 0x7f && b != 0x3f
}

/// The words of `s` (maximal runs of shown bytes) joined by single spaces,
/// with whether the last byte was shown.
pub open spec fn preview_join(s: Seq<u8>) -> (Seq<char>, bool)
    decreases s.len(),
{
    if s.len() == 0 {
        (Seq::empty(), false)
    } else {
        let (out, in_word) = preview_join(s.drop_last());
        let b = s.last();
        if !preview_shown(b) {
            (out, false)
        } else if in_word || out.len() == 0 {
            (out.push(b as char), true)
        } else {
            (out.push(' ').push(b as char), true)
        }
    }
}

/// `s` without leading spaces.
pub open spec fn trim_start_spaces(s: Seq<char>) -> Seq<char>
    decreases s.len(),
{
    if s.len() > 0 && s[0] == ' ' {
        trim_start_spaces(s.drop_first())
    } else {
        s
    }
}

/// `s` without trailing spaces.
pub open spec fn trim_end_spaces(s: Seq<char>) -> Seq<char>
    decreases s.len(),
{
    if s.len() > 0 && s.last() == ' ' {
        trim_end_spaces(s.drop_last())
    } else {
        s
    }
}

/// The preview of an error body: its first 200 bytes, words joined by single
/// spaces, without surrounding spaces.
pub open spec fn body_preview(body: Seq<u8>) -> Seq<char> {
    let n = if body.len() < 200 {
        body.len() as int
    } else {
        200
    };
    trim_end_spaces(trim_start_spaces(preview_join(body.take(n)).0))
}

/// The error message for a status, or `None` for 200.
pub open spec fn http_status_error(status: u16, body: Seq<u8>, decoded: Option<ErrorBodyInfo>) -> Option<ApiErrorView> {
    if status == 200 {
        None
    } else if status == 0 {
        Some(ApiErrorView::Server(status, "SERVER_UNAVAILABLE: no response (network unreachable or DNS failure)"@))
    } else if status == 408 || status == 504 {
        Some(ApiErrorView::Server(status, "SERVER_UNAVAILABLE: request timed out"@))
    } else if status == 429 {
        Some(ApiErrorView::Server(status, "SERVER_UNAVAILABLE: too many requests, please wait"@))
    } else if 500 <= status <= 599 {
        Some(ApiErrorView::Server(status, "SERVER_UNAVAILABLE: server error (HTTP "@ + decimal_spec(status as nat) + ")"@))
    } else if 400 <= status <= 499 {
        match decoded {
            Some(d) if d.error_message@.len() > 0 => Some(ApiErrorView::Server(status, d.error_message@)),
            Some(d) if d.login matches Some(l) && l.version_outdated is Some => {
                let o = d.login->0.version_outdated->0;
                let v = if o.min_version@.len() > 0 {
                    o.min_version@
                } else {
                    o.latest_version@
                };
                Some(ApiErrorView::Server(status, "VERSION_OUTDATED:"@ + v))
            },
            Some(d) if d.login matches Some(l) && l.error_message@.len() > 0 => Some(
                ApiErrorView::Server(status, d.login->0.error_message@),
            ),
            _ => Some(
                ApiErrorView::Server(
                    status,
                    "SERVER_ERROR: client error (HTTP "@ + decimal_spec(status as nat) + "): "@
                        + body_preview(body),
                ),
            ),
        }
    } else {
        Some(ApiErrorView::Server(status, "SERVER_ERROR: unexpected HTTP status "@ + decimal_spec(status as nat)))
    }
}

/// The preview of an error body (see `body_preview`).
pub fn preview_body(body: &[u8]) -> (r: String)
    ensures
        r@ == body_preview(body@),
{
    let n: usize = if body.len() < 200 {
        body.len()
    } else {
        200
    };
    let ghost prefix = body@.take(n as int);
    let mut joined: Vec<char> = Vec::new();
    let mut in_word = false;
    let mut i: usize = 0;
    while i < n
        invariant
            i <= n <= body@.len(),
            prefix == body@.take(n as int),
            (joined@, in_word) == preview_join(prefix.take(i as int)),
        decreases n - i,
    {
        let b = body[i];
        assert(prefix.take(i + 1).drop_last() =~= prefix.take(i as int));
        if !(0x20 <= b && b < 0x7f && b != 0x3f) {
            in_word = false;
        } else {
            if !in_word && joined.len() > 0 {
                joined.push(' ');
            }
            joined.push(b as char);
            in_word = true;
        }
        i = i + 1;
    }
    assert(prefix.take(n as int) =~= prefix);
    let mut start: usize = 0;
    assert(joined@.skip(0) =~= joined@);
    while start < joined.len() && joined[start] == ' '
        invariant
            start <= joined@.len(),
            trim_start_spaces(joined@.skip(start as int)) == trim_start_spaces(joined@),
        decreases joined.len() - start,
    {
        assert(joined@.skip(start as int).drop_first() =~= joined@.skip(start + 1));
        start = start + 1;
    }
    let mut end: usize = joined.len();
    while end > start && joined[end - 1] == ' '
        invariant
            start <= end <= joined@.len(),
            trim_start_spaces(joined@) == joined@.skip(start as int) || start == joined@.len(),
            trim_end_spaces(joined@.subrange(start as int, end as int)) == trim_end_spaces(
                trim_start_spaces(joined@),
            ),
        decreases end - start,
    {
        assert(joined@.subrange(start as int, end as int).drop_last() =~= joined@.subrange(
            start as int,
            end - 1,
        ));
        end = end - 1;
    }
    let mut s = String::new();
    let mut k: usize = start;
    while k < end
        invariant
            start <= k <= end <= joined@.len(),
            s@ == joined@.subrange(start as int, k as int),
        decreases end - k,
    {
        push_char(&mut s, joined[k]);
        assert(joined@.subrange(start as int, k + 1) =~= joined@.subrange(start as int, k as int).push(
            joined@[k as int],
        ));
        k = k + 1;
    }
    s
}

/// Checks the HTTP status of a response before its body is decoded: 200 is
/// accepted; the others become a `Server` error whose message says what
/// happened. For a 4xx status, the fields that the protobuf layer read from
/// the body are preferred to a preview of the raw body.
pub fn check_http_status(status: u16, body: &[u8], decoded: Option<ErrorBodyInfo>) -> (r: Result<(), ApiError>)
    ensures
        r is Ok <==> status == 200,
        r matches Err(e) ==> http_status_error(status, body@, decoded) == Some(e@),
{
    if status == 200 {
        return Ok(());
    }
    let mut msg = String::new();
    if status == 0 {
        push_str(&mut msg, "SERVER_UNAVAILABLE: no response (network unreachable or DNS failure)");
    } else if status == 408 || status == 504 {
        push_str(&mut msg, "SERVER_UNAVAILABLE: request timed out");
    } else if status == 429 {
        push_str(&mut msg, "SERVER_UNAVAILABLE: too many requests, please wait");
    } else if 500 <= status && status <= 599 {
        push_str(&mut msg, "SERVER_UNAVAILABLE: server error (HTTP ");
        push_decimal(&mut msg, status as u64);
        push_str(&mut msg, ")");
    } else if 400 <= status && status <= 499 {
        match decoded {
            Some(d) => {
                if !d.error_message.as_str().is_empty() {
                    return Err(ApiError::Server(status, d.error_message));
                }
                match d.login {
                    Some(l) => {
                        match l.version_outdated {
                            Some(o) => {
                                let mut m = String::new();
                                push_str(&mut m, "VERSION_OUTDATED:");
                                if !o.min_version.as_str().is_empty() {
                                    push_str(&mut m, o.min_version.as_str());
                                } else {
                                    push_str(&mut m, o.latest_version.as_str());
                                }
                                return Err(ApiError::Server(status, m));
                            },
                            None => {},
                        }
                        if !l.error_message.as_str().is_empty() {
                            return Err(ApiError::Server(status, l.error_message));
                        }
                    },
                    None => {},
                }
            },
            None => {},
        }
        push_str(&mut msg, "SERVER_ERROR: client error (HTTP ");
        push_decimal(&mut msg, status as u64);
        push_str(&mut msg, "): ");
        let preview = preview_body(body);
        push_str(&mut msg, preview.as_str());
    } else {
        push_str(&mut msg, "SERVER_ERROR: unexpected HTTP status ");
        push_decimal(&mut msg, status as u64);
    }
    Err(ApiError::Server(status, msg))
}

} // verus!
