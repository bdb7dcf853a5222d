//! Media sanitising: which file types are handled, and the answers that the
//! front end receives about an analysis or a sanitising run.
use vstd::prelude::*;

use crate::messages::{ascii_lower, spec_to_lowercase, to_lowercase};
use crate::text::{decimal_spec, push_decimal, push_str, str_eq};

verus! {

/// What an analysis of a file found.
#[derive(Debug, Clone)]
pub struct FileAnalysis {
    pub file_type: String,
    pub size: usize,
    pub signature_valid: bool,
    pub extension_matches_signature: bool,
    pub error: Option<String>,
}

/// The outcome of a sanitising run.
#[derive(Debug, Clone)]
pub struct SanitizeResponse {
    pub success: bool,
    pub message: String,
    pub sanitized_data: Option<Vec<u8>>,
    pub original_size: usize,
    pub sanitized_size: usize,
}

/// The sanitiser that handles a file type.
#[derive(Debug, Clone, Copy, PartialEq, Eq, Structural)]
pub enum MediaKind {
    Jpeg,
    Png,
    Mp3,
    Mp4,
    Wav,
    Pdf,
}

/// The sanitiser for a lower-case type name, if there is one.
pub open spec fn media_kind_of(t: Seq<char>) -> Option<MediaKind> {
    if t == "jpeg"@ || t == "jpg"@ {
        Some(MediaKind::Jpeg)
    } else if t == "png"@ {
        Some(MediaKind::Png)
    } else if t == "mp3"@ {
        Some(MediaKind::Mp3)
    } else if t == "mp4"@ {
        Some(MediaKind::Mp4)
    } else if t == "wav"@ {
        Some(MediaKind::Wav)
    } else if t == "pdf"@ {
        Some(MediaKind::Pdf)
    } else {
        None
    }
}

/// The sanitiser for a file type named in any case.
pub fn media_kind(file_type: &str) -> (r: Option<MediaKind>)
    ensures
        r == media_kind_of(spec_to_lowercase(file_type@)),
        vstd::string::is_ascii(file_type) ==> r == media_kind_of(ascii_lower(file_type@)),
{
    let lower = to_lowercase(file_type);
    let t = lower.as_str();
    proof {
        reveal_strlit("jpeg");
        reveal_strlit("jpg");
        reveal_strlit("png");
        reveal_strlit("mp3");
        reveal_strlit("mp4");
        reveal_strlit("wav");
        reveal_strlit("pdf");
    }
    if str_eq(t, "jpeg") || str_eq(t, "jpg") {
        Some(MediaKind::Jpeg)
    } else if str_eq(t, "png") {
        Some(MediaKind::Png)
    } else if str_eq(t, "mp3") {
        Some(MediaKind::Mp3)
    } else if str_eq(t, "mp4") {
        Some(MediaKind::Mp4)
    } else if str_eq(t, "wav") {
        Some(MediaKind::Wav)
    } else if str_eq(t, "pdf") {
        Some(MediaKind::Pdf)
    } else {
        None
    }
}

/// The type names that the sanitisers accept, in the order they are offered.
pub open spec fn supported_formats() -> Seq<Seq<char>> {
    seq!["jpeg"@, "jpg"@, "png"@, "mp3"@, "mp4"@, "wav"@, "pdf"@]
}

/// The type names that the sanitisers accept.
pub fn get_supported_formats() -> (r: Vec<String>)
    ensures
        r@.len() == supported_formats().len(),
        forall|i: int| 0 <= i < r@.len() ==> #[trigger] r@[i]@ == supported_formats()[i],
{
    let mut v: Vec<String> = Vec::new();
    v.push("jpeg".to_owned());
    v.push("jpg".to_owned());
    v.push("png".to_owned());
    v.push("mp3".to_owned());
    v.push("mp4".to_owned());
    v.push("wav".to_owned());
    v.push("pdf".to_owned());
    v
}

/// Every accepted name has a sanitiser, and a name has one only if it is
/// accepted.
pub proof fn lemma_supported_formats_have_sanitisers(t: Seq<char>)
    ensures
        media_kind_of(t) is Some <==> supported_formats().contains(t),
{
    let f = supported_formats();
    if media_kind_of(t) is Some {
        if t == "jpeg"@ {
            assert(f[0] == t);
        } else if t == "jpg"@ {
            assert(f[1] == t);
        } else if t == "png"@ {
            assert(f[2] == t);
        } else if t == "mp3"@ {
            assert(f[3] == t);
        } else if t == "mp4"@ {
            assert(f[4] == t);
        } else if t == "wav"@ {
            assert(f[5] == t);
        } else {
            assert(f[6] == t);
        }
    }
}

/// The message of a type that no sanitiser handles.
pub open spec fn unsupported_type_message(file_type: Seq<char>) -> Seq<char> {
    "Unsupported file type: "@ + file_type
}

/// The answer to a request for a type that no sanitiser handles: a failure
/// that names the type as it was given.
pub fn unsupported_type_response(file_type: &str, original_size: usize) -> (r: SanitizeResponse)
    ensures
        !r.success,
        r.message@ == unsupported_type_message(file_type@),
        r.sanitized_data is None,
        r.original_size == original_size,
        r.sanitized_size == 0,
{
    let mut message = String::new();
    push_str(&mut message, "Unsupported file type: ");
    push_str(&mut message, file_type);
    SanitizeResponse {
        success: false,
        message,
        sanitized_data: None,
        original_size,
        sanitized_size: 0,
    }
}

/// The answer to a failed run: the sanitiser's message, no data.
pub fn failed_response(original_size: usize, message: String) -> (r: SanitizeResponse)
    ensures
        !r.success,
        r.message == message,
        r.sanitized_data is None,
        r.original_size == original_size,
        r.sanitized_size == 0,
{
    SanitizeResponse {
        success: false,
        message,
        sanitized_data: None,
        original_size,
        sanitized_size: 0,
    }
}

/// The answer to a run on a type chosen by name: the sanitised bytes and
/// their size, or the sanitiser's message.
pub fn typed_sanitize_response(original_size: usize, result: Result<Vec<u8>, String>) -> (r:
    SanitizeResponse)
    ensures
        r.original_size == original_size,
        match result {
            Ok(data) => r.success && r.message@ == "File sanitized successfully"@
                && r.sanitized_data == Some(data) && r.sanitized_size == data@.len(),
            Err(m) => !r.success && r.message == m && r.sanitized_data is None
                && r.sanitized_size == 0,
        },
{
    match result {
        Ok(data) => {
            let sanitized_size = data.len();
            SanitizeResponse {
                success: true,
                message: "File sanitized successfully".to_owned(),
                sanitized_data: Some(data),
                original_size,
                sanitized_size,
            }
        },
        Err(m) => failed_response(original_size, m),
    }
}

/// The success message of a run on a file: both sizes in bytes.
pub open spec fn reduced_message(original_size: nat, sanitized_size: nat) -> Seq<char> {
    "File sanitized successfully. Reduced from "@ + decimal_spec(original_size) + " to "@
        + decimal_spec(sanitized_size) + " bytes"@
}

/// The answer to a run on a file recognised by its path: the sanitised
/// bytes and a message with both sizes, or the parser's message.
pub fn file_sanitize_response(original_size: usize, result: Result<Vec<u8>, String>) -> (r:
    SanitizeResponse)
    ensures
        r.original_size == original_size,
        match result {
            Ok(data) => r.success && r.message@ == reduced_message(
                original_size as nat,
                data@.len(),
            ) && r.sanitized_data == Some(data) && r.sanitized_size == data@.len(),
            Err(m) => !r.success && r.message == m && r.sanitized_data is None
                && r.sanitized_size == 0,
        },
{
    match result {
        Ok(data) => {
            let sanitized_size = data.len();
            let mut message = String::new();
            push_str(&mut message, "File sanitized successfully. Reduced from ");
            push_decimal(&mut message, original_size as u64);
            push_str(&mut message, " to ");
            push_decimal(&mut message, sanitized_size as u64);
            push_str(&mut message, " bytes");
            SanitizeResponse {
                success: true,
                message,
                sanitized_data: Some(data),
                original_size,
                sanitized_size,
            }
        },
        Err(m) => failed_response(original_size, m),
    }
}

/// The analysis reported when the parser refused a file: type `Unknown`,
/// the size of the data, nothing valid, and the parser's message.
pub fn failed_analysis(size: usize, message: String) -> (r: FileAnalysis)
    ensures
        r.file_type@ == "Unknown"@,
        r.size == size,
        !r.signature_valid,
        !r.extension_matches_signature,
        r.error == Some(message),
{
    FileAnalysis {
        file_type: "Unknown".to_owned(),
        size,
        signature_valid: false,
        extension_matches_signature: false,
        error: Some(message),
    }
}

} // verus!
