//! Chat messages: what an inner message shows, the checks made on received
//! media, the pre-key ids carried in the layer keys, and the bookkeeping of a
//! message synchronisation.
use vstd::prelude::*;
use vstd::utf8::{decode_utf8, encode_utf8, valid_utf8};

use crate::bytes::{extend_bytes, le32, le32_value, le64, u32_le, u64_le};
use crate::crypto::{base64_encode, spec_base64};
use crate::text::{push_str};

verus! {

/// The inner message carried by the Double Ratchet: a text or a file.
#[derive(Debug, Clone)]
pub struct InnerMessage {
    pub is_file: bool,
    pub text: String,
    pub file_data: Vec<u8>,
    pub file_name: String,
    pub file_mime: String,
    pub reply_to_id: String,
}

/// What the client shows of an inner message and stores about it.
#[derive(Debug, Clone)]
pub struct ParsedInner {
    pub display_content: String,
    pub message_type: String,
    pub filename: Option<String>,
    pub mime_type: Option<String>,
    pub file_size: Option<i64>,
    pub file_data_b64: Option<String>,
    pub reply_to_id: Option<String>,
}

/// Whether the UTF-8 bytes of `s` begin with those of `p` (as
/// `str::starts_with` compares them).
pub open spec fn text_starts_with(s: Seq<char>, p: Seq<char>) -> bool {
    encode_utf8(p).len() <= encode_utf8(s).len() && encode_utf8(s).take(encode_utf8(p).len() as int)
        == encode_utf8(p)
}

/// Whether the UTF-8 bytes of `p` occur in those of `s` (as
/// `str::contains` looks for them).
pub open spec fn text_contains(s: Seq<char>, p: Seq<char>) -> bool {
    exists|i: int|
        0 <= i && i + encode_utf8(p).len() <= encode_utf8(s).len() && #[trigger] encode_utf8(
            s,
        ).subrange(i, i + encode_utf8(p).len()) == encode_utf8(p)
}

/// Whether `b` begins with `p`.
pub fn bytes_start_with(b: &[u8], p: &[u8]) -> (r: bool)
    ensures
        r == (p@.len() <= b@.len() && b@.take(p@.len() as int) == p@),
{
    if p.len() > b.len() {
        return false;
    }
    let mut i: usize = 0;
    while i < p.len()
        invariant
            i <= p@.len() <= b@.len(),
            forall|j: int| 0 <= j < i ==> b@[j] == p@[j],
        decreases p.len() - i,
    {
        if b[i] != p[i] {
            assert(b@.take(p@.len() as int)[i as int] != p@[i as int]);
            return false;
        }
        i = i + 1;
    }
    assert(b@.take(p@.len() as int) =~= p@);
    true
}

/// Whether `s` begins with `p`.
pub fn starts_with(s: &str, p: &str) -> (r: bool)
    ensures
        r == text_starts_with(s@, p@),
{
    bytes_start_with(s.as_bytes(), p.as_bytes())
}

/// Whether `p` occurs in `s`.
pub fn contains_text(s: &str, p: &str) -> (r: bool)
    ensures
        r == text_contains(s@, p@),
{
    let sb = s.as_bytes();
    let pb = p.as_bytes();
    if pb.len() > sb.len() {
        return false;
    }
    if pb.len() == 0 {
        assert(encode_utf8(s@).subrange(0int, 0int + encode_utf8(p@).len()) =~= encode_utf8(p@));
        return true;
    }
    let last = sb.len() - pb.len();
    let mut i: usize = 0;
    while i < last + 1
        invariant
            pb.len() >= 1,
            last == sb.len() - pb.len(),
            i <= last + 1,
            sb@ == encode_utf8(s@),
            pb@ == encode_utf8(p@),
            forall|k: int| 0 <= k < i ==> #[trigger] sb@.subrange(k, k + pb@.len()) != pb@,
        decreases last + 1 - i,
    {
        let mut j: usize = 0;
        let mut same = true;
        while j < pb.len()
            invariant
                j <= pb.len(),
                i + pb.len() <= sb.len(),
                same == (forall|t: int| 0 <= t < j ==> sb@[i + t] == pb@[t]),
            decreases pb.len() - j,
        {
            if sb[i + j] != pb[j] {
                same = false;
            }
            j = j + 1;
        }
        if same {
            assert(sb@.subrange(i as int, i + pb@.len()) =~= pb@);
            return true;
        }
        proof {
            let t = choose|t: int| 0 <= t < pb@.len() && sb@[i + t] != pb@[t];
            assert(sb@.subrange(i as int, i + pb@.len())[t] != pb@[t]);
        }
        i = i + 1;
    }
    false
}

/// The type a MIME type is shown as.
pub open spec fn message_type_of_mime(mime: Seq<char>) -> Seq<char> {
    if text_starts_with(mime, "image/"@) {
        "image"@
    } else if text_starts_with(mime, "audio/"@) {
        "audio"@
    } else if text_starts_with(mime, "video/"@) {
        "video"@
    } else if mime == "application/pdf"@ {
        "pdf"@
    } else {
        "file"@
    }
}

/// The type a MIME type is shown as: image, audio, video, pdf or file.
pub fn mime_to_message_type(mime: &str) -> (r: &'static str)
    ensures
        r@ == message_type_of_mime(mime@),
{
    if starts_with(mime, "image/") {
        "image"
    } else if starts_with(mime, "audio/") {
        "audio"
    } else if starts_with(mime, "video/") {
        "video"
    } else if crate::text::str_eq(mime, "application/pdf") {
        "pdf"
    } else {
        "file"
    }
}

/// The type stored in the database, which has no `pdf`.
pub open spec fn db_type_of(t: Seq<char>) -> Seq<char> {
    if t == "pdf"@ {
        "file"@
    } else {
        t
    }
}

/// The type stored in the database: `pdf` is stored as `file`.
pub fn db_message_type(t: &str) -> (r: &str)
    ensures
        r@ == db_type_of(t@),
{
    if crate::text::str_eq(t, "pdf") {
        "file"
    } else {
        t
    }
}

/// The text `String::from_utf8_lossy` reads from some bytes: each invalid
/// sequence becomes U+FFFD.
pub uninterp spec fn spec_utf8_lossy(bytes: Seq<u8>) -> Seq<char>;

/// `String::from_utf8_lossy`: the text of `bytes`, with U+FFFD for each
/// invalid sequence; for valid UTF-8 it is the decoded text.
#[verifier::external_body]
fn utf8_lossy(bytes: &[u8]) -> (r: String)
    ensures
        r@ == spec_utf8_lossy(bytes@),
        valid_utf8(bytes@) ==> r@ == decode_utf8(bytes@),
{
    String::from_utf8_lossy(bytes).to_string()
}

/// What a received inner message shows, given the protobuf decoding of its
/// bytes (`None` when they do not decode, as for legacy plain text).
pub open spec fn parsed_inner_spec(decoded: Option<InnerMessage>, raw: Seq<u8>, p: ParsedInner) -> bool {
    match decoded {
        Some(inner) => {
            &&& p.reply_to_id == if inner.reply_to_id@.len() == 0 {
                None
            } else {
                Some(inner.reply_to_id)
            }
            &&& if inner.is_file {
                &&& p.display_content@ == inner.file_name@
                &&& p.message_type@ == message_type_of_mime(inner.file_mime@)
                &&& p.filename == Some(inner.file_name)
                &&& p.mime_type == Some(inner.file_mime)
                &&& p.file_size == Some(inner.file_data@.len() as i64)
                &&& p.file_data_b64 matches Some(d) && d@ == spec_base64(inner.file_data@)
            } else {
                &&& p.display_content == inner.text
                &&& p.message_type@ == "text"@
                &&& p.filename is None && p.mime_type is None && p.file_size is None
                &&& p.file_data_b64 is None
            }
        },
        None => {
            &&& p.display_content@ == spec_utf8_lossy(raw)
            &&& (valid_utf8(raw) ==> p.display_content@ == decode_utf8(raw))
            &&& p.message_type@ == "text"@
            &&& p.filename is None && p.mime_type is None && p.file_size is None
            &&& p.file_data_b64 is None && p.reply_to_id is None
        },
    }
}

/// What a received inner message shows: a file shows its name and type, a
/// text its text, and bytes that are no inner message are shown as text.
pub fn parse_inner_message(decoded: Option<InnerMessage>, raw: &[u8]) -> (r: ParsedInner)
    ensures
        parsed_inner_spec(decoded, raw@, r),
{
    match decoded {
        Some(inner) => {
            let reply_to_id = if inner.reply_to_id.as_str().is_empty() {
                None
            } else {
                Some(inner.reply_to_id)
            };
            if inner.is_file {
                let file_size = inner.file_data.len() as i64;
                let data_b64 = base64_encode(inner.file_data.as_slice());
                let message_type = mime_to_message_type(inner.file_mime.as_str()).to_owned();
                let display_content = inner.file_name.clone();
                ParsedInner {
                    display_content,
                    message_type,
                    filename: Some(inner.file_name),
                    mime_type: Some(inner.file_mime),
                    file_size: Some(file_size),
                    file_data_b64: Some(data_b64),
                    reply_to_id,
                }
            } else {
                ParsedInner {
                    display_content: inner.text,
                    message_type: "text".to_owned(),
                    filename: None,
                    mime_type: None,
                    file_size: None,
                    file_data_b64: None,
                    reply_to_id,
                }
            }
        },
        None => ParsedInner {
            display_content: utf8_lossy(raw),
            message_type: "text".to_owned(),
            filename: None,
            mime_type: None,
            file_size: None,
            file_data_b64: None,
            reply_to_id: None,
        },
    }
}

/// The database type and file name of a synchronised message.
pub fn parse_inner_for_sync(decoded: Option<InnerMessage>, raw: &[u8]) -> (r: (String, Option<String>))
    ensures
        match decoded {
            Some(inner) if inner.is_file => r.0@ == db_type_of(message_type_of_mime(inner.file_mime@))
                && r.1 == Some(inner.file_name),
            _ => r.0@ == "text"@ && r.1 is None,
        },
        r.0@ == "text"@ || r.0@ == "image"@ || r.0@ == "audio"@ || r.0@ == "video"@ || r.0@
            == "file"@,
        r.0@ == "text"@ ==> r.1 is None,
{
    let parsed = parse_inner_message(decoded, raw);
    let t = db_message_type(parsed.message_type.as_str()).to_owned();
    proof {
        reveal_strlit("text");
        reveal_strlit("pdf");
        reveal_strlit("image");
        reveal_strlit("audio");
        reveal_strlit("video");
        reveal_strlit("file");
        assert("text"@ != "image"@ && "text"@ != "audio"@ && "text"@ != "video"@ && "text"@
            != "file"@ && "text"@ != "pdf"@) by {
            assert("text"@[0] != "image"@[0] && "text"@[0] != "audio"@[0] && "text"@[0]
                != "video"@[0] && "text"@[0] != "file"@[0] && "text"@[0] != "pdf"@[0]);
        }
    }
    (t, parsed.filename)
}

/// The inner message to send and the type it is shown as: a file when data,
/// name and MIME type are all given, else a text.
pub fn compose_inner_message(
    content: String,
    file_data: Option<Vec<u8>>,
    file_name: Option<String>,
    file_mime: Option<String>,
    reply_to_id: Option<String>,
) -> (r: (InnerMessage, String))
    ensures
        ({
            let reply = match reply_to_id {
                Some(s) => s@,
                None => Seq::<char>::empty(),
            };
            &&& r.0.reply_to_id@ == reply
            &&& if file_data is Some && file_name is Some && file_mime is Some {
                &&& r.0.is_file
                &&& r.0.text@.len() == 0
                &&& r.0.file_data == file_data->0
                &&& r.0.file_name == file_name->0
                &&& r.0.file_mime == file_mime->0
                &&& r.1@ == message_type_of_mime(file_mime->0@)
            } else {
                &&& !r.0.is_file
                &&& r.0.text == content
                &&& r.0.file_data@.len() == 0
                &&& r.0.file_name@.len() == 0
                &&& r.0.file_mime@.len() == 0
                &&& r.1@ == "text"@
            }
        }),
{
    let reply = match reply_to_id {
        Some(s) => s,
        None => String::new(),
    };
    match (file_data, file_name, file_mime) {
        (Some(data), Some(name), Some(mime)) => {
            let t = mime_to_message_type(mime.as_str()).to_owned();
            (
                InnerMessage {
                    is_file: true,
                    text: String::new(),
                    file_data: data,
                    file_name: name,
                    file_mime: mime,
                    reply_to_id: reply,
                },
                t,
            )
        },
        _ => (
            InnerMessage {
                is_file: false,
                text: content,
                file_data: Vec::new(),
                file_name: String::new(),
                file_mime: String::new(),
                reply_to_id: reply,
            },
            "text".to_owned(),
        ),
    }
}

// ---------------------------------------------------------------------------
// Received media that the sanitiser does not know
// ---------------------------------------------------------------------------

/// The lower-case form of a text by `str::to_lowercase` (Unicode case
/// mapping).
pub uninterp spec fn spec_to_lowercase(s: Seq<char>) -> Seq<char>;

/// `str::to_lowercase`: the lower-case form of the text; for ASCII text each
/// letter `A`..`Z` becomes its lower-case form and nothing else changes.
#[verifier::external_body]
pub(crate) fn to_lowercase(s: &str) -> (r: String)
    ensures
        r@ == spec_to_lowercase(s@),
        vstd::string::is_ascii(s) ==> r@ == ascii_lower(s@),
{
    s.to_lowercase()
}

/// ASCII lower case of a text.
pub open spec fn ascii_lower(s: Seq<char>) -> Seq<char> {
    s.map_values(|c: char| if 'A' <= c <= 'Z' {
        ((c as u32) + 32) as char
    } else {
        c
    })
}

/// WebM/Matroska magic.
pub open spec fn webm_magic() -> Seq<u8> {
    seq![0x1Au8, 0x45, 0xDF, 0xA3]
}

/// `OggS`.
pub open spec fn ogg_magic() -> Seq<u8> {
    seq![0x4Fu8, 0x67, 0x67, 0x53]
}

/// `ftyp`.
pub open spec fn ftyp_magic() -> Seq<u8> {
    seq![0x66u8, 0x74, 0x79, 0x70]
}

/// `RIFF`.
pub open spec fn riff_magic() -> Seq<u8> {
    seq![0x52u8, 0x49, 0x46, 0x46]
}

/// `WEBP`.
pub open spec fn webp_magic() -> Seq<u8> {
    seq![0x57u8, 0x45, 0x42, 0x50]
}

/// Whether the data's magic bytes fit its (lower-case) MIME type.
pub open spec fn magic_matches_mime(mime: Seq<char>, data: Seq<u8>) -> bool {
    if text_contains(mime, "webm"@) || text_contains(mime, "ogg"@) || text_contains(mime, "opus"@) {
        (data.len() >= 4 && data.take(4) == webm_magic()) || (data.len() >= 4 && data.take(4)
            == ogg_magic())
    } else if text_contains(mime, "mp4"@) || text_contains(mime, "m4a"@) {
        data.len() > 8 && data.subrange(4, 8) == ftyp_magic()
    } else if text_starts_with(mime, "image/"@) {
        (data.len() > 12 && data.subrange(4, 8) == ftyp_magic()) || (data.len() > 12
            && data.take(4) == riff_magic() && data.subrange(8, 12) == webp_magic())
    } else {
        false
    }
}

/// Which magic bytes fit which (lower-case) MIME type. WebM/Ogg/Opus types
/// need the WebM bytes `1A 45 DF A3` or `OggS` at the start; MP4/M4A types
/// need `ftyp` at bytes 4..8 of more than 8 bytes; any other image type
/// needs more than 12 bytes with `ftyp` at bytes 4..8 (HEIC, AVIF) or `RIFF`
/// at 0..4 and `WEBP` at 8..12 (WebP); no other type fits.
pub proof fn lemma_magic_bytes(mime: Seq<char>, data: Seq<u8>)
    ensures
        text_contains(mime, "webm"@) || text_contains(mime, "ogg"@) || text_contains(mime, "opus"@)
            ==> (magic_matches_mime(mime, data) <==> data.len() >= 4 && (data.take(4) == seq![
            0x1Au8,
            0x45,
            0xDF,
            0xA3,
        ] || data.take(4) == seq![0x4Fu8, 0x67, 0x67, 0x53])),
        !(text_contains(mime, "webm"@) || text_contains(mime, "ogg"@) || text_contains(mime, "opus"@))
            && (text_contains(mime, "mp4"@) || text_contains(mime, "m4a"@)) ==> (magic_matches_mime(
            mime,
            data,
        ) <==> data.len() > 8 && data.subrange(4, 8) == seq![0x66u8, 0x74, 0x79, 0x70]),
        !(text_contains(mime, "webm"@) || text_contains(mime, "ogg"@) || text_contains(mime, "opus"@)
            || text_contains(mime, "mp4"@) || text_contains(mime, "m4a"@)) && text_starts_with(
            mime,
            "image/"@,
        ) ==> (magic_matches_mime(mime, data) <==> data.len() > 12 && (data.subrange(4, 8) == seq![
            0x66u8,
            0x74,
            0x79,
            0x70,
        ] || (data.take(4) == seq![0x52u8, 0x49, 0x46, 0x46] && data.subrange(8, 12) == seq![
            0x57u8,
            0x45,
            0x42,
            0x50,
        ]))),
        !(text_contains(mime, "webm"@) || text_contains(mime, "ogg"@) || text_contains(mime, "opus"@)
            || text_contains(mime, "mp4"@) || text_contains(mime, "m4a"@) || text_starts_with(
            mime,
            "image/"@,
        )) ==> !magic_matches_mime(mime, data),
{
    assert(webm_magic() =~= seq![0x1Au8, 0x45, 0xDF, 0xA3]);
    assert(ogg_magic() =~= seq![0x4Fu8, 0x67, 0x67, 0x53]);
    assert(ftyp_magic() =~= seq![0x66u8, 0x74, 0x79, 0x70]);
    assert(riff_magic() =~= seq![0x52u8, 0x49, 0x46, 0x46]);
    assert(webp_magic() =~= seq![0x57u8, 0x45, 0x42, 0x50]);
}

/// Whether a file that the sanitiser could not read is kept as it is: a
/// format it recognises by signature is kept; otherwise only audio, video or
/// images whose magic bytes fit their (lower-case) MIME type.
pub open spec fn unsanitised_file_accepted(signature_known: bool, mime_lower: Seq<char>, data: Seq<u8>) -> bool {
    signature_known || ((text_starts_with(mime_lower, "audio/"@) || text_starts_with(
        mime_lower,
        "video/"@,
    ) || text_starts_with(mime_lower, "image/"@)) && magic_matches_mime(mime_lower, data))
}

fn slice_is(data: &[u8], start: usize, m: [u8; 4]) -> (r: bool)
    requires
        start + 4 <= data@.len(),
    ensures
        r == (data@.subrange(start as int, start + 4) == m@),
{
    let r = data[start] == m[0] && data[start + 1] == m[1] && data[start + 2] == m[2] && data[start
        + 3] == m[3];
    proof {
        let sub = data@.subrange(start as int, start + 4);
        if r {
            assert(sub =~= m@);
        } else if sub == m@ {
            assert(sub[0] == m@[0] && sub[1] == m@[1] && sub[2] == m@[2] && sub[3] == m@[3]);
        }
    }
    r
}

/// Whether the data's magic bytes fit a lower-case MIME type.
pub fn magic_fits_mime(mime_lower: &str, data: &[u8]) -> (r: bool)
    ensures
        r == magic_matches_mime(mime_lower@, data@),
{
    if contains_text(mime_lower, "webm") || contains_text(mime_lower, "ogg") || contains_text(
        mime_lower,
        "opus",
    ) {
        if data.len() < 4 {
            return false;
        }
        let w = slice_is(data, 0, [0x1A, 0x45, 0xDF, 0xA3]);
        let o = slice_is(data, 0, [0x4F, 0x67, 0x67, 0x53]);
        assert(data@.subrange(0, 4) =~= data@.take(4));
        assert([0x1Au8, 0x45, 0xDF, 0xA3]@ =~= webm_magic());
        assert([0x4Fu8, 0x67, 0x67, 0x53]@ =~= ogg_magic());
        w || o
    } else if contains_text(mime_lower, "mp4") || contains_text(mime_lower, "m4a") {
        assert([0x66u8, 0x74, 0x79, 0x70]@ =~= ftyp_magic());
        data.len() > 8 && slice_is(data, 4, [0x66, 0x74, 0x79, 0x70])
    } else if starts_with(mime_lower, "image/") {
        assert([0x66u8, 0x74, 0x79, 0x70]@ =~= ftyp_magic());
        assert([0x52u8, 0x49, 0x46, 0x46]@ =~= riff_magic());
        assert([0x57u8, 0x45, 0x42, 0x50]@ =~= webp_magic());
        if data.len() <= 12 {
            return false;
        }
        assert(data@.subrange(0, 4) =~= data@.take(4));
        slice_is(data, 4, [0x66, 0x74, 0x79, 0x70]) || (slice_is(data, 0, [0x52, 0x49, 0x46, 0x46])
            && slice_is(data, 8, [0x57, 0x45, 0x42, 0x50]))
    } else {
        false
    }
}

/// The message for a received file that is refused.
pub open spec fn rejected_file_message(file_mime: Seq<char>) -> Seq<char> {
    "Fichier rejeté : format non reconnu ou MIME incohérent ("@ + file_mime + ")"@
}

/// Decides on a received file the sanitiser could not read: keep its bytes,
/// or refuse it with a message naming its MIME type.
pub fn accept_unsanitised_file(signature_known: bool, file_mime: &str, data: &[u8]) -> (r: Result<(), String>)
    ensures
        r is Ok <==> unsanitised_file_accepted(
            signature_known,
            spec_to_lowercase(file_mime@),
            data@,
        ),
        vstd::string::is_ascii(file_mime) ==> (r is Ok <==> unsanitised_file_accepted(
            signature_known,
            ascii_lower(file_mime@),
            data@,
        )),
        r matches Err(m) ==> m@ == rejected_file_message(file_mime@),
{
    if signature_known {
        return Ok(());
    }
    let mime = to_lowercase(file_mime);
    let safe_media = starts_with(mime.as_str(), "audio/") || starts_with(mime.as_str(), "video/");
    let image = starts_with(mime.as_str(), "image/");
    let fits = magic_fits_mime(mime.as_str(), data);
    if (safe_media && fits) || (image && fits) {
        Ok(())
    } else {
        let mut m = String::new();
        push_str(&mut m, "Fichier rejeté : format non reconnu ou MIME incohérent (");
        push_str(&mut m, file_mime);
        push_str(&mut m, ")");
        Err(m)
    }
}

// ---------------------------------------------------------------------------
// Pre-key ids in the layer keys of a first message
// ---------------------------------------------------------------------------

/// The key ids a first message carries in its two layer keys: the signed
/// pre-key id and the one-time pre-key id, little-endian. Without bundle
/// information the ids are 1 and 0.
pub fn layer_key_ids(prekey_ids: Option<(u32, u32)>) -> (r: ([u8; 4], [u8; 4]))
    ensures
        match prekey_ids {
            Some((s, p)) => r.0@ == le32(s) && r.1@ == le32(p),
            None => r.0@ == le32(1) && r.1@ == le32(0),
        },
{
    match prekey_ids {
        Some((s, p)) => (u32_le(s), u32_le(p)),
        None => (u32_le(1), u32_le(0)),
    }
}

/// The id read from a layer key: its first four bytes, little-endian, or
/// `default` when it is shorter.
pub open spec fn layer_key_id(key_id: Seq<u8>, default: u32) -> int {
    if key_id.len() >= 4 {
        le32_value(key_id)
    } else {
        default as int
    }
}

/// The pre-key ids a receiver reads from the layer keys: with at least two
/// layer keys, the first gives the signed pre-key id (default 1) and the
/// second the one-time pre-key id (default 0); otherwise 1 and 0.
pub open spec fn prekey_ids_spec(key_ids: Seq<Seq<u8>>) -> (int, int) {
    if key_ids.len() >= 2 {
        (layer_key_id(key_ids[0], 1), layer_key_id(key_ids[1], 0))
    } else {
        (1, 0)
    }
}

fn read_key_id(key_id: &[u8], default: u32) -> (r: u32)
    ensures
        r == layer_key_id(key_id@, default),
{
    if key_id.len() >= 4 {
        key_id[0] as u32 + 256 * (key_id[1] as u32) + 65536 * (key_id[2] as u32) + 16777216 * (
        key_id[3] as u32)
    } else {
        default
    }
}

/// Reads the pre-key ids of a first message from its layer keys.
pub fn prekey_ids_from_layer_keys(key_ids: &[Vec<u8>]) -> (r: (u32, u32))
    ensures
        (r.0 as int, r.1 as int) == prekey_ids_spec(crate::sync::views(key_ids@)),
{
    if key_ids.len() >= 2 {
        let s = read_key_id(key_ids[0].as_slice(), 1);
        let p = read_key_id(key_ids[1].as_slice(), 0);
        assert(crate::sync::views(key_ids@)[0] == key_ids@[0]@);
        assert(crate::sync::views(key_ids@)[1] == key_ids@[1]@);
        (s, p)
    } else {
        (1, 0)
    }
}

proof fn lemma_le32_value(v: u32)
    ensures
        le32_value(le32(v)) == v,
{
    assert(v % 256 + 256 * ((v / 256) % 256) + 65536 * ((v / 65536) % 256) + 16777216 * ((v
        / 16777216) % 256) == v) by (nonlinear_arith);
}

/// The receiver reads back the pre-key ids the sender wrote in the layer keys.
pub proof fn lemma_layer_key_roundtrip(signed_pre_key_id: u32, pre_key_id: u32)
    ensures
        prekey_ids_spec(seq![le32(signed_pre_key_id), le32(pre_key_id)]) == (
            signed_pre_key_id as int,
            pre_key_id as int,
        ),
{
    lemma_le32_value(signed_pre_key_id);
    lemma_le32_value(pre_key_id);
}

// ---------------------------------------------------------------------------
// Sending
// ---------------------------------------------------------------------------

/// The bytes a sender signs: sender hash, recipient hash, message id, time
/// stamp (little-endian) and the encoded content.
pub fn envelope_signed_message(
    sender_hash: &[u8],
    recipient_hash: &[u8],
    message_id: &[u8],
    timestamp: u64,
    content: &[u8],
) -> (r: Vec<u8>)
    ensures
        r@ == sender_hash@ + recipient_hash@ + message_id@ + le64(timestamp) + content@,
{
    let mut v: Vec<u8> = Vec::new();
    extend_bytes(&mut v, sender_hash);
    extend_bytes(&mut v, recipient_hash);
    extend_bytes(&mut v, message_id);
    extend_bytes(&mut v, &u64_le(timestamp));
    extend_bytes(&mut v, content);
    v
}

/// Status of a sent message after the server answered (`Some(success)`) or
/// could not be reached (`None`).
pub fn send_status(server_success: Option<bool>) -> (r: &'static str)
    ensures
        r@ == if server_success == Some(true) {
            "sent"@
        } else {
            "failed"@
        },
{
    match server_success {
        Some(true) => "sent",
        _ => "failed",
    }
}

/// How a sent message is stored locally.
#[derive(Debug, Clone, Copy, PartialEq, Eq, Structural)]
pub enum LocalStorageMode {
    /// Under the data key only.
    Plain,
    /// Under the vault key, then the data key.
    Vault,
}

/// Decides how a sent message is stored: a message to oneself goes through
/// the vault when the vault is active, and is refused (`VAULT_LOCKED`) when
/// the vault key is not unlocked.
pub fn local_storage_mode(is_self_message: bool, vault_active: bool, vault_key_cached: bool) -> (r: Result<
    LocalStorageMode,
    String,
>)
    ensures
        !(is_self_message && vault_active) ==> r == Ok::<LocalStorageMode, String>(LocalStorageMode::Plain),
        is_self_message && vault_active && vault_key_cached ==> r == Ok::<LocalStorageMode, String>(
            LocalStorageMode::Vault,
        ),
        is_self_message && vault_active && !vault_key_cached ==> (r matches Err(m) && m@
            == "VAULT_LOCKED"@),
{
    if is_self_message && vault_active {
        if vault_key_cached {
            Ok(LocalStorageMode::Vault)
        } else {
            Err("VAULT_LOCKED".to_owned())
        }
    } else {
        Ok(LocalStorageMode::Plain)
    }
}

// ---------------------------------------------------------------------------
// Results
// ---------------------------------------------------------------------------

/// A message as the chat view shows it.
#[derive(Debug, Clone)]
pub struct MessageInfo {
    pub id: i64,
    pub message_id: String,
    pub friend_id: i64,
    pub content: String,
    pub is_outgoing: bool,
    pub timestamp: i64,
    pub status: String,
    pub delivered_at: Option<i64>,
    pub read_at: Option<i64>,
    pub message_type: String,
    pub file_name: Option<String>,
    pub file_mime: Option<String>,
    pub file_data: Option<String>,
    pub reply_to_id: Option<String>,
}

/// What a message synchronisation brought.
#[derive(Debug, Clone)]
pub struct MessageSyncResult {
    pub new_messages: u32,
    pub errors: Vec<String>,
    pub updated_friend_ids: Vec<i64>,
}

impl MessageSyncResult {
    /// Nothing new yet.
    pub fn empty() -> (r: MessageSyncResult)
        ensures
            r.new_messages == 0,
            r.errors@.len() == 0,
            r.updated_friend_ids@.len() == 0,
    {
        MessageSyncResult { new_messages: 0, errors: Vec::new(), updated_friend_ids: Vec::new() }
    }

    /// Counts a stored message from `friend_id`; each friend is listed once,
    /// in the order of their first new message.
    pub fn record_saved(&mut self, friend_id: i64)
        requires
            old(self).new_messages < u32::MAX,
            old(self).updated_friend_ids@.no_duplicates(),
        ensures
            final(self).new_messages == old(self).new_messages + 1,
            final(self).errors == old(self).errors,
            final(self).updated_friend_ids@ == if old(self).updated_friend_ids@.contains(friend_id) {
                old(self).updated_friend_ids@
            } else {
                old(self).updated_friend_ids@.push(friend_id)
            },
            final(self).updated_friend_ids@.no_duplicates(),
    {
        self.new_messages = self.new_messages + 1;
        let mut found = false;
        let mut i: usize = 0;
        while i < self.updated_friend_ids.len()
            invariant
                i <= self.updated_friend_ids@.len(),
                found == (exists|j: int| 0 <= j < i && self.updated_friend_ids@[j] == friend_id),
            decreases self.updated_friend_ids.len() - i,
        {
            if self.updated_friend_ids[i] == friend_id {
                found = true;
            }
            i = i + 1;
        }
        if !found {
            self.updated_friend_ids.push(friend_id);
        }
    }
}

/// The cursor stored after a synchronisation: the server's time stamp (ms)
/// when it gave one, else the local time in milliseconds.
pub fn message_sync_cursor(response_timestamp: u64, now_secs: u64) -> (r: u64)
    requires
        now_secs * 1000 <= u64::MAX,
    ensures
        r == if response_timestamp > 0 {
            response_timestamp as int
        } else {
            now_secs * 1000
        },
{
    if response_timestamp > 0 {
        response_timestamp
    } else {
        now_secs * 1000
    }
}

/// What becomes of a received message once decrypted, by what the sanitiser
/// made of its bytes.
#[derive(Debug, Clone)]
pub enum IncomingVerdict {
    /// Not stored, and the advanced ratchet state is not saved either: the
    /// message stays on the server and can be fetched again.
    Rejected { error: String },
    /// Stored with these bytes; the advanced ratchet state is saved when the
    /// message opened a new one.
    Accepted { content: Vec<u8>, save_session: bool },
}

/// The error recorded for a rejected message.
pub open spec fn rejected_message_error(message_id_hex: Seq<char>, reason: Seq<char>) -> Seq<char> {
    "Message rejeté ("@ + message_id_hex + ") : "@ + reason
}

/// Decides on a received message after sanitising: a refusal keeps both the
/// message and the session state unsaved.
pub fn incoming_verdict(message_id_hex: &str, sanitized: Result<Vec<u8>, String>, advanced_session: bool) -> (r:
    IncomingVerdict)
    ensures
        match sanitized {
            Err(e) => r matches IncomingVerdict::Rejected { error } && error@
                == rejected_message_error(message_id_hex@, e@),
            Ok(c) => r matches IncomingVerdict::Accepted { content, save_session } && content == c
                && save_session == advanced_session,
        },
{
    match sanitized {
        Err(e) => {
            let mut m = String::new();
            push_str(&mut m, "Message rejeté (");
            push_str(&mut m, message_id_hex);
            push_str(&mut m, ") : ");
            push_str(&mut m, e.as_str());
            IncomingVerdict::Rejected { error: m }
        },
        Ok(c) => IncomingVerdict::Accepted { content: c, save_session: advanced_session },
    }
}

// ---------------------------------------------------------------------------
// Choosing the Double Ratchet session of a message being sent
// ---------------------------------------------------------------------------

/// Where the choice of the session that encrypts an outgoing message stands.
#[derive(Debug, Clone, PartialEq, Eq)]
pub enum SendSessionState {
    /// Nothing was looked up yet.
    Start,
    /// A stored session exists and is being loaded.
    Loading,
    /// A new session is being made from the friend's pre-key bundle; `retry`
    /// when it replaces a stored session that could not encrypt.
    Creating { retry: bool },
    /// The message is being encrypted; a new session carries the pre-key ids
    /// of the bundle it was made from.
    Encrypting { prekey_ids: Option<(u32, u32)>, retry: bool },
    /// Finished.
    Done,
}

/// What happened outside the library.
#[derive(Debug)]
pub enum SendSessionEvent {
    /// Whether a session is stored for the friend, or the lookup's error.
    Lookup(Result<bool, String>),
    /// Reading the stored session failed with this error.
    LoadFailed { error: String },
    /// The stored session could not be read back.
    LoadMissing,
    /// The stored session was read; `usable` when it could be restored.
    Loaded { usable: bool },
    /// A session was made from the bundle (its signed and one-time pre-key
    /// ids), or the error that stopped it.
    Created(Result<(u32, u32), String>),
    /// The message was encrypted, or the encryption error.
    Encrypted(Result<(), String>),
}

/// What the caller does next.
#[derive(Debug, Clone, PartialEq, Eq)]
pub enum SendSessionAction {
    /// Load the stored session.
    LoadSession,
    /// Fetch the friend's pre-key bundle and make a session from it.
    CreateSession,
    /// Delete the stored session, then fetch the bundle and make a session.
    DeleteAndCreateSession,
    /// Encrypt the message with the session at hand.
    Encrypt,
    /// Send the message; a first message carries these pre-key ids in its
    /// layer keys.
    Send { prekey_ids: Option<(u32, u32)> },
    /// Give up with this message.
    Fail { message: String },
    /// The event does not fit the state.
    Ignore,
}

/// The state after one step of choosing the session.
pub open spec fn send_next_state(state: SendSessionState, event: SendSessionEvent) -> SendSessionState {
    match (state, event) {
        (SendSessionState::Start, SendSessionEvent::Lookup(Ok(true))) => SendSessionState::Loading,
        (SendSessionState::Start, SendSessionEvent::Lookup(Ok(false))) => SendSessionState::Creating {
            retry: false,
        },
        (SendSessionState::Start, SendSessionEvent::Lookup(Err(_))) => SendSessionState::Done,
        (SendSessionState::Loading, SendSessionEvent::Loaded { usable }) => if usable {
            SendSessionState::Encrypting { prekey_ids: None, retry: false }
        } else {
            SendSessionState::Creating { retry: false }
        },
        (SendSessionState::Loading, SendSessionEvent::LoadFailed { .. }) => SendSessionState::Done,
        (SendSessionState::Loading, SendSessionEvent::LoadMissing) => SendSessionState::Done,
        (SendSessionState::Creating { retry }, SendSessionEvent::Created(Ok(ids))) =>
            SendSessionState::Encrypting { prekey_ids: Some(ids), retry },
        (SendSessionState::Creating { .. }, SendSessionEvent::Created(Err(_))) => SendSessionState::Done,
        (SendSessionState::Encrypting { prekey_ids, .. }, SendSessionEvent::Encrypted(Err(_))) =>
            if prekey_ids is None {
            SendSessionState::Creating { retry: true }
        } else {
            SendSessionState::Done
        },
        (SendSessionState::Encrypting { .. }, SendSessionEvent::Encrypted(Ok(()))) => SendSessionState::Done,
        (s, _) => s,
    }
}

/// One step of choosing the session of an outgoing message: a stored
/// session is loaded, and one that cannot be restored is deleted and made
/// anew; without one a session is made from the friend's bundle. When a
/// stored session fails to encrypt, it is deleted and made anew once; a new
/// session that fails to encrypt ends the send.
pub fn send_session_step(state: SendSessionState, event: SendSessionEvent) -> (r: (
    SendSessionState,
    SendSessionAction,
))
    ensures
        r.0 == send_next_state(state, event),
        match (state, event) {
            (SendSessionState::Start, SendSessionEvent::Lookup(Ok(has))) => r.1 == if has {
                SendSessionAction::LoadSession
            } else {
                SendSessionAction::CreateSession
            },
            (SendSessionState::Start, SendSessionEvent::Lookup(Err(e))) => r.1 matches SendSessionAction::Fail {
                message,
            } && message@ == "Failed to check session: "@ + e@,
            (SendSessionState::Loading, SendSessionEvent::Loaded { usable }) => r.1 == if usable {
                SendSessionAction::Encrypt
            } else {
                SendSessionAction::DeleteAndCreateSession
            },
            (SendSessionState::Loading, SendSessionEvent::LoadFailed { error }) => r.1 matches SendSessionAction::Fail {
                message,
            } && message@ == "Failed to load session: "@ + error@,
            (SendSessionState::Loading, SendSessionEvent::LoadMissing) => r.1 matches SendSessionAction::Fail {
                message,
            } && message@ == "Session exists but could not be loaded"@,
            (SendSessionState::Creating { .. }, SendSessionEvent::Created(Ok(_))) => r.1
                == SendSessionAction::Encrypt,
            (SendSessionState::Creating { .. }, SendSessionEvent::Created(Err(e))) => r.1 matches SendSessionAction::Fail {
                message,
            } && message == e,
            (SendSessionState::Encrypting { prekey_ids, .. }, SendSessionEvent::Encrypted(Ok(()))) => r.1
                == SendSessionAction::Send { prekey_ids },
            (SendSessionState::Encrypting { prekey_ids, retry }, SendSessionEvent::Encrypted(Err(e))) => {
                &&& prekey_ids is None ==> r.1 == SendSessionAction::DeleteAndCreateSession
                &&& (prekey_ids is Some && retry) ==> (r.1 matches SendSessionAction::Fail { message }
                    && message@ == "Double Ratchet encryption failed after retry: "@ + e@)
                &&& (prekey_ids is Some && !retry) ==> (r.1 matches SendSessionAction::Fail { message }
                    && message@ == "Double Ratchet encryption failed: "@ + e@)
            },
            _ => r.1 == SendSessionAction::Ignore,
        },
{
    match state {
        SendSessionState::Start => match event {
            SendSessionEvent::Lookup(Ok(true)) => (SendSessionState::Loading, SendSessionAction::LoadSession),
            SendSessionEvent::Lookup(Ok(false)) => (
                SendSessionState::Creating { retry: false },
                SendSessionAction::CreateSession,
            ),
            SendSessionEvent::Lookup(Err(e)) => {
                let mut m = String::new();
                push_str(&mut m, "Failed to check session: ");
                push_str(&mut m, e.as_str());
                (SendSessionState::Done, SendSessionAction::Fail { message: m })
            },
            _ => (SendSessionState::Start, SendSessionAction::Ignore),
        },
        SendSessionState::Loading => match event {
            SendSessionEvent::Loaded { usable } => if usable {
                (
                    SendSessionState::Encrypting { prekey_ids: None, retry: false },
                    SendSessionAction::Encrypt,
                )
            } else {
                (SendSessionState::Creating { retry: false }, SendSessionAction::DeleteAndCreateSession)
            },
            SendSessionEvent::LoadFailed { error } => {
                let mut m = String::new();
                push_str(&mut m, "Failed to load session: ");
                push_str(&mut m, error.as_str());
                (SendSessionState::Done, SendSessionAction::Fail { message: m })
            },
            SendSessionEvent::LoadMissing => (
                SendSessionState::Done,
                SendSessionAction::Fail { message: "Session exists but could not be loaded".to_owned() },
            ),
            _ => (SendSessionState::Loading, SendSessionAction::Ignore),
        },
        SendSessionState::Creating { retry } => match event {
            SendSessionEvent::Created(Ok(ids)) => (
                SendSessionState::Encrypting { prekey_ids: Some(ids), retry },
                SendSessionAction::Encrypt,
            ),
            SendSessionEvent::Created(Err(e)) => (
                SendSessionState::Done,
                SendSessionAction::Fail { message: e },
            ),
            _ => (SendSessionState::Creating { retry }, SendSessionAction::Ignore),
        },
        SendSessionState::Encrypting { prekey_ids, retry } => match event {
            SendSessionEvent::Encrypted(Ok(())) => (
                SendSessionState::Done,
                SendSessionAction::Send { prekey_ids },
            ),
            SendSessionEvent::Encrypted(Err(e)) => match prekey_ids {
                None => (SendSessionState::Creating { retry: true }, SendSessionAction::DeleteAndCreateSession),
                Some(_) => {
                    let mut m = String::new();
                    if retry {
                        push_str(&mut m, "Double Ratchet encryption failed after retry: ");
                    } else {
                        push_str(&mut m, "Double Ratchet encryption failed: ");
                    }
                    push_str(&mut m, e.as_str());
                    (SendSessionState::Done, SendSessionAction::Fail { message: m })
                },
            },
            _ => (SendSessionState::Encrypting { prekey_ids, retry }, SendSessionAction::Ignore),
        },
        SendSessionState::Done => (SendSessionState::Done, SendSessionAction::Ignore),
    }
}

/// A send retries at most once: a step starts making a session anew after
/// an encryption failure only when a stored session failed, and a new
/// session that fails never leads back to making one, so a second failure
/// ends the send.
pub proof fn lemma_send_retries_once(state: SendSessionState, event: SendSessionEvent)
    ensures
        !(state is Creating) && (send_next_state(state, event) matches SendSessionState::Creating {
            retry,
        } && retry) ==> (state matches SendSessionState::Encrypting { prekey_ids, .. }
            && prekey_ids is None),
        state matches SendSessionState::Encrypting { prekey_ids, .. } && prekey_ids is Some
            ==> !(send_next_state(state, event) is Creating),
{
}

// ---------------------------------------------------------------------------
// How a received envelope is decrypted
// ---------------------------------------------------------------------------

/// The content of a received envelope, as far as the choice of decryption
/// depends on it.
#[derive(Debug, Clone, Copy, PartialEq, Eq, Structural)]
pub enum EnvelopeShape {
    /// A regular message: whether it has a ratchet header and encrypted
    /// layers, and whether its type marks it as opening a session.
    Regular { has_header: bool, has_layers: bool, opens_session: bool },
    /// A pre-key message.
    PreKey,
    /// No content.
    Empty,
}

/// How a received envelope is decrypted.
#[derive(Debug, Clone, Copy, PartialEq, Eq, Structural)]
pub enum DecryptRoute {
    /// The envelope is skipped.
    Skip,
    /// As a pre-key message; `synthetic` when it is built from a regular
    /// message, with the pre-key ids its layer keys carry.
    PreKey { synthetic: bool },
    /// With the stored session; when that fails the session is deleted, so
    /// that the friend's next message starts a fresh one.
    Regular,
}

/// Chooses how to decrypt a received envelope: an empty one, or a regular
/// message with neither header nor layers, is skipped; a regular message
/// typed as opening a session is decrypted as a pre-key message.
pub fn envelope_route(shape: EnvelopeShape) -> (r: DecryptRoute)
    ensures
        r == match shape {
            EnvelopeShape::Regular { has_header, has_layers, opens_session } => if !has_header
                && !has_layers {
                DecryptRoute::Skip
            } else if opens_session {
                DecryptRoute::PreKey { synthetic: true }
            } else {
                DecryptRoute::Regular
            },
            EnvelopeShape::PreKey => DecryptRoute::PreKey { synthetic: false },
            EnvelopeShape::Empty => DecryptRoute::Skip,
        },
{
    match shape {
        EnvelopeShape::Regular { has_header, has_layers, opens_session } => {
            if !has_header && !has_layers {
                DecryptRoute::Skip
            } else if opens_session {
                DecryptRoute::PreKey { synthetic: true }
            } else {
                DecryptRoute::Regular
            }
        },
        EnvelopeShape::PreKey => DecryptRoute::PreKey { synthetic: false },
        EnvelopeShape::Empty => DecryptRoute::Skip,
    }
}

} // verus!
