use base64::Engine;
use zenth_client::messages::{
    accept_unsanitised_file, bytes_start_with, compose_inner_message, contains_text,
    db_message_type, envelope_signed_message, layer_key_ids, local_storage_mode,
    magic_fits_mime, message_sync_cursor, mime_to_message_type, parse_inner_for_sync,
    parse_inner_message, prekey_ids_from_layer_keys, send_status, starts_with, InnerMessage,
    LocalStorageMode, MessageSyncResult,
};
use zenth_client::sanitize::{
    failed_analysis, file_sanitize_response, get_supported_formats, media_kind,
    typed_sanitize_response, unsupported_type_response, MediaKind,
};

fn file_message(mime: &str) -> InnerMessage {
    InnerMessage {
        is_file: true,
        text: String::new(),
        file_data: vec![1, 2, 3, 4],
        file_name: "a.bin".to_string(),
        file_mime: mime.to_string(),
        reply_to_id: "r1".to_string(),
    }
}

#[test]
fn mime_types_shown() {
    assert_eq!(mime_to_message_type("image/png"), "image");
    assert_eq!(mime_to_message_type("audio/ogg"), "audio");
    assert_eq!(mime_to_message_type("video/mp4"), "video");
    assert_eq!(mime_to_message_type("application/pdf"), "pdf");
    assert_eq!(mime_to_message_type("application/zip"), "file");
    assert_eq!(db_message_type("pdf"), "file");
    assert_eq!(db_message_type("image"), "image");
}

#[test]
fn text_prefixes_and_substrings() {
    assert!(starts_with("image/png", "image/"));
    assert!(!starts_with("im", "image/"));
    assert!(contains_text("audio/webm;codecs=opus", "opus"));
    assert!(!contains_text("audio/mpeg", "ogg"));
    assert!(bytes_start_with(&[1, 2, 3], &[1, 2]));
    assert!(!bytes_start_with(&[1], &[1, 2]));
}

#[test]
fn parse_file_inner_message() {
    let parsed = parse_inner_message(Some(file_message("application/pdf")), &[]);
    assert_eq!(parsed.display_content, "a.bin");
    assert_eq!(parsed.message_type, "pdf");
    assert_eq!(parsed.filename, Some("a.bin".to_string()));
    assert_eq!(parsed.mime_type, Some("application/pdf".to_string()));
    assert_eq!(parsed.file_size, Some(4));
    assert_eq!(
        parsed.file_data_b64,
        Some(base64::engine::general_purpose::STANDARD.encode([1u8, 2, 3, 4]))
    );
    assert_eq!(parsed.file_data_b64, Some("AQIDBA==".to_string()));
    assert_eq!(parsed.reply_to_id, Some("r1".to_string()));
}

#[test]
fn parse_legacy_plain_text() {
    let parsed = parse_inner_message(None, "héllo".as_bytes());
    assert_eq!(parsed.display_content, "héllo");
    assert_eq!(parsed.message_type, "text");
    assert_eq!(parsed.filename, None);
    assert_eq!(parsed.reply_to_id, None);
}

#[test]
fn parse_text_inner_message() {
    let inner = InnerMessage {
        is_file: false,
        text: "hi".to_string(),
        file_data: vec![],
        file_name: String::new(),
        file_mime: String::new(),
        reply_to_id: String::new(),
    };
    let parsed = parse_inner_message(Some(inner), &[]);
    assert_eq!(parsed.display_content, "hi");
    assert_eq!(parsed.message_type, "text");
    assert_eq!(parsed.reply_to_id, None);
    assert_eq!(parsed.file_data_b64, None);
}

#[test]
fn sync_types_store_pdf_as_file() {
    assert_eq!(
        parse_inner_for_sync(Some(file_message("application/pdf")), &[]),
        ("file".to_string(), Some("a.bin".to_string()))
    );
    assert_eq!(
        parse_inner_for_sync(Some(file_message("image/jpeg")), &[]),
        ("image".to_string(), Some("a.bin".to_string()))
    );
    assert_eq!(parse_inner_for_sync(None, b"plain"), ("text".to_string(), None));
}

#[test]
fn compose_file_or_text() {
    let (inner, t) = compose_inner_message(
        "ignored".to_string(),
        Some(vec![9]),
        Some("x.mp3".to_string()),
        Some("audio/mpeg".to_string()),
        Some("r".to_string()),
    );
    assert!(inner.is_file);
    assert_eq!(inner.text, "");
    assert_eq!(inner.file_data, vec![9]);
    assert_eq!(inner.reply_to_id, "r");
    assert_eq!(t, "audio");
    let (inner, t) = compose_inner_message("hello".to_string(), Some(vec![9]), None, None, None);
    assert!(!inner.is_file);
    assert_eq!(inner.text, "hello");
    assert!(inner.file_data.is_empty());
    assert_eq!(inner.reply_to_id, "");
    assert_eq!(t, "text");
}

#[test]
fn magic_bytes_against_mime() {
    let webm = [0x1a, 0x45, 0xdf, 0xa3, 0];
    let ogg = *b"OggS....";
    let mp4 = *b"\0\0\0\x18ftypisom";
    let webp = *b"RIFF\0\0\0\0WEBPVP8 ";
    assert!(magic_fits_mime("audio/webm", &webm));
    assert!(magic_fits_mime("audio/ogg", &ogg));
    assert!(magic_fits_mime("video/mp4", &mp4));
    assert!(magic_fits_mime("image/webp", &webp));
    assert!(!magic_fits_mime("audio/mpeg", &webm));
    assert!(!magic_fits_mime("video/mp4", b"\0\0\0\x18ftyp"));
}

#[test]
fn unsanitised_files() {
    assert_eq!(accept_unsanitised_file(true, "application/zip", b"PK"), Ok(()));
    assert_eq!(accept_unsanitised_file(false, "Audio/WEBM", &[0x1a, 0x45, 0xdf, 0xa3]), Ok(()));
    assert_eq!(
        accept_unsanitised_file(false, "application/zip", b"PK"),
        Err("Fichier rejeté : format non reconnu ou MIME incohérent (application/zip)".to_string())
    );
    assert_eq!(
        accept_unsanitised_file(false, "Video/MP4", b"nothing here at all"),
        Err("Fichier rejeté : format non reconnu ou MIME incohérent (Video/MP4)".to_string())
    );
}

#[test]
fn layer_key_ids_roundtrip() {
    let (s, p) = layer_key_ids(Some((0x01020304, 77)));
    assert_eq!(s, [4, 3, 2, 1]);
    assert_eq!(prekey_ids_from_layer_keys(&[s.to_vec(), p.to_vec()]), (0x01020304, 77));
    let (s, p) = layer_key_ids(None);
    assert_eq!((s, p), ([1, 0, 0, 0], [0, 0, 0, 0]));
    assert_eq!(prekey_ids_from_layer_keys(&[vec![5]]), (1, 0));
    assert_eq!(prekey_ids_from_layer_keys(&[vec![1, 2], vec![2, 0, 0, 0]]), (1, 2));
}

#[test]
fn signed_envelope_layout() {
    let m = envelope_signed_message(&[1], &[2, 3], b"id", 0x0102, &[9]);
    assert_eq!(m, vec![1, 2, 3, b'i', b'd', 2, 1, 0, 0, 0, 0, 0, 0, 9]);
}

#[test]
fn sending_status_and_storage() {
    assert_eq!(send_status(Some(true)), "sent");
    assert_eq!(send_status(Some(false)), "failed");
    assert_eq!(send_status(None), "failed");
    assert_eq!(local_storage_mode(false, true, false), Ok(LocalStorageMode::Plain));
    assert_eq!(local_storage_mode(true, false, false), Ok(LocalStorageMode::Plain));
    assert_eq!(local_storage_mode(true, true, true), Ok(LocalStorageMode::Vault));
    assert_eq!(local_storage_mode(true, true, false), Err("VAULT_LOCKED".to_string()));
}

#[test]
fn message_sync_bookkeeping() {
    let mut r = MessageSyncResult::empty();
    r.record_saved(3);
    r.record_saved(4);
    r.record_saved(3);
    assert_eq!(r.new_messages, 3);
    assert_eq!(r.updated_friend_ids, vec![3, 4]);
    assert!(r.errors.is_empty());
    assert_eq!(message_sync_cursor(1234, 99), 1234);
    assert_eq!(message_sync_cursor(0, 99), 99_000);
}

#[test]
fn sanitiser_choice_by_type_name() {
    assert_eq!(media_kind("JPG"), Some(MediaKind::Jpeg));
    assert_eq!(media_kind("jpeg"), Some(MediaKind::Jpeg));
    assert_eq!(media_kind("Png"), Some(MediaKind::Png));
    assert_eq!(media_kind("mp3"), Some(MediaKind::Mp3));
    assert_eq!(media_kind("MP4"), Some(MediaKind::Mp4));
    assert_eq!(media_kind("wav"), Some(MediaKind::Wav));
    assert_eq!(media_kind("PDF"), Some(MediaKind::Pdf));
    assert_eq!(media_kind("gif"), None);
    for name in get_supported_formats() {
        assert!(media_kind(&name).is_some());
    }
    assert_eq!(get_supported_formats(), vec!["jpeg", "jpg", "png", "mp3", "mp4", "wav", "pdf"]);
}

#[test]
fn sanitise_answers() {
    let r = unsupported_type_response("GIF", 12);
    assert!(!r.success);
    assert_eq!(r.message, "Unsupported file type: GIF");
    assert_eq!((r.original_size, r.sanitized_size), (12, 0));
    assert!(r.sanitized_data.is_none());
    let ok = typed_sanitize_response(10, Ok(vec![1, 2, 3]));
    assert!(ok.success);
    assert_eq!(ok.message, "File sanitized successfully");
    assert_eq!(ok.sanitized_size, 3);
    assert_eq!(ok.sanitized_data, Some(vec![1, 2, 3]));
    let err = typed_sanitize_response(10, Err("bad header".to_string()));
    assert!(!err.success);
    assert_eq!(err.message, "bad header");
    let file = file_sanitize_response(1024, Ok(vec![0; 1000]));
    assert_eq!(file.message, "File sanitized successfully. Reduced from 1024 to 1000 bytes");
    assert_eq!(file.original_size, 1024);
    let analysis = failed_analysis(7, "unknown signature".to_string());
    assert_eq!(analysis.file_type, "Unknown");
    assert_eq!(analysis.size, 7);
    assert_eq!(analysis.error, Some("unknown signature".to_string()));
}
