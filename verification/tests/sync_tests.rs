use base64::Engine;
use chacha20poly1305::aead::{Aead, KeyInit};
use chacha20poly1305::{ChaCha20Poly1305, Key, Nonce};
use sha2::{Digest, Sha256};
use x25519_dalek::{PublicKey, StaticSecret};
use zenth_client::recovery::{
    parse_zbc_frame, recovery_claim_message, restores_recovery_key, stored_recovery_pubkey,
    zbc_frame_bytes, zbc_message_from_parts, ZbcFrame,
};
use zenth_client::settings::{render_setting_value, typed_setting_value, AppSettings, SettingValue};
use zenth_client::sync::{
    adopt_trusted_account, check_new_device_qr, check_pairing_expiry, check_return_qr,
    decrypt_with_sync_keys, effective_username, key_commitment_matches, max_relay_id,
    missing_by_hash, pairing_expiry, pairing_response_ciphertext, parse_pairing_response,
    patch_is_needed, relay_decrypt, relay_encrypt, relay_encrypt_with_nonce, relay_friend_action,
    relay_cursor_message, relay_message_status, settings_manifest_text, split_device_keys, sync_key32, LocalContact,
    RelayFriendAction, SettingEntry,
};
use zenth_client::text::{hex_decode, hex_encode, parse_i64, parse_u64, HexDecodeError};
use zenth_client::x3dh::{ephemeral_public_hex, x3dh_alice, x3dh_bob, X3dhError};

#[test]
fn relay_roundtrip() {
    let key = [3u8; 32];
    let (ct, nonce) = relay_encrypt(&key, b"hello relay").unwrap();
    assert_eq!(ct.len(), b"hello relay".len() + 16);
    assert_eq!(relay_decrypt(&key, &nonce, &ct), Ok(b"hello relay".to_vec()));
    assert_eq!(
        relay_decrypt(&[4u8; 32], &nonce, &ct),
        Err("Déchiffrement relay échoué - message corrompu ou clé incorrecte".to_string())
    );
    assert_eq!(relay_decrypt(&key, &[0; 11], &ct), Err("Nonce relay invalide".to_string()));
}

#[test]
fn relay_ciphertext_is_chacha20poly1305() {
    let key = [7u8; 32];
    let nonce = [1u8; 12];
    let (ct, n) = relay_encrypt_with_nonce(&key, nonce, b"payload").unwrap();
    assert_eq!(n, nonce);
    let cipher = ChaCha20Poly1305::new(Key::from_slice(&key));
    let expected = cipher.encrypt(Nonce::from_slice(&nonce), b"payload".as_ref()).unwrap();
    assert_eq!(ct, expected);
}

#[test]
fn sync_keys_tried_in_order() {
    let good = vec![9u8; 40];
    let (ct, nonce) = relay_encrypt(&sync_key32(&good).unwrap(), b"x").unwrap();
    assert_eq!(sync_key32(&[1; 31]), None);
    let keys = vec![vec![1u8; 5], vec![2u8; 32], good];
    assert_eq!(decrypt_with_sync_keys(&keys, &nonce, &ct), Some(b"x".to_vec()));
    assert_eq!(decrypt_with_sync_keys(&keys[..2], &nonce, &ct), None);
    assert_eq!(decrypt_with_sync_keys(&keys, &nonce[..4], &ct), None);
}

#[test]
fn pairing_response_roundtrip() {
    let dil_tel = vec![1u8; 1312];
    let dil_pc = vec![2u8; 1312];
    let kyber = vec![3u8; 1568];
    let user_hash = vec![4u8; 32];
    let ct = pairing_response_ciphertext(&dil_tel, 1000, 1120, &dil_pc, &kyber, &user_hash);
    let p = parse_pairing_response(&ct).unwrap();
    assert_eq!(p.dil_pub_tel, dil_tel);
    assert_eq!((p.timestamp, p.expiry), (1000, 1120));
    assert_eq!(p.dil_pub_pc, dil_pc);
    assert_eq!(p.kyber_pub_pc, kyber);
    assert_eq!(p.user_hash_tel, user_hash);
    assert!(matches!(parse_pairing_response(&ct[..100]), Err(m) if m == "Réponse DHT corrompue"));
}

#[test]
fn pairing_checks() {
    assert_eq!(pairing_expiry(1000), 1120);
    assert_eq!(check_pairing_expiry(1120, 1000), Ok(()));
    assert_eq!(
        check_pairing_expiry(1000, 1000),
        Err("QR expiré (délai de 2 minutes dépassé)".to_string())
    );
    assert_eq!(check_new_device_qr("1"), Ok(()));
    assert_eq!(check_new_device_qr("2"), Err("Version de protocole non supportée".to_string()));
    assert_eq!(check_return_qr("1", "1"), Ok(()));
    assert_eq!(
        check_return_qr("1", "0"),
        Err("QR invalide - ce n'est pas un QR retour Zenth".to_string())
    );
    let keys: Vec<u8> = (0..1400).map(|i| i as u8).collect();
    let (d, k) = split_device_keys(&keys).unwrap();
    assert_eq!((d.len(), k.len()), (1312, 88));
    assert_eq!(split_device_keys(&[0; 10]), Err("Données DHT corrompues".to_string()));
}

#[test]
fn commitment_is_base64_sha256() {
    let dil = [1u8, 2];
    let kyber = [3u8];
    let commitment = base64::engine::general_purpose::STANDARD.encode(Sha256::digest([1u8, 2, 3]));
    assert!(key_commitment_matches(&dil, &kyber, &commitment));
    assert!(!key_commitment_matches(&dil, &kyber, "AAAA"));
}

#[test]
fn trusted_account_and_names() {
    let own = "00".repeat(32);
    let trusted = "11".repeat(32);
    assert!(adopt_trusted_account(&trusted, &own));
    assert!(!adopt_trusted_account(&own, &own));
    assert!(!adopt_trusted_account("", &own));
    assert!(!adopt_trusted_account("1111", &own));
    assert!(!adopt_trusted_account(&"zz".repeat(32), &own));
    assert_eq!(effective_username("bob", "alice"), Some("bob".to_string()));
    assert_eq!(effective_username("alice", "alice"), None);
    assert_eq!(effective_username("", "alice"), None);
}

#[test]
fn relay_bookkeeping() {
    assert_eq!(relay_message_status(true), "sent");
    assert_eq!(relay_message_status(false), "delivered");
    assert_eq!(max_relay_id(&[3, 9, -2]), 9);
    assert_eq!(max_relay_id(&[-5]), -5);
    assert_eq!(max_relay_id(&[]), 0);
    let fh = "abcdef0123456789";
    assert_eq!(relay_friend_action(&None, fh, "Bob"), RelayFriendAction::InsertNew);
    let real = Some(LocalContact { pseudo: "x".to_string(), has_keys: true });
    assert_eq!(relay_friend_action(&real, fh, "Bob"), RelayFriendAction::KeepExisting);
    let default_named = Some(LocalContact { pseudo: "abcdef01".to_string(), has_keys: false });
    assert_eq!(
        relay_friend_action(&default_named, fh, "Bob"),
        RelayFriendAction::CompletePlaceholder { pseudo: "Bob".to_string() }
    );
    let chosen = Some(LocalContact { pseudo: "Bobby".to_string(), has_keys: false });
    assert_eq!(
        relay_friend_action(&chosen, fh, "Bob"),
        RelayFriendAction::CompletePlaceholder { pseudo: "Bobby".to_string() }
    );
}

#[test]
fn manifest_comparisons() {
    let local = vec!["a".to_string(), "b".to_string(), "c".to_string()];
    let remote = vec!["b".to_string()];
    assert_eq!(missing_by_hash(&local, &remote), vec![0, 2]);
    assert!(missing_by_hash(&remote, &local).is_empty());
    let entries = vec![
        SettingEntry { key: "theme".to_string(), value: "dark".to_string() },
        SettingEntry { key: "language".to_string(), value: "fr".to_string() },
    ];
    assert_eq!(settings_manifest_text(&entries), "theme=dark|language=fr");
    assert_eq!(settings_manifest_text(&[]), "");
    assert!(patch_is_needed(0, true, 0));
    assert!(!patch_is_needed(0, false, 0));
}

#[test]
fn x3dh_both_ends_agree() {
    let a_ik = [11u8; 32];
    let a_ek = [12u8; 32];
    let b_spk = [13u8; 32];
    let b_opk = [14u8; 32];
    let spk_pub = PublicKey::from(&StaticSecret::from(b_spk)).to_bytes();
    let opk_pub = PublicKey::from(&StaticSecret::from(b_opk)).to_bytes();
    let ik_pub = PublicKey::from(&StaticSecret::from(a_ik)).to_bytes();
    let ek_pub = PublicKey::from(&StaticSecret::from(a_ek)).to_bytes();

    let alice = x3dh_alice(&spk_pub, 5, &opk_pub, &a_ik, &a_ek).unwrap();
    assert_eq!(alice.ephemeral_public, ek_pub);
    assert_eq!(alice.one_time_prekey_id, Some(5));
    assert_eq!(ephemeral_public_hex(&alice), hex::encode(ek_pub));
    let bob = x3dh_bob(&b_spk, &b_spk, Some((5, b_opk)), &ik_pub, &ek_pub).unwrap();
    assert_eq!(alice.root_key, bob);

    let alice_no_opk = x3dh_alice(&spk_pub, 0, &[], &a_ik, &a_ek).unwrap();
    let bob_no_opk = x3dh_bob(&b_spk, &b_spk, None, &ik_pub, &ek_pub).unwrap();
    assert_eq!(alice_no_opk.root_key, bob_no_opk);
    assert_eq!(alice_no_opk.one_time_prekey_id, None);
    assert_ne!(alice_no_opk.root_key, alice.root_key);
}

#[test]
fn x3dh_root_key_formula() {
    let a_ik = StaticSecret::from([21u8; 32]);
    let a_ek = StaticSecret::from([22u8; 32]);
    let spk_pub = PublicKey::from(&StaticSecret::from([23u8; 32]));
    let mut input = b"ZenthX3DH".to_vec();
    input.extend_from_slice(a_ik.diffie_hellman(&spk_pub).as_bytes());
    input.extend_from_slice(a_ek.diffie_hellman(&spk_pub).as_bytes());
    input.extend_from_slice(a_ek.diffie_hellman(&spk_pub).as_bytes());
    let expected: [u8; 32] = Sha256::digest(&input).into();
    let alice = x3dh_alice(spk_pub.as_bytes(), 0, &[], &[21u8; 32], &[22u8; 32]).unwrap();
    assert_eq!(alice.root_key, expected);
}

#[test]
fn x3dh_key_lengths() {
    assert!(matches!(
        x3dh_alice(&[0; 31], 0, &[], &[1; 32], &[2; 32]),
        Err(X3dhError::InvalidSignedPrekeyLength(31))
    ));
    assert!(matches!(
        x3dh_alice(&[9; 32], 3, &[1; 5], &[1; 32], &[2; 32]),
        Err(X3dhError::InvalidOneTimePrekeyLength(5))
    ));
    assert_eq!(
        x3dh_bob(&[1; 32], &[1; 32], None, &[0; 3], &[0; 32]),
        Err(X3dhError::InvalidIdentityKeyLength(3))
    );
    assert_eq!(
        x3dh_bob(&[1; 32], &[1; 32], None, &[0; 32], &[0; 4]),
        Err(X3dhError::InvalidEphemeralKeyLength(4))
    );
}

#[test]
fn backup_frame_roundtrip() {
    let frame = ZbcFrame {
        version: 1,
        salt_serpent: [1; 32],
        salt_aes: [2; 32],
        iv_serpent: [3; 16],
        nonce_aes: [4; 12],
        tag_aes: [5; 16],
        ciphertext: vec![6, 7, 8],
    };
    let bytes = zbc_frame_bytes(&frame);
    assert_eq!(&bytes[..4], b"ZBC1");
    assert_eq!(bytes.len(), 113 + 3);
    let back = parse_zbc_frame(&bytes).unwrap();
    assert_eq!(back.version, 1);
    assert_eq!(back.salt_aes, [2; 32]);
    assert_eq!(back.tag_aes, [5; 16]);
    assert_eq!(back.ciphertext, vec![6, 7, 8]);
    assert!(matches!(parse_zbc_frame(&bytes[..50]), Err(m) if m == "Fichier .zbc trop court"));
    let mut bad = bytes.clone();
    bad[0] = b'X';
    assert!(matches!(parse_zbc_frame(&bad), Err(m) if m == "Fichier .zbc invalide (magic incorrect)"));
}

#[test]
fn backup_messages_and_keys() {
    let m = zbc_message_from_parts(
        &[0xab, 0xcd],
        1,
        "file".to_string(),
        42,
        String::new(),
        &[1, 2, 3],
        "a.txt".to_string(),
        String::new(),
    );
    assert_eq!(m.message_id, "abcd");
    assert!(m.is_outgoing);
    assert_eq!(m.file_data, Some("AQID".to_string()));
    assert_eq!(m.file_name, Some("a.txt".to_string()));
    assert_eq!(m.file_mime, None);
    assert!(restores_recovery_key("aa", ""));
    assert!(!restores_recovery_key("aa", "bb"));
    assert_eq!(recovery_claim_message(&[1], &[2], 3), vec![1, 2, 3, 0, 0, 0, 0, 0, 0, 0]);
    assert_eq!(stored_recovery_pubkey(Some("k".to_string())), Ok("k".to_string()));
    assert_eq!(
        stored_recovery_pubkey(Some(String::new())),
        Err("Clé recovery non initialisée".to_string())
    );
}

#[test]
fn settings_values() {
    assert_eq!(typed_setting_value("true"), SettingValue::Bool(true));
    assert_eq!(typed_setting_value("false"), SettingValue::Bool(false));
    assert_eq!(typed_setting_value("-42"), SettingValue::Number(-42));
    assert_eq!(typed_setting_value("dark"), SettingValue::Text("dark".to_string()));
    assert_eq!(render_setting_value(&SettingValue::Number(-42)), "-42");
    assert_eq!(render_setting_value(&SettingValue::Bool(false)), "false");
    for v in ["true", "false", "-42", "0", "dark", "fr"] {
        assert_eq!(render_setting_value(&typed_setting_value(v)), v);
    }
    assert_eq!(render_setting_value(&typed_setting_value("007")), "7");
    let d = AppSettings::default();
    assert_eq!(d.appearance.theme, "dark");
    assert_eq!(d.appearance.language, "fr");
    let names = AppSettings::field_names();
    assert_eq!(names[0], "theme");
    assert_eq!(names.len(), 62);
    assert!(!names.contains(&"require_password_for_export"));
    let distinct: std::collections::HashSet<&str> = names.iter().copied().collect();
    assert_eq!(distinct.len(), 62);
}

#[test]
fn text_helpers() {
    assert_eq!(hex_encode(&[0, 255, 16]), "00ff10");
    assert_eq!(hex_decode("00FF10"), Ok(vec![0, 255, 16]));
    assert_eq!(hex_decode("abc"), Err(HexDecodeError::OddLength));
    assert_eq!(hex_decode("0g"), Err(HexDecodeError::InvalidHexCharacter { c: b'g', index: 1 }));
    assert_eq!(parse_u64("18446744073709551615"), Some(u64::MAX));
    assert_eq!(parse_u64("18446744073709551616"), None);
    assert_eq!(parse_u64(""), None);
    assert_eq!(parse_i64("-9223372036854775808"), Some(i64::MIN));
    assert_eq!(parse_i64("+5"), Some(5));
    assert_eq!(parse_i64("1x"), None);
}

#[test]
fn relay_cursor_layout() {
    let m = relay_cursor_message(&[9, 9], -1, 2);
    let mut expected = vec![9, 9];
    expected.extend_from_slice(&(-1i64).to_le_bytes());
    expected.extend_from_slice(&2u64.to_le_bytes());
    assert_eq!(m, expected);
}
