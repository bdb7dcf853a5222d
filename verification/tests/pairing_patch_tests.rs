use base64::Engine;
use pqcrypto_dilithium::dilithium2;
use pqcrypto_traits::sign::{DetachedSignature, PublicKey};
use zenth_client::sync::{
    adoption_step, build_sync_patch, pairing_content_message, pairing_response_ciphertext,
    verify_pairing_response, verify_sync_key_blob, AdoptionAction, AdoptionEvent, AdoptionState,
    patch_contact_action, ContactRow, PatchContactAction, PatchMessage, SettingEntry,
};

const NOW: u64 = 1_700_000_000;

struct Pairing {
    response: Vec<u8>,
    signature: Vec<u8>,
    trusted_pk: Vec<u8>,
    user_hash: Vec<u8>,
}

fn pairing(expiry: u64) -> Pairing {
    let (pk, sk) = dilithium2::keypair();
    let (pc_pk, _) = dilithium2::keypair();
    let kyber = vec![7u8; 1568];
    let user_hash: Vec<u8> = (0u8..32).collect();
    let ts = NOW - 5;
    let response = pairing_response_ciphertext(
        pk.as_bytes(),
        ts,
        expiry,
        pc_pk.as_bytes(),
        &kyber,
        &user_hash,
    );
    let msg = pairing_content_message(pc_pk.as_bytes(), &kyber, ts);
    let signature = dilithium2::detached_sign(&msg, &sk).as_bytes().to_vec();
    Pairing { response, signature, trusted_pk: pk.as_bytes().to_vec(), user_hash }
}

#[test]
fn pairing_response_verifies() {
    let p = pairing(NOW + 120);
    let r = verify_pairing_response("1", "1", Some("alice".to_string()), &p.response, &p.signature, NOW)
        .unwrap();
    assert_eq!(r.pubkey, base64::engine::general_purpose::STANDARD.encode(&p.trusted_pk));
    assert_eq!(r.username_hash_hex, hex::encode(&p.user_hash));
    assert_eq!(r.trusted_username, "alice");
    let r = verify_pairing_response("1", "1", None, &p.response, &p.signature, NOW).unwrap();
    assert_eq!(r.trusted_username, "");
}

#[test]
fn pairing_response_errors() {
    let p = pairing(NOW + 120);
    let err = |v: &str, ret: &str, resp: &[u8], sig: &[u8], now: u64| {
        verify_pairing_response(v, ret, None, resp, sig, now).err().unwrap()
    };
    assert_eq!(
        err("2", "1", &p.response, &p.signature, NOW),
        "QR invalide - ce n'est pas un QR retour Zenth"
    );
    assert_eq!(
        err("1", "0", &p.response, &p.signature, NOW),
        "QR invalide - ce n'est pas un QR retour Zenth"
    );
    assert_eq!(err("1", "1", &p.response[..2639], &p.signature, NOW), "Réponse DHT corrompue");
    assert_eq!(
        err("1", "1", &p.response, &p.signature, NOW + 120),
        "QR expiré (délai de 2 minutes dépassé)"
    );
    assert_eq!(err("1", "1", &p.response, &[0u8; 2421], NOW), "Format de signature invalide");
    let mut bad = p.signature.clone();
    bad[10] ^= 1;
    assert_eq!(
        err("1", "1", &p.response, &bad, NOW),
        "Échec de la vérification - appairage refusé"
    );
    let mut tampered = p.response.clone();
    let last = tampered.len() - 40;
    tampered[last] ^= 1;
    assert_eq!(
        err("1", "1", &tampered, &p.signature, NOW),
        "Échec de la vérification - appairage refusé"
    );
}

#[test]
fn sync_key_blob_signature() {
    let (pk, sk) = dilithium2::keypair();
    let blob = b"encrypted sync key".to_vec();
    let sig = dilithium2::detached_sign(&blob, &sk).as_bytes().to_vec();
    assert_eq!(verify_sync_key_blob(pk.as_bytes(), &blob, &sig), Ok(()));
    assert_eq!(
        verify_sync_key_blob(&pk.as_bytes()[..1311], &blob, &sig),
        Err("Clé publique Dilithium invalide".to_string())
    );
    assert_eq!(
        verify_sync_key_blob(pk.as_bytes(), &blob, &[0u8; 2421]),
        Err("Signature blob invalide".to_string())
    );
    assert_eq!(
        verify_sync_key_blob(pk.as_bytes(), b"another blob", &sig),
        Err("Signature blob invalide - blob rejeté".to_string())
    );
}

#[test]
fn adoption_runs_through_its_states() {
    let trusted = "ab".repeat(32);
    let own = "cd".repeat(32);
    let (s, a) = adoption_step(
        AdoptionState::Start,
        AdoptionEvent::Hashes { trusted_hex: trusted.clone(), own_hex: own.clone() },
    );
    assert_eq!(a, AdoptionAction::RemoveTemporaryAccount);
    assert_eq!(s, AdoptionState::RemovingTemporaryAccount { trusted_hash: vec![0xab; 32] });
    let (s, a) = adoption_step(s, AdoptionEvent::TemporaryAccountRemoved);
    assert_eq!(a, AdoptionAction::AdoptHashAndRename { trusted_hash: vec![0xab; 32] });
    assert_eq!(s, AdoptionState::Renaming);
    let (s2, a2) = adoption_step(
        s.clone(),
        AdoptionEvent::Renamed {
            new_username: "alice".to_string(),
            current: "temp".to_string(),
            rename_succeeded: true,
        },
    );
    assert_eq!((s2, a2), (AdoptionState::Done, AdoptionAction::Finish { username: "alice".to_string() }));
    let (_, a3) = adoption_step(
        s.clone(),
        AdoptionEvent::Renamed {
            new_username: "alice".to_string(),
            current: "temp".to_string(),
            rename_succeeded: false,
        },
    );
    assert_eq!(a3, AdoptionAction::RollBack { message: "sync_account_conflict".to_string() });
    let (_, a4) = adoption_step(
        s,
        AdoptionEvent::Renamed {
            new_username: String::new(),
            current: "temp".to_string(),
            rename_succeeded: false,
        },
    );
    assert_eq!(a4, AdoptionAction::Finish { username: "temp".to_string() });
}

#[test]
fn adoption_keeps_account_when_hash_is_same_or_invalid() {
    let own = "cd".repeat(32);
    let keep = |t: String| {
        adoption_step(AdoptionState::Start, AdoptionEvent::Hashes { trusted_hex: t, own_hex: own.clone() })
    };
    assert_eq!(keep(own.clone()), (AdoptionState::Done, AdoptionAction::KeepAccount));
    assert_eq!(keep(String::new()), (AdoptionState::Done, AdoptionAction::KeepAccount));
    assert_eq!(keep("zz".repeat(32)), (AdoptionState::Done, AdoptionAction::KeepAccount));
    assert_eq!(keep("ab".repeat(16)), (AdoptionState::Done, AdoptionAction::KeepAccount));
    assert_eq!(
        adoption_step(AdoptionState::Renaming, AdoptionEvent::TemporaryAccountRemoved),
        (AdoptionState::Renaming, AdoptionAction::Ignore)
    );
    assert_eq!(
        adoption_step(AdoptionState::Done, AdoptionEvent::TemporaryAccountRemoved),
        (AdoptionState::Done, AdoptionAction::Ignore)
    );
}

fn msg(mid: &str) -> PatchMessage {
    PatchMessage {
        mid: mid.to_string(),
        fh: "f1".to_string(),
        out: true,
        mt: "text".to_string(),
        ct: "AQID".to_string(),
        ts: 42,
        ve: false,
    }
}

fn contact(hash: &str, manifest: &str, key: Vec<u8>, blocked: bool) -> ContactRow {
    ContactRow {
        username_hash: hash.to_string(),
        pseudo: format!("p-{hash}"),
        identity_key: key,
        kyber_public_key: Some(vec![1, 2, 3]),
        x25519_public_key: None,
        signature_local: Some(vec![4]),
        signature_remote: None,
        blocked,
        manifest_hash: manifest.to_string(),
    }
}

fn settings() -> Vec<SettingEntry> {
    vec![SettingEntry { key: "theme".to_string(), value: "dark".to_string() }]
}

#[test]
fn sync_patch_none_when_up_to_date() {
    let local = vec![("h1".to_string(), msg("m1")), ("h2".to_string(), msg("m2"))];
    let contacts = vec![contact("c1", "k1", vec![9], false)];
    let r = build_sync_patch(
        &local,
        settings(),
        "S",
        &contacts,
        "own",
        &["h2".to_string(), "h1".to_string()],
        "S",
        &["k1".to_string()],
    );
    assert!(r.is_none());
    let r = build_sync_patch(&[], settings(), "S", &[], "own", &[], "S", &[]);
    assert!(r.is_none());
}

#[test]
fn sync_patch_lists_missing_items() {
    let local = vec![
        ("h1".to_string(), msg("m1")),
        ("h2".to_string(), msg("m2")),
        ("h3".to_string(), msg("m3")),
    ];
    let contacts = vec![
        contact("c1", "k1", vec![9], false),
        contact("c2", "k2", vec![8, 7], false),
        contact("c3", "k3", vec![6], true),
        contact("c4", "k4", vec![], false),
        contact("own", "k5", vec![5], false),
        contact("c6", "k6", vec![0xff], false),
    ];
    let p = build_sync_patch(
        &local,
        settings(),
        "S",
        &contacts,
        "own",
        &["h2".to_string()],
        "S",
        &["k1".to_string()],
    )
    .unwrap();
    assert_eq!(p.messages, vec![msg("m1"), msg("m3")]);
    assert!(p.settings.is_none());
    let hashes: Vec<&str> = p.contacts.iter().map(|c| c.fh.as_str()).collect();
    assert_eq!(hashes, vec!["c2", "c6"]);
    assert_eq!(p.contacts[0].fp, "p-c2");
    assert_eq!(p.contacts[0].ik, "CAc=");
    assert_eq!(p.contacts[0].kk, Some("AQID".to_string()));
    assert_eq!(p.contacts[0].xk, None);
    assert_eq!(p.contacts[0].sl, Some("BA==".to_string()));
    assert_eq!(p.contacts[0].sr, None);
    assert_eq!(p.contacts[1].ik, "/w==");
}

#[test]
fn sync_patch_sends_settings_only_when_hashes_differ() {
    let p = build_sync_patch(&[], settings(), "S1", &[], "own", &[], "S2", &[]).unwrap();
    assert!(p.messages.is_empty());
    assert!(p.contacts.is_empty());
    let s = p.settings.unwrap();
    assert_eq!(s.len(), 1);
    assert_eq!(s[0].key, "theme");
    assert_eq!(s[0].value, "dark");
}

#[test]
fn patch_contact_applied_only_where_keys_are_missing() {
    assert_eq!(patch_contact_action(Some((4, 1312))), PatchContactAction::Keep);
    assert_eq!(patch_contact_action(Some((4, 0))), PatchContactAction::Complete { id: 4 });
    assert_eq!(patch_contact_action(None), PatchContactAction::Insert);
}
