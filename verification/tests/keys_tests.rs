use rand_chacha::rand_core::{RngCore, SeedableRng};
use sha2::{Digest, Sha256};
use sha3::Sha3_256;
use zenth_client::keygen::{
    chunk_from_entropy, chunk_from_words, collect_mouse_bytes, generate_random_string_chunk, Point,
};
use zenth_client::network_key::{
    generate_network_key, network_key_from_words, parse_network_key, validate_network_key,
    NetworkKey, AUTH_PORTION_LENGTH, NETWORK_KEY_LENGTH, ZKP_PORTION_LENGTH,
};

const KEY_CHARS: &str =
    "ABCDEFGHIJKLMNOPQRSTUVWXYZabcdefghijklmnopqrstuvwxyz0123456789!@#$%^&*()-_=+[]{}|;:,.<>?";
const CHUNK_CHARS: &str =
    "abcdefghijklmnopqrstuvwxyzABCDEFGHIJKLMNOPQRSTUVWXYZ0123456789!@#$%^&*()-_=+[]{}|;:,.<>?";

#[test]
fn test_generate_network_key() {
    let key = generate_network_key().expect("Failed to generate key");

    assert_eq!(key.full_key.len(), NETWORK_KEY_LENGTH);
    assert_eq!(key.zkp_portion.len(), ZKP_PORTION_LENGTH);
    assert_eq!(key.auth_portion.len(), AUTH_PORTION_LENGTH);

    let reconstructed = format!("{}{}", key.zkp_portion, key.auth_portion);
    assert_eq!(reconstructed, key.full_key);
}

#[test]
fn test_validate_network_key() {
    let key = generate_network_key().expect("Failed to generate key");
    assert!(validate_network_key(&key.full_key).is_ok());
}

#[test]
fn test_subkey_derivation() {
    let key = generate_network_key().expect("Failed to generate key");

    let subkey1 = key.derive_subkey(0, 32);
    let subkey2 = key.derive_subkey(1, 32);

    assert_ne!(subkey1, subkey2);
    assert_eq!(subkey1.len(), 32);
    assert_eq!(subkey2.len(), 32);

    let subkey1_again = key.derive_subkey(0, 32);
    assert_eq!(subkey1, subkey1_again);
}

#[test]
fn test_parse_network_key() {
    let original = generate_network_key().expect("Failed to generate key");
    let parsed = parse_network_key(&original.full_key).expect("Failed to parse key");

    assert_eq!(original.full_key, parsed.full_key);
    assert_eq!(original.zkp_portion, parsed.zkp_portion);
    assert_eq!(original.auth_portion, parsed.auth_portion);
}

fn words_key() -> NetworkKey {
    let words: Vec<u32> = (0..NETWORK_KEY_LENGTH as u32).map(|i| i.wrapping_mul(2654435761)).collect();
    network_key_from_words(&words)
}

#[test]
fn key_characters_follow_words() {
    let words: Vec<u32> = (0..NETWORK_KEY_LENGTH as u32).collect();
    let key = network_key_from_words(&words);
    let expected: String = words.iter().map(|w| KEY_CHARS.as_bytes()[(w % 88) as usize] as char).collect();
    assert_eq!(key.full_key, expected);
    assert_eq!(key.zkp_portion, expected[..2000]);
    assert_eq!(key.auth_portion, expected[2000..]);
    assert_eq!(validate_network_key(&key.full_key), Ok(()));
}

#[test]
fn validation_errors() {
    assert_eq!(
        validate_network_key("abc"),
        Err("Invalid key length: expected 20000, got 3".to_string())
    );
    let mut bad = words_key().full_key;
    bad.replace_range(5..6, " ");
    assert_eq!(
        validate_network_key(&bad),
        Err("Invalid character at position 5: ' '".to_string())
    );
    let repetitive = "ab".repeat(10000);
    assert_eq!(
        validate_network_key(&repetitive),
        Err("Insufficient entropy: only 2 unique characters".to_string())
    );
    assert!(parse_network_key(&repetitive).is_err());
}

#[test]
fn subkey_is_chained_sha3() {
    let key = words_key();
    let auth = key.auth_portion.as_bytes();
    let mut input = auth.to_vec();
    input.extend_from_slice(&7u32.to_le_bytes());
    let block0 = Sha3_256::digest(&input).to_vec();
    let mut next = block0.clone();
    next.extend_from_slice(&32u32.to_le_bytes());
    let block1 = Sha3_256::digest(&next).to_vec();
    let mut expected = block0.clone();
    expected.extend_from_slice(&block1);
    expected.truncate(40);
    assert_eq!(key.derive_subkey(7, 40), expected);
    assert_eq!(key.derive_subkey(7, 10), block0[..10].to_vec());
    assert_eq!(key.derive_subkey(7, 0), Vec::<u8>::new());
}

#[test]
fn mouse_samples_are_little_endian() {
    let points = vec![Point { x: 1, y: -1, t: 258 }];
    let bytes = collect_mouse_bytes(&points);
    assert_eq!(
        bytes,
        vec![1, 0, 0, 0, 0xff, 0xff, 0xff, 0xff, 2, 1, 0, 0, 0, 0, 0, 0]
    );
}

#[test]
fn chunk_words_pick_characters() {
    assert_eq!(chunk_from_words(&[0, 26, 52, 62, 88, 87]), "aA0!a?");
}

#[test]
fn chunk_is_chacha_of_hashed_entropy() {
    let points = vec![Point { x: 10, y: 20, t: 30 }, Point { x: 40, y: 50, t: 60 }];
    let os = [9u8; 32];
    let browser = Some(vec![1u8, 2, 3]);
    let mut material = collect_mouse_bytes(&points);
    material.extend_from_slice(&os);
    material.extend_from_slice(&[1, 2, 3]);
    let seed: [u8; 32] = Sha256::digest(&material).into();
    let mut rng = rand_chacha::ChaCha20Rng::from_seed(seed);
    let expected: String = (0..24)
        .map(|_| CHUNK_CHARS.as_bytes()[(rng.next_u32() % 88) as usize] as char)
        .collect();
    assert_eq!(chunk_from_entropy(&points, &os, &browser, 24), expected);
}

#[test]
fn chunk_size_zero_is_refused() {
    assert_eq!(
        generate_random_string_chunk(vec![], 0, None),
        Err("chunk_size must be > 0".to_string())
    );
    let chunk = generate_random_string_chunk(vec![], 16, None).unwrap();
    assert_eq!(chunk.len(), 16);
    assert!(chunk.chars().all(|c| CHUNK_CHARS.contains(c)));
}

#[test]
fn every_generated_key_passes_length_and_character_checks() {
    for _ in 0..3 {
        let key = generate_network_key().unwrap();
        assert_eq!(key.full_key.len(), NETWORK_KEY_LENGTH);
        assert!(key.full_key.bytes().all(|b| KEY_CHARS.as_bytes().contains(&b)));
        let parsed = parse_network_key(&key.full_key).unwrap();
        assert_eq!(parsed.zkp_portion, key.zkp_portion);
    }
}

#[test]
fn characters_outside_the_alphabet_are_refused() {
    let mut key = words_key().full_key;
    key.replace_range(0..2, "Ł");
    assert_eq!(key.len(), NETWORK_KEY_LENGTH);
    assert_eq!(
        validate_network_key(&key),
        Err("Invalid character at position 0: 'Ł'".to_string())
    );
    let mut straddling = words_key().full_key;
    straddling.replace_range(1999..2001, "Ł");
    assert!(parse_network_key(&straddling).is_err());
}
