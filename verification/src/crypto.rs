//! Cryptographic primitives used by the client, each a thin call into the
//! crate that implements it. Their contracts are believed, not proved.
use vstd::prelude::*;

use argon2::password_hash::{PasswordHasher as _, PasswordVerifier as _};
use chacha20poly1305::aead::{Aead, KeyInit};
use pqcrypto_traits::sign::{DetachedSignature as _, PublicKey as _, SecretKey as _};
use rand::{Rng, RngCore, SeedableRng};
use base64::Engine as _;
use sha2::Digest;

verus! {

/// Standard base64 (with padding) of a byte string.
pub uninterp spec fn spec_base64(data: Seq<u8>) -> Seq<char>;

/// SHA-256 digest of a byte string.
pub uninterp spec fn spec_sha256(data: Seq<u8>) -> Seq<u8>;

/// SHA3-256 digest of a byte string.
pub uninterp spec fn spec_sha3_256(data: Seq<u8>) -> Seq<u8>;

/// X25519 public key of a secret (the secret is clamped as RFC 7748 says).
pub uninterp spec fn spec_x25519_public(secret: Seq<u8>) -> Seq<u8>;

/// X25519 shared secret of our secret and their public key.
pub uninterp spec fn spec_x25519_shared(secret: Seq<u8>, their_public: Seq<u8>) -> Seq<u8>;

/// Dilithium2 detached signature of a message under a secret key.
pub uninterp spec fn spec_dilithium2_sign(secret_key: Seq<u8>, msg: Seq<u8>) -> Seq<u8>;

/// Dilithium2 verification of a detached signature.
pub uninterp spec fn spec_dilithium2_verify(public_key: Seq<u8>, msg: Seq<u8>, sig: Seq<u8>) -> bool;

/// ChaCha20-Poly1305 sealing of a plaintext (no associated data).
pub uninterp spec fn spec_chacha_seal(key: Seq<u8>, nonce: Seq<u8>, plaintext: Seq<u8>) -> Seq<u8>;

/// ChaCha20-Poly1305 opening of a ciphertext (no associated data).
pub uninterp spec fn spec_chacha_open(key: Seq<u8>, nonce: Seq<u8>, ciphertext: Seq<u8>) -> Option<Seq<u8>>;

/// Argon2id (version 0x13, 32-byte output) of a password and salt, with
/// `m_cost` KiB of memory, `t_cost` passes and `p_cost` lanes.
pub uninterp spec fn spec_argon2id_key(
    password: Seq<u8>,
    salt: Seq<u8>,
    m_cost: u32,
    t_cost: u32,
    p_cost: u32,
) -> Seq<u8>;

/// The PHC string of Argon2 with its default parameters over a PIN, salted
/// with the given bytes.
pub uninterp spec fn spec_pin_hash(pin: Seq<u8>, salt: Seq<u8>) -> Seq<char>;

/// Whether a PIN verifies against a PHC hash string.
pub uninterp spec fn spec_pin_verifies(pin: Seq<u8>, phc: Seq<char>) -> bool;

/// The first `n` 32-bit words of the ChaCha20 generator seeded with `seed`.
pub uninterp spec fn spec_chacha20_words(seed: Seq<u8>, n: nat) -> Seq<u32>;

/// `sha2::Sha256::digest`: the SHA-256 digest of `data`.
#[verifier::external_body]
pub(crate) fn sha256(data: &[u8]) -> (r: [u8; 32])
    ensures
        r@ == spec_sha256(data@),
{
    sha2::Sha256::digest(data).into()
}

/// `base64::engine::general_purpose::STANDARD.encode`: the padded standard
/// base64 text of `data`.
#[verifier::external_body]
pub(crate) fn base64_encode(data: &[u8]) -> (r: String)
    ensures
        r@ == spec_base64(data@),
{
    base64::engine::general_purpose::STANDARD.encode(data)
}

/// `sha3::Sha3_256::digest`: the SHA3-256 digest of `data`.
#[verifier::external_body]
pub(crate) fn sha3_256(data: &[u8]) -> (r: [u8; 32])
    ensures
        r@ == spec_sha3_256(data@),
{
    sha3::Sha3_256::digest(data).into()
}

/// `x25519_dalek::PublicKey::from(&StaticSecret::from(secret))`: the public
/// key that belongs to `secret`.
#[verifier::external_body]
pub(crate) fn x25519_public(secret: &[u8; 32]) -> (r: [u8; 32])
    ensures
        r@ == spec_x25519_public(secret@),
{
    x25519_dalek::PublicKey::from(&x25519_dalek::StaticSecret::from(*secret)).to_bytes()
}

/// `x25519_dalek::StaticSecret::diffie_hellman`: the shared secret of `secret`
/// and `their_public`. X25519 is commutative: when `their_public` is the public
/// key of some secret `b`, the result equals what `b` computes with the public
/// key of `secret`.
#[verifier::external_body]
pub(crate) fn x25519_shared(secret: &[u8; 32], their_public: &[u8; 32]) -> (r: [u8; 32])
    ensures
        r@ == spec_x25519_shared(secret@, their_public@),
        forall|b: Seq<u8>|
            #![trigger spec_x25519_shared(b, spec_x25519_public(secret@))]
            b.len() == 32 && their_public@ == spec_x25519_public(b) ==> r@ == spec_x25519_shared(
                b,
                spec_x25519_public(secret@),
            ),
{
    let s = x25519_dalek::StaticSecret::from(*secret);
    s.diffie_hellman(&x25519_dalek::PublicKey::from(*their_public)).to_bytes()
}

/// `pqcrypto_dilithium::dilithium2::verify_detached_signature`, after the
/// key and the signature are read with `from_bytes` (which accepts a key of
/// exactly 1312 bytes and a signature of at most 2420 bytes).
#[verifier::external_body]
pub(crate) fn dilithium2_verify(public_key: &[u8], msg: &[u8], sig: &[u8]) -> (r: bool)
    requires
        public_key.len() == 1312,
        sig.len() <= 2420,
    ensures
        r == spec_dilithium2_verify(public_key@, msg@, sig@),
{
    let pk = pqcrypto_dilithium::dilithium2::PublicKey::from_bytes(public_key).unwrap();
    let s = pqcrypto_dilithium::dilithium2::DetachedSignature::from_bytes(sig).unwrap();
    pqcrypto_dilithium::dilithium2::verify_detached_signature(&s, msg, &pk).is_ok()
}

/// `pqcrypto_dilithium::dilithium2::detached_sign` with the secret key read
/// by `SecretKey::from_bytes` (which accepts exactly 2560 bytes). The crate's
/// signing is deterministic (its randomness input is fixed to zeros), so the
/// signature is a function of the key and the message, and it is always 2420
/// bytes long (the signing routine sets that length).
#[verifier::external_body]
pub(crate) fn dilithium2_sign(secret_key: &[u8], msg: &[u8]) -> (r: Vec<u8>)
    requires
        secret_key.len() == 2560,
    ensures
        r@ == spec_dilithium2_sign(secret_key@, msg@),
        r@.len() == 2420,
{
    let sk = pqcrypto_dilithium::dilithium2::SecretKey::from_bytes(secret_key).unwrap();
    pqcrypto_dilithium::dilithium2::detached_sign(msg, &sk).as_bytes().to_vec()
}

/// `ChaCha20Poly1305::encrypt` with no associated data. It fails only when the
/// plaintext holds `u32::MAX` blocks of 64 bytes or more. The ciphertext is the
/// plaintext's length plus a 16-byte tag, and opening it with the same key and
/// nonce gives the plaintext back.
#[verifier::external_body]
pub(crate) fn chacha_seal(key: &[u8; 32], nonce: &[u8; 12], plaintext: &[u8]) -> (r: Option<Vec<u8>>)
    ensures
        r is Some <==> plaintext@.len() / 64 < 0xffff_ffff,
        r matches Some(ct) ==> {
            &&& ct@ == spec_chacha_seal(key@, nonce@, plaintext@)
            &&& ct@.len() == plaintext@.len() + 16
            &&& spec_chacha_open(key@, nonce@, ct@) == Some(plaintext@)
        },
{
    let cipher = chacha20poly1305::ChaCha20Poly1305::new(chacha20poly1305::Key::from_slice(key));
    cipher.encrypt(chacha20poly1305::Nonce::from_slice(nonce), plaintext).ok()
}

/// `ChaCha20Poly1305::decrypt` with no associated data: the plaintext, or
/// `None` when the tag does not authenticate the ciphertext.
#[verifier::external_body]
pub(crate) fn chacha_open(key: &[u8; 32], nonce: &[u8; 12], ciphertext: &[u8]) -> (r: Option<Vec<u8>>)
    ensures
        r matches Some(pt) ==> spec_chacha_open(key@, nonce@, ciphertext@) == Some(pt@),
        r is None ==> spec_chacha_open(key@, nonce@, ciphertext@) is None,
{
    let cipher = chacha20poly1305::ChaCha20Poly1305::new(chacha20poly1305::Key::from_slice(key));
    cipher.decrypt(chacha20poly1305::Nonce::from_slice(nonce), ciphertext).ok()
}

/// Why Argon2 refused its inputs.
#[derive(Debug, Clone, Copy, PartialEq, Eq, Structural)]
pub enum Argon2Failure {
    PwdTooLong,
    SaltTooShort,
    SaltTooLong,
}

/// What Argon2 produced: the key, or why it refused its inputs.
#[derive(Debug, Clone, Copy)]
pub enum Argon2Outcome {
    Key([u8; 32]),
    Refused(Argon2Failure),
}

/// `argon2::Params::new` (which accepts these costs: at least 8 KiB and 8 KiB
/// per lane, at least one pass, 1 to 0xFFFFFF lanes) followed by
/// `argon2::Argon2::hash_password_into` with Argon2id v0x13 and a 32-byte
/// output. Its input checks, in order: a password over `u32::MAX` bytes, a
/// salt under 8 bytes, a salt over `u32::MAX` bytes; otherwise the key is
/// produced.
#[verifier::external_body]
pub(crate) fn argon2id_key(password: &[u8], salt: &[u8], m_cost: u32, t_cost: u32, p_cost: u32) -> (r:
    Argon2Outcome)
    requires
        m_cost >= 8,
        m_cost >= 8 * p_cost,
        t_cost >= 1,
        1 <= p_cost <= 0xFF_FFFF,
    ensures
        password@.len() > 0xffff_ffff ==> r == Argon2Outcome::Refused(Argon2Failure::PwdTooLong),
        password@.len() <= 0xffff_ffff && salt@.len() < 8 ==> r == Argon2Outcome::Refused(
            Argon2Failure::SaltTooShort,
        ),
        password@.len() <= 0xffff_ffff && salt@.len() > 0xffff_ffff ==> r == Argon2Outcome::Refused(
            Argon2Failure::SaltTooLong,
        ),
        r matches Argon2Outcome::Key(k) ==> k@ == spec_argon2id_key(
            password@,
            salt@,
            m_cost,
            t_cost,
            p_cost,
        ),
        password@.len() <= 0xffff_ffff && 8 <= salt@.len() <= 0xffff_ffff ==> r is Key,
{
    let mut key = [0u8; 32];
    let params = argon2::Params::new(m_cost, t_cost, p_cost, Some(key.len())).unwrap();
    let argon = argon2::Argon2::new(argon2::Algorithm::Argon2id, argon2::Version::V0x13, params);
    match argon.hash_password_into(password, salt, &mut key) {
        Ok(()) => Argon2Outcome::Key(key),
        Err(argon2::Error::PwdTooLong) => Argon2Outcome::Refused(Argon2Failure::PwdTooLong),
        Err(argon2::Error::SaltTooShort) => Argon2Outcome::Refused(Argon2Failure::SaltTooShort),
        Err(_) => Argon2Outcome::Refused(Argon2Failure::SaltTooLong),
    }
}

/// What hashing a PIN produced: its PHC string, or the text of the error.
#[derive(Debug, Clone)]
pub enum PinHashOutcome {
    Hashed(String),
    Failed(String),
}

/// `SaltString::encode_b64` of the salt, then `PasswordHasher::hash_password`
/// of `Argon2::default()` and `to_string`: the PHC string of the PIN, or the
/// error's text. As the crate's documentation shows, a string made this way,
/// read back with `PasswordHash::new`, verifies the same PIN. With the
/// default parameters and a 16-byte salt the only refusal is a password over
/// `u32::MAX` bytes (`Argon2::verify_inputs`).
#[verifier::external_body]
pub(crate) fn argon2_pin_hash(pin: &[u8], salt: &[u8; 16]) -> (r: PinHashOutcome)
    ensures
        r is Hashed <==> pin@.len() <= 0xffff_ffff,
        r matches PinHashOutcome::Hashed(h) ==> h@ == spec_pin_hash(pin@, salt@)
            && spec_pin_verifies(pin@, h@),
{
    let salt_string = match argon2::password_hash::SaltString::encode_b64(salt) {
        Ok(s) => s,
        Err(e) => return PinHashOutcome::Failed(e.to_string()),
    };
    match argon2::Argon2::default().hash_password(pin, &salt_string) {
        Ok(h) => PinHashOutcome::Hashed(h.to_string()),
        Err(e) => PinHashOutcome::Failed(e.to_string()),
    }
}

/// `PasswordHash::new` of the PHC string, then `PasswordVerifier::verify_password`
/// of `Argon2::default()`: whether the PIN matches (a string that does not
/// parse matches no PIN).
#[verifier::external_body]
pub(crate) fn argon2_pin_verifies(pin: &[u8], phc: &str) -> (r: bool)
    ensures
        r == spec_pin_verifies(pin@, phc@),
{
    match argon2::password_hash::PasswordHash::new(phc) {
        Ok(parsed) => argon2::Argon2::default().verify_password(pin, &parsed).is_ok(),
        Err(_) => false,
    }
}

/// `rand_chacha::ChaCha20Rng::from_seed(seed)` followed by `Rng::fill` of `n`
/// words: the first `n` words of that generator.
#[verifier::external_body]
pub(crate) fn chacha20_words(seed: [u8; 32], n: usize) -> (r: Vec<u32>)
    ensures
        r@ == spec_chacha20_words(seed@, n as nat),
        r@.len() == n,
{
    let mut words = vec![0u32; n];
    rand_chacha::ChaCha20Rng::from_seed(seed).fill(&mut words[..]);
    words
}

/// `rand::rng().fill_bytes`: 32 bytes from the operating system's generator.
#[verifier::external_body]
pub(crate) fn random_bytes_32() -> (r: [u8; 32]) {
    let mut b = [0u8; 32];
    rand::rng().fill_bytes(&mut b);
    b
}

/// `rand::rng().fill_bytes`: 16 bytes from the operating system's generator.
#[verifier::external_body]
pub(crate) fn random_bytes_16() -> (r: [u8; 16]) {
    let mut b = [0u8; 16];
    rand::rng().fill_bytes(&mut b);
    b
}

/// `rand::rng().fill_bytes`: 12 bytes from the operating system's generator.
#[verifier::external_body]
pub(crate) fn random_bytes_12() -> (r: [u8; 12]) {
    let mut b = [0u8; 12];
    rand::rng().fill_bytes(&mut b);
    b
}

/// `rand::rng().next_u32`: a word from the operating system's generator.
#[verifier::external_body]
pub(crate) fn random_u32() -> (r: u32) {
    rand::rng().next_u32()
}

} // verus!
