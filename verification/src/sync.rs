//! Multi-device synchronisation: the pairing exchange (QR codes and DHT
//! blobs), the relay encryption with the shared sync keys, and the manifest
//! comparison that decides what a paired device is missing.
use vstd::prelude::*;

use crate::bytes::{copy_range, extend_bytes, le64, u64_le};
use crate::crypto::{
    base64_encode, chacha_open, chacha_seal, dilithium2_verify, random_bytes_12, sha256,
    spec_base64, spec_chacha_open, spec_chacha_seal, spec_dilithium2_verify, spec_sha256,
};
use crate::text::{hex_decode, hex_decode_spec, hex_encode, hex_spec, push_str, str_eq};

verus! {

/// Length of a Dilithium2 public key.
pub const DILITHIUM2_PUB_LEN: usize = 1312;

/// How long a pairing response stays valid, in seconds.
pub const PAIRING_RESPONSE_VALIDITY_SECS: u64 = 120;

/// Public keys of this device, as shown to a device being paired.
#[derive(Debug, Clone)]
pub struct DeviceSyncKeys {
    pub dilithium_pubkey: String,
    pub kyber_pubkey: String,
}

/// What the trusted device shows after reading the new device's QR code.
#[derive(Debug, Clone)]
pub struct PairingQrResult {
    pub return_qr: String,
    pub dilithium_pubkey_pc: String,
    pub kyber_pubkey_pc: String,
}

/// What the new device learns from the trusted device's return QR code.
#[derive(Debug, Clone)]
pub struct VerifyPairingResult {
    pub pubkey: String,
    pub username_hash_hex: String,
    pub trusted_username: String,
}

/// A blob published on the DHT for a device.
#[derive(Debug, Clone)]
pub struct SyncBlob {
    pub for_device_dilithium_pubkey: Vec<u8>,
    pub ciphertext: Vec<u8>,
    pub signature: Vec<u8>,
    pub ttl_secs: u64,
    pub sender_dilithium_pubkey: Vec<u8>,
    pub auth_signature: Vec<u8>,
    pub timestamp: u64,
}

// ---------------------------------------------------------------------------
// Relay encryption
// ---------------------------------------------------------------------------

/// The ChaCha20 key taken from a stored sync key: its first 32 bytes, or
/// nothing when it is shorter.
pub open spec fn sync_key_prefix(sync_key: Seq<u8>) -> Option<Seq<u8>> {
    if sync_key.len() >= 32 {
        Some(sync_key.take(32))
    } else {
        None
    }
}

/// The key a stored sync key gives, if any.
pub fn sync_key32(sync_key: &[u8]) -> (r: Option<[u8; 32]>)
    ensures
        match r {
            Some(k) => sync_key_prefix(sync_key@) == Some(k@),
            None => sync_key_prefix(sync_key@) is None,
        },
{
    if sync_key.len() < 32 {
        return None;
    }
    let mut k = [0u8; 32];
    let mut i: usize = 0;
    while i < 32
        invariant
            i <= 32 <= sync_key@.len(),
            forall|j: int| 0 <= j < i ==> k@[j] == sync_key@[j],
        decreases 32 - i,
    {
        k[i] = sync_key[i];
        i = i + 1;
    }
    assert(k@ =~= sync_key@.take(32));
    Some(k)
}

/// The message of a failed relay encryption.
pub open spec fn relay_encrypt_error() -> Seq<char> {
    "Chiffrement relay: aead::Error"@
}

/// Encrypts a relay payload with `key` and `nonce`. It fails only on a
/// payload of `u32::MAX` blocks of 64 bytes or more; the ciphertext opens to
/// the payload with the same key and nonce.
pub fn relay_encrypt_with_nonce(key: &[u8; 32], nonce: [u8; 12], plaintext: &[u8]) -> (r: Result<
    (Vec<u8>, [u8; 12]),
    String,
>)
    ensures
        r is Ok <==> plaintext@.len() / 64 < 0xffff_ffff,
        r matches Err(m) ==> m@ == relay_encrypt_error(),
        r matches Ok((ct, n)) ==> {
            &&& n == nonce
            &&& ct@ == spec_chacha_seal(key@, nonce@, plaintext@)
            &&& spec_chacha_open(key@, nonce@, ct@) == Some(plaintext@)
        },
{
    match chacha_seal(key, &nonce, plaintext) {
        Some(ct) => Ok((ct, nonce)),
        None => {
            let mut m = String::new();
            push_str(&mut m, "Chiffrement relay: aead::Error");
            Err(m)
        },
    }
}

/// Encrypts a relay payload with `key` and a fresh random nonce.
pub fn relay_encrypt(key: &[u8; 32], plaintext: &[u8]) -> (r: Result<(Vec<u8>, [u8; 12]), String>)
    ensures
        r is Ok <==> plaintext@.len() / 64 < 0xffff_ffff,
        r matches Err(m) ==> m@ == relay_encrypt_error(),
        r matches Ok((ct, n)) ==> {
            &&& ct@ == spec_chacha_seal(key@, n@, plaintext@)
            &&& spec_chacha_open(key@, n@, ct@) == Some(plaintext@)
        },
{
    let nonce = random_bytes_12();
    relay_encrypt_with_nonce(key, nonce, plaintext)
}

/// The message of a relay nonce of the wrong length.
pub open spec fn relay_nonce_error() -> Seq<char> {
    "Nonce relay invalide"@
}

/// The message of a relay ciphertext that does not authenticate.
pub open spec fn relay_decrypt_error() -> Seq<char> {
    "Déchiffrement relay échoué - message corrompu ou clé incorrecte"@
}

/// Decrypts a relay entry: the nonce must be 12 bytes, and the ciphertext
/// must authenticate under `key`.
pub fn relay_decrypt(key: &[u8; 32], nonce: &[u8], ciphertext: &[u8]) -> (r: Result<Vec<u8>, String>)
    ensures
        nonce@.len() != 12 ==> (r matches Err(m) && m@ == relay_nonce_error()),
        nonce@.len() == 12 ==> match r {
            Ok(pt) => spec_chacha_open(key@, nonce@, ciphertext@) == Some(pt@),
            Err(m) => spec_chacha_open(key@, nonce@, ciphertext@) is None && m@ == relay_decrypt_error(),
        },
{
    if nonce.len() != 12 {
        let mut m = String::new();
        push_str(&mut m, "Nonce relay invalide");
        return Err(m);
    }
    let n = crate::bytes::to_array12(nonce);
    match chacha_open(key, &n, ciphertext) {
        Some(pt) => Ok(pt),
        None => {
            let mut m = String::new();
            push_str(&mut m, "Déchiffrement relay échoué - message corrompu ou clé incorrecte");
            Err(m)
        },
    }
}

/// What the first usable sync key (in order) that opens the entry gives.
pub open spec fn first_opening(keys: Seq<Seq<u8>>, nonce: Seq<u8>, ciphertext: Seq<u8>) -> Option<Seq<u8>>
    decreases keys.len(),
{
    if keys.len() == 0 || nonce.len() != 12 {
        None
    } else {
        let rest = first_opening(keys.drop_first(), nonce, ciphertext);
        match sync_key_prefix(keys[0]) {
            Some(k) => match spec_chacha_open(k, nonce, ciphertext) {
                Some(pt) => Some(pt),
                None => rest,
            },
            None => rest,
        }
    }
}

/// The byte strings of a list of buffers.
pub open spec fn views(v: Seq<Vec<u8>>) -> Seq<Seq<u8>> {
    v.map_values(|b: Vec<u8>| b@)
}

/// Tries each sync key in turn (skipping those shorter than 32 bytes) and
/// returns the first plaintext that authenticates.
pub fn decrypt_with_sync_keys(sync_keys: &[Vec<u8>], nonce: &[u8], ciphertext: &[u8]) -> (r: Option<Vec<u8>>)
    ensures
        match r {
            Some(pt) => first_opening(views(sync_keys@), nonce@, ciphertext@) == Some(pt@),
            None => first_opening(views(sync_keys@), nonce@, ciphertext@) is None,
        },
{
    let ghost all = views(sync_keys@);
    assert(all.skip(0) =~= all);
    let mut i: usize = 0;
    while i < sync_keys.len()
        invariant
            i <= sync_keys@.len(),
            all == views(sync_keys@),
            first_opening(all, nonce@, ciphertext@) == first_opening(all.skip(i as int), nonce@, ciphertext@),
        decreases sync_keys.len() - i,
    {
        let ghost tail = all.skip(i as int);
        assert(tail.len() > 0);
        assert(tail.drop_first() =~= all.skip(i + 1));
        assert(tail[0] == sync_keys@[i as int]@);
        match sync_key32(sync_keys[i].as_slice()) {
            Some(k) => {
                match relay_decrypt(&k, nonce, ciphertext) {
                    Ok(pt) => {
                        return Some(pt);
                    },
                    Err(_) => {},
                }
            },
            None => {},
        }
        i = i + 1;
    }
    assert(all.skip(sync_keys@.len() as int).len() == 0);
    None
}

/// What a relayed payload becomes at a paired device whose first usable sync
/// key is the one it was encrypted with: the payload itself.
pub proof fn lemma_relay_roundtrip(
    keys: Seq<Seq<u8>>,
    key: Seq<u8>,
    nonce: Seq<u8>,
    ciphertext: Seq<u8>,
    payload: Seq<u8>,
)
    requires
        keys.len() > 0,
        sync_key_prefix(keys[0]) == Some(key),
        nonce.len() == 12,
        spec_chacha_open(key, nonce, ciphertext) == Some(payload),
    ensures
        first_opening(keys, nonce, ciphertext) == Some(payload),
{
}

// ---------------------------------------------------------------------------
// Pairing
// ---------------------------------------------------------------------------

/// `data` followed by the little-endian bytes of `ts`: the layout signed to
/// authenticate DHT fetches, deletions and relay requests.
pub fn timestamped(data: &[u8], ts: u64) -> (r: Vec<u8>)
    ensures
        r@ == data@ + le64(ts),
{
    let mut v: Vec<u8> = Vec::new();
    extend_bytes(&mut v, data);
    extend_bytes(&mut v, &u64_le(ts));
    v
}

/// The bytes the owner of a relay mailbox signs to fetch entries after
/// `since_id`, or to acknowledge them up to it: its public key, the id
/// (little-endian two's complement) and the time stamp.
pub fn relay_cursor_message(pubkey: &[u8], since_id: i64, ts: u64) -> (r: Vec<u8>)
    ensures
        r@ == pubkey@ + le64(since_id as u64) + le64(ts),
{
    let mut v: Vec<u8> = Vec::new();
    extend_bytes(&mut v, pubkey);
    extend_bytes(&mut v, &u64_le(since_id as u64));
    extend_bytes(&mut v, &u64_le(ts));
    v
}

/// The DHT key of a pairing response: the pairing id followed by `0xFF`.
pub fn pairing_response_key(pairing_id: &[u8]) -> (r: Vec<u8>)
    ensures
        r@ == pairing_id@.push(0xFFu8),
{
    let mut v: Vec<u8> = Vec::new();
    extend_bytes(&mut v, pairing_id);
    v.push(0xFF);
    v
}

/// The message of a new-device blob too short to hold a Dilithium key.
pub open spec fn corrupted_keys_error() -> Seq<char> {
    "Données DHT corrompues"@
}

/// Splits the new device's published keys: the Dilithium2 public key (1312
/// bytes), then the Kyber public key (the rest).
pub fn split_device_keys(ciphertext: &[u8]) -> (r: Result<(Vec<u8>, Vec<u8>), String>)
    ensures
        r is Ok <==> ciphertext@.len() >= DILITHIUM2_PUB_LEN,
        r matches Err(m) ==> m@ == corrupted_keys_error(),
        r matches Ok((d, k)) ==> d@ == ciphertext@.take(1312) && k@ == ciphertext@.skip(1312),
{
    if ciphertext.len() < DILITHIUM2_PUB_LEN {
        let mut m = String::new();
        push_str(&mut m, "Données DHT corrompues");
        return Err(m);
    }
    let d = copy_range(ciphertext, 0, DILITHIUM2_PUB_LEN);
    let k = copy_range(ciphertext, DILITHIUM2_PUB_LEN, ciphertext.len());
    assert(d@ =~= ciphertext@.take(1312));
    assert(k@ =~= ciphertext@.skip(1312));
    Ok((d, k))
}

/// The commitment a new device shows in its QR code: base64 of
/// SHA-256(Dilithium key || Kyber key).
pub open spec fn key_commitment(dilithium_pub: Seq<u8>, kyber_pub: Seq<u8>) -> Seq<char> {
    spec_base64(spec_sha256(dilithium_pub + kyber_pub))
}

/// Whether the keys found on the DHT are those the QR code committed to.
pub fn key_commitment_matches(dilithium_pub: &[u8], kyber_pub: &[u8], commitment: &str) -> (r: bool)
    ensures
        r == (key_commitment(dilithium_pub@, kyber_pub@) == commitment@),
{
    let mut data: Vec<u8> = Vec::new();
    extend_bytes(&mut data, dilithium_pub);
    extend_bytes(&mut data, kyber_pub);
    let digest = sha256(data.as_slice());
    let text = base64_encode(&digest);
    str_eq(text.as_str(), commitment)
}

/// Checks the protocol version of the new device's QR code.
pub fn check_new_device_qr(version: &str) -> (r: Result<(), String>)
    ensures
        r is Ok <==> version@ == "1"@,
        r matches Err(m) ==> m@ == "Version de protocole non supportée"@,
{
    if str_eq(version, "1") {
        Ok(())
    } else {
        Err("Version de protocole non supportée".to_owned())
    }
}

/// Checks that a QR code is a return code of the trusted device.
pub fn check_return_qr(version: &str, is_return: &str) -> (r: Result<(), String>)
    ensures
        r is Ok <==> (version@ == "1"@ && is_return@ == "1"@),
        r matches Err(m) ==> m@ == "QR invalide - ce n'est pas un QR retour Zenth"@,
{
    if str_eq(version, "1") && str_eq(is_return, "1") {
        Ok(())
    } else {
        Err("QR invalide - ce n'est pas un QR retour Zenth".to_owned())
    }
}

/// The pairing response the trusted device publishes: its Dilithium key,
/// time stamp, expiry, the new device's two keys and its own user hash.
pub open spec fn pairing_response_bytes(
    dil_pub_tel: Seq<u8>,
    timestamp: u64,
    expiry: u64,
    dil_pub_pc: Seq<u8>,
    kyber_pub_pc: Seq<u8>,
    user_hash_tel: Seq<u8>,
) -> Seq<u8> {
    dil_pub_tel + le64(timestamp) + le64(expiry) + dil_pub_pc + kyber_pub_pc + user_hash_tel
}

/// Lays out a pairing response.
pub fn pairing_response_ciphertext(
    dil_pub_tel: &[u8],
    timestamp: u64,
    expiry: u64,
    dil_pub_pc: &[u8],
    kyber_pub_pc: &[u8],
    user_hash_tel: &[u8],
) -> (r: Vec<u8>)
    ensures
        r@ == pairing_response_bytes(
            dil_pub_tel@,
            timestamp,
            expiry,
            dil_pub_pc@,
            kyber_pub_pc@,
            user_hash_tel@,
        ),
{
    let mut v: Vec<u8> = Vec::new();
    extend_bytes(&mut v, dil_pub_tel);
    extend_bytes(&mut v, &u64_le(timestamp));
    extend_bytes(&mut v, &u64_le(expiry));
    extend_bytes(&mut v, dil_pub_pc);
    extend_bytes(&mut v, kyber_pub_pc);
    extend_bytes(&mut v, user_hash_tel);
    v
}

/// The message the trusted device signs for the new device: its two keys and
/// the time stamp.
pub fn pairing_content_message(dil_pub_pc: &[u8], kyber_pub_pc: &[u8], timestamp: u64) -> (r: Vec<u8>)
    ensures
        r@ == dil_pub_pc@ + kyber_pub_pc@ + le64(timestamp),
{
    let mut v: Vec<u8> = Vec::new();
    extend_bytes(&mut v, dil_pub_pc);
    extend_bytes(&mut v, kyber_pub_pc);
    extend_bytes(&mut v, &u64_le(timestamp));
    v
}

/// The fields of a pairing response.
#[derive(Debug, Clone)]
pub struct PairingResponse {
    pub dil_pub_tel: Vec<u8>,
    pub timestamp: u64,
    pub expiry: u64,
    pub dil_pub_pc: Vec<u8>,
    pub kyber_pub_pc: Vec<u8>,
    pub user_hash_tel: Vec<u8>,
}

/// The value of eight little-endian bytes.
pub open spec fn le64_value(s: Seq<u8>) -> int {
    s[0] + 256 * s[1] + 65536 * s[2] + 16777216 * s[3] + 4294967296 * (s[4] + 256 * s[5]
        + 65536 * s[6] + 16777216 * s[7])
}

/// Smallest length of a pairing response.
pub open spec fn pairing_min_len() -> int {
    2640int
}

/// How a pairing response is read: the fixed fields, then the last 32 bytes
/// are the user hash when more than 32 bytes remain; otherwise all that
/// remains is the Kyber key and the user hash is empty.
pub open spec fn pairing_fields(ct: Seq<u8>) -> (Seq<u8>, int, int, Seq<u8>, Seq<u8>, Seq<u8>) {
    let rest = ct.skip(pairing_min_len());
    let (kyber, uh) = if rest.len() > 32 {
        (rest.take(rest.len() - 32), rest.skip(rest.len() - 32))
    } else {
        (rest, Seq::empty())
    };
    (
        ct.take(1312),
        le64_value(ct.subrange(1312, 1320)),
        le64_value(ct.subrange(1320, 1328)),
        ct.subrange(1328, 2640),
        kyber,
        uh,
    )
}

fn u64_from_le(s: &[u8], off: usize) -> (r: u64)
    requires
        off + 8 <= s@.len(),
    ensures
        r == le64_value(s@.subrange(off as int, off + 8)),
{
    let lo: u64 = s[off] as u64 + 256 * (s[off + 1] as u64) + 65536 * (s[off + 2] as u64)
        + 16777216 * (s[off + 3] as u64);
    let hi: u64 = s[off + 4] as u64 + 256 * (s[off + 5] as u64) + 65536 * (s[off + 6] as u64)
        + 16777216 * (s[off + 7] as u64);
    assert(hi < 4294967296);
    assert(4294967296 * hi <= 4294967296 * 4294967295) by (nonlinear_arith)
        requires
            hi < 4294967296,
    ;
    lo + 4294967296 * hi
}

/// The message of a pairing response too short to read.
pub open spec fn corrupted_response_error() -> Seq<char> {
    "Réponse DHT corrompue"@
}

/// Reads a pairing response.
pub fn parse_pairing_response(ct: &[u8]) -> (r: Result<PairingResponse, String>)
    ensures
        r is Ok <==> ct@.len() >= pairing_min_len(),
        r matches Err(m) ==> m@ == corrupted_response_error(),
        r matches Ok(p) ==> pairing_fields(ct@) == (
            p.dil_pub_tel@,
            p.timestamp as int,
            p.expiry as int,
            p.dil_pub_pc@,
            p.kyber_pub_pc@,
            p.user_hash_tel@,
        ),
{
    let min_len = DILITHIUM2_PUB_LEN + 8 + 8 + DILITHIUM2_PUB_LEN;
    if ct.len() < min_len {
        let mut m = String::new();
        push_str(&mut m, "Réponse DHT corrompue");
        return Err(m);
    }
    let dil_pub_tel = copy_range(ct, 0, 1312);
    let timestamp = u64_from_le(ct, 1312);
    let expiry = u64_from_le(ct, 1320);
    let dil_pub_pc = copy_range(ct, 1328, 2640);
    let remaining_len = ct.len() - 2640;
    let (kyber_pub_pc, user_hash_tel) = if remaining_len > 32 {
        let split = ct.len() - 32;
        (copy_range(ct, 2640, split), copy_range(ct, split, ct.len()))
    } else {
        (copy_range(ct, 2640, ct.len()), Vec::new())
    };
    proof {
        let rest = ct@.skip(pairing_min_len());
        assert(dil_pub_tel@ =~= ct@.take(1312));
        if remaining_len > 32 {
            assert(kyber_pub_pc@ =~= rest.take(rest.len() - 32));
            assert(user_hash_tel@ =~= rest.skip(rest.len() - 32));
        } else {
            assert(kyber_pub_pc@ =~= rest);
            assert(user_hash_tel@ =~= Seq::<u8>::empty());
        }
    }
    Ok(PairingResponse { dil_pub_tel, timestamp, expiry, dil_pub_pc, kyber_pub_pc, user_hash_tel })
}

proof fn lemma_le64_value(v: u64)
    ensures
        le64_value(le64(v)) == v,
{
    let lo = (v % 4294967296) as u32;
    let hi = (v / 4294967296) as u32;
    assert(lo % 256 + 256 * ((lo / 256) % 256) + 65536 * ((lo / 65536) % 256) + 16777216 * ((
    lo / 16777216) % 256) == lo) by (nonlinear_arith);
    assert(hi % 256 + 256 * ((hi / 256) % 256) + 65536 * ((hi / 65536) % 256) + 16777216 * ((
    hi / 16777216) % 256) == hi) by (nonlinear_arith);
    assert(lo + 4294967296 * hi == v) by (nonlinear_arith)
        requires
            lo == v % 4294967296,
            hi == v / 4294967296,
    ;
}

/// A pairing response reads back as the fields it was laid out from, when
/// the Dilithium keys have their size, the user hash is 32 bytes and the
/// Kyber key is not empty.
#[verifier::rlimit(60)]
pub proof fn lemma_pairing_roundtrip(
    dil_pub_tel: Seq<u8>,
    timestamp: u64,
    expiry: u64,
    dil_pub_pc: Seq<u8>,
    kyber_pub_pc: Seq<u8>,
    user_hash_tel: Seq<u8>,
)
    requires
        dil_pub_tel.len() == 1312,
        dil_pub_pc.len() == 1312,
        kyber_pub_pc.len() > 0,
        user_hash_tel.len() == 32,
    ensures
        pairing_fields(
            pairing_response_bytes(
                dil_pub_tel,
                timestamp,
                expiry,
                dil_pub_pc,
                kyber_pub_pc,
                user_hash_tel,
            ),
        ) == (dil_pub_tel, timestamp as int, expiry as int, dil_pub_pc, kyber_pub_pc, user_hash_tel),
{
    let a = dil_pub_tel + le64(timestamp);
    let b = a + le64(expiry);
    let c = b + dil_pub_pc;
    let d = c + kyber_pub_pc;
    let ct = d + user_hash_tel;
    assert(ct == pairing_response_bytes(
        dil_pub_tel,
        timestamp,
        expiry,
        dil_pub_pc,
        kyber_pub_pc,
        user_hash_tel,
    ));
    lemma_le64_value(timestamp);
    lemma_le64_value(expiry);
    assert(ct.take(1312) =~= dil_pub_tel) by {
        assert(ct.take(1312) =~= a.take(1312));
    }
    assert(ct.subrange(1312, 1320) =~= le64(timestamp)) by {
        assert(ct.subrange(1312, 1320) =~= a.subrange(1312, 1320));
    }
    assert(ct.subrange(1320, 1328) =~= le64(expiry)) by {
        assert(ct.subrange(1320, 1328) =~= b.subrange(1320, 1328));
    }
    assert(ct.subrange(1328, 2640) =~= dil_pub_pc) by {
        assert(ct.subrange(1328, 2640) =~= c.subrange(1328, 2640));
    }
    let rest = ct.skip(pairing_min_len());
    assert(rest =~= kyber_pub_pc + user_hash_tel);
    assert(rest.take(rest.len() - 32) =~= kyber_pub_pc);
    assert(rest.skip(rest.len() - 32) =~= user_hash_tel);
}

/// Checks that a pairing response has not expired at `now`.
pub fn check_pairing_expiry(expiry: u64, now: u64) -> (r: Result<(), String>)
    ensures
        r is Ok <==> expiry > now,
        r matches Err(m) ==> m@ == "QR expiré (délai de 2 minutes dépassé)"@,
{
    if expiry <= now {
        Err("QR expiré (délai de 2 minutes dépassé)".to_owned())
    } else {
        Ok(())
    }
}

/// The expiry of a pairing response created at `now`.
pub fn pairing_expiry(now: u64) -> (r: u64)
    requires
        now + PAIRING_RESPONSE_VALIDITY_SECS <= u64::MAX,
    ensures
        r == now + PAIRING_RESPONSE_VALIDITY_SECS,
{
    now + PAIRING_RESPONSE_VALIDITY_SECS
}

/// Whether the new device gives up its temporary account for the trusted
/// device's one: the trusted hash is given, differs from ours and is the hex
/// of 32 bytes.
pub open spec fn adopts_trusted_account(trusted_hex: Seq<char>, own_hex: Seq<char>) -> bool {
    &&& trusted_hex.len() > 0
    &&& trusted_hex != own_hex
    &&& hex_decode_spec(vstd::utf8::encode_utf8(trusted_hex)) matches Ok(b) && b.len() == 32
}

/// Decides whether the new device adopts the trusted device's account.
pub fn adopt_trusted_account(trusted_hex: &str, own_hex: &str) -> (r: bool)
    ensures
        r == adopts_trusted_account(trusted_hex@, own_hex@),
{
    if trusted_hex.is_empty() || str_eq(trusted_hex, own_hex) {
        return false;
    }
    match hex_decode(trusted_hex) {
        Ok(b) => b.len() == 32,
        Err(_) => false,
    }
}

/// The user name the local account ends up with: the trusted device's one
/// when it is given and differs, else the current one.
pub fn effective_username(new_username: &str, current: &str) -> (r: Option<String>)
    ensures
        (new_username@.len() > 0 && new_username@ != current@) <==> r is Some,
        r matches Some(n) ==> n@ == new_username@,
{
    if !new_username.is_empty() && !str_eq(new_username, current) {
        Some(new_username.to_owned())
    } else {
        None
    }
}

// ---------------------------------------------------------------------------
// Relay events
// ---------------------------------------------------------------------------

/// Status a relayed chat message is stored with.
pub fn relay_message_status(is_outgoing: bool) -> (r: &'static str)
    ensures
        r@ == (if is_outgoing {
            "sent"@
        } else {
            "delivered"@
        }),
{
    if is_outgoing {
        "sent"
    } else {
        "delivered"
    }
}

/// Largest relay entry id, or 0 when there is none.
pub open spec fn max_id_spec(ids: Seq<i64>) -> i64
    decreases ids.len(),
{
    if ids.len() == 0 {
        0
    } else {
        let m = max_id_spec(ids.drop_last());
        if ids.len() == 1 || ids.last() > m {
            ids.last()
        } else {
            m
        }
    }
}

/// Largest relay entry id (the new relay cursor), or 0 when there is none.
pub fn max_relay_id(ids: &[i64]) -> (r: i64)
    ensures
        r == max_id_spec(ids@),
        ids@.len() > 0 ==> ids@.contains(r),
        forall|i: int| 0 <= i < ids@.len() ==> ids@[i] <= r,
{
    let mut best: i64 = 0;
    let mut i: usize = 0;
    while i < ids.len()
        invariant
            i <= ids@.len(),
            best == max_id_spec(ids@.take(i as int)),
            i > 0 ==> ids@.take(i as int).contains(best),
            forall|j: int| 0 <= j < i ==> ids@[j] <= best,
        decreases ids.len() - i,
    {
        assert(ids@.take(i + 1).drop_last() =~= ids@.take(i as int));
        if i == 0 || ids[i] > best {
            best = ids[i];
            assert(ids@.take(i + 1)[i as int] == best);
        } else {
            assert(ids@.take(i as int).contains(best));
            let ghost w = choose|w: int| 0 <= w < i && ids@.take(i as int)[w] == best;
            assert(ids@.take(i + 1)[w] == best);
        }
        i = i + 1;
    }
    assert(ids@.take(ids@.len() as int) =~= ids@);
    best
}

/// Pseudo given to a contact whose name is not known: the first eight bytes
/// of its hash.
pub open spec fn hash_default_pseudo(fh: Seq<char>) -> Seq<char> {
    if vstd::utf8::encode_utf8(fh).len() < 8 {
        fh
    } else {
        vstd::utf8::decode_utf8(vstd::utf8::encode_utf8(fh).take(8))
    }
}

/// The pseudo a filled-in placeholder gets: the local one when the user
/// chose it (it is neither empty nor the default from the hash), else the
/// relayed one.
pub open spec fn placeholder_pseudo(local: Seq<char>, fh: Seq<char>, relayed: Seq<char>) -> Seq<char> {
    if local.len() == 0 || local == hash_default_pseudo(fh) {
        relayed
    } else {
        local
    }
}

/// What to do with a confirmed contact relayed from another device.
#[derive(Debug, Clone, PartialEq, Eq)]
pub enum RelayFriendAction {
    /// A real contact is already here: keep it, drop the pending request.
    KeepExisting,
    /// A placeholder (no keys) is here: fill it in under this pseudo.
    CompletePlaceholder { pseudo: String },
    /// Nothing is here: add the contact.
    InsertNew,
}

/// The local record of a contact, as far as the merge looks at it.
#[derive(Debug, Clone)]
pub struct LocalContact {
    pub pseudo: String,
    pub has_keys: bool,
}

/// Decides how a relayed contact is merged. A placeholder keeps its local
/// pseudo when the user chose one (it is neither empty nor the default
/// taken from the hash); otherwise the relayed pseudo is used. The hash is
/// hexadecimal text; a hash of 8 bytes or more must have a character
/// boundary after its 8th byte.
pub fn relay_friend_action(existing: &Option<LocalContact>, fh: &str, fp: &str) -> (r: RelayFriendAction)
    requires
        vstd::utf8::encode_utf8(fh@).len() >= 8 ==> vstd::utf8::is_char_boundary(
            vstd::utf8::encode_utf8(fh@),
            8,
        ),
    ensures
        existing is None ==> r is InsertNew,
        existing matches Some(e) && e.has_keys ==> r is KeepExisting,
        existing matches Some(e) && !e.has_keys ==> (r matches RelayFriendAction::CompletePlaceholder { pseudo }
            && pseudo@ == placeholder_pseudo(existing->0.pseudo@, fh@, fp@)),
{
    match existing {
        None => RelayFriendAction::InsertNew,
        Some(e) => {
            if e.has_keys {
                return RelayFriendAction::KeepExisting;
            }
            proof {
                vstd::utf8::encode_utf8_valid_utf8(fh@);
                vstd::utf8::encode_utf8_decode_utf8(fh@);
            }
            let default: &str = if fh.as_bytes().len() < 8 {
                fh
            } else {
                let (p, _) = fh.split_at(8);
                proof {
                    let bytes = vstd::utf8::encode_utf8(fh@);
                    vstd::utf8::encode_utf8_decode_utf8(p@);
                    vstd::utf8::decode_utf8_split(bytes, 8);
                    assert(bytes.subrange(0, 8) =~= bytes.take(8));
                }
                p
            };
            assert(default@ == hash_default_pseudo(fh@));
            let pseudo = if e.pseudo.as_str().is_empty() || str_eq(e.pseudo.as_str(), default) {
                fp.to_owned()
            } else {
                e.pseudo.as_str().to_owned()
            };
            RelayFriendAction::CompletePlaceholder { pseudo }
        },
    }
}

/// How long a relayed friend request stays pending: seven days.
pub const PENDING_REQUEST_TTL_SECS: i64 = 604800;

/// Expiry of a pending friend request created at `now`.
pub fn pending_request_expiry(now: i64) -> (r: i64)
    requires
        now + PENDING_REQUEST_TTL_SECS <= i64::MAX,
    ensures
        r == now + PENDING_REQUEST_TTL_SECS,
{
    now + PENDING_REQUEST_TTL_SECS
}

// ---------------------------------------------------------------------------
// Manifest comparison
// ---------------------------------------------------------------------------

/// The strings of a list, as character sequences.
pub open spec fn texts(v: Seq<String>) -> Seq<Seq<char>> {
    v.map_values(|s: String| s@)
}

/// Positions of the local entries whose hash the remote manifest lacks, in
/// local order.
pub open spec fn missing_positions(local: Seq<Seq<char>>, remote: Seq<Seq<char>>) -> Seq<int>
    decreases local.len(),
{
    if local.len() == 0 {
        Seq::empty()
    } else {
        let prev = missing_positions(local.drop_last(), remote);
        if remote.contains(local.last()) {
            prev
        } else {
            prev.push(local.len() - 1)
        }
    }
}

fn contains_text(v: &[String], s: &String) -> (r: bool)
    ensures
        r == texts(v@).contains(s@),
{
    let mut i: usize = 0;
    while i < v.len()
        invariant
            i <= v@.len(),
            forall|j: int| 0 <= j < i ==> v@[j]@ != s@,
        decreases v.len() - i,
    {
        if v[i] == *s {
            assert(texts(v@)[i as int] == s@);
            return true;
        }
        i = i + 1;
    }
    assert forall|j: int| 0 <= j < texts(v@).len() implies texts(v@)[j] != s@ by {
        assert(texts(v@)[j] == v@[j]@);
    }
    false
}

/// Positions of the local entries (by hash) that the remote device lacks.
pub fn missing_by_hash(local: &[String], remote: &[String]) -> (r: Vec<usize>)
    ensures
        r@.len() == missing_positions(texts(local@), texts(remote@)).len(),
        forall|k: int|
            0 <= k < r@.len() ==> r@[k] as int == missing_positions(texts(local@), texts(remote@))[k],
{
    let ghost l = texts(local@);
    let ghost rm = texts(remote@);
    let mut out: Vec<usize> = Vec::new();
    let mut i: usize = 0;
    while i < local.len()
        invariant
            i <= local@.len(),
            l == texts(local@),
            rm == texts(remote@),
            out@.len() == missing_positions(l.take(i as int), rm).len(),
            forall|k: int|
                0 <= k < out@.len() ==> out@[k] as int == missing_positions(l.take(i as int), rm)[k],
        decreases local.len() - i,
    {
        let ghost before = missing_positions(l.take(i as int), rm);
        assert(l.take(i + 1).drop_last() =~= l.take(i as int));
        assert(l.take(i + 1).last() == local@[i as int]@);
        if !contains_text(remote, &local[i]) {
            out.push(i);
        }
        i = i + 1;
    }
    assert(l.take(local@.len() as int) =~= l);
    out
}

/// Nothing is missing when every local hash is in the remote manifest.
pub proof fn lemma_nothing_missing_when_covered(local: Seq<Seq<char>>, remote: Seq<Seq<char>>)
    requires
        forall|i: int| 0 <= i < local.len() ==> remote.contains(#[trigger] local[i]),
    ensures
        missing_positions(local, remote).len() == 0,
    decreases local.len(),
{
    if local.len() > 0 {
        let p = local.drop_last();
        assert forall|i: int| 0 <= i < p.len() implies remote.contains(#[trigger] p[i]) by {
            assert(p[i] == local[i]);
        }
        lemma_nothing_missing_when_covered(p, remote);
        assert(remote.contains(local[local.len() - 1]));
    }
}

/// A key and its value, as stored in the settings table.
#[derive(Debug, Clone)]
pub struct SettingEntry {
    pub key: String,
    pub value: String,
}

/// The settings text hashed into a manifest: `key=value` pairs joined by `|`.
pub open spec fn settings_text(entries: Seq<(Seq<char>, Seq<char>)>) -> Seq<char>
    decreases entries.len(),
{
    if entries.len() == 0 {
        Seq::empty()
    } else if entries.len() == 1 {
        entries[0].0 + "="@ + entries[0].1
    } else {
        settings_text(entries.drop_last()) + "|"@ + entries.last().0 + "="@ + entries.last().1
    }
}

/// The key and value of each entry, as character sequences.
pub open spec fn entry_texts(v: Seq<SettingEntry>) -> Seq<(Seq<char>, Seq<char>)> {
    v.map_values(|e: SettingEntry| (e.key@, e.value@))
}

/// Builds the settings text of a manifest.
pub fn settings_manifest_text(entries: &[SettingEntry]) -> (r: String)
    ensures
        r@ == settings_text(entry_texts(entries@)),
{
    let ghost all = entry_texts(entries@);
    let mut s = String::new();
    let mut i: usize = 0;
    while i < entries.len()
        invariant
            i <= entries@.len(),
            all == entry_texts(entries@),
            s@ == settings_text(all.take(i as int)),
        decreases entries.len() - i,
    {
        let ghost before = s@;
        assert(all.take(i + 1).drop_last() =~= all.take(i as int));
        assert(all.take(i + 1).last() == (entries@[i as int].key@, entries@[i as int].value@));
        if i > 0 {
            push_str(&mut s, "|");
        }
        push_str(&mut s, entries[i].key.as_str());
        push_str(&mut s, "=");
        push_str(&mut s, entries[i].value.as_str());
        proof {
            if i == 0 {
                assert(before.len() == 0);
                assert(s@ =~= settings_text(all.take(i + 1)));
            } else {
                assert(s@ =~= settings_text(all.take(i + 1)));
            }
        }
        i = i + 1;
    }
    assert(all.take(entries@.len() as int) =~= all);
    s
}

/// Whether a patch is sent: something is missing or the settings differ.
pub fn patch_is_needed(missing_messages: usize, settings_differ: bool, missing_contacts: usize) -> (r: bool)
    ensures
        r == (missing_messages > 0 || settings_differ || missing_contacts > 0),
{
    missing_messages > 0 || settings_differ || missing_contacts > 0
}

/// Seconds since the Unix epoch by the system clock (0 before the epoch).
pub fn now_secs() -> u64 {
    crate::clock::current_timestamp()
}

/// Signs `data` with a Dilithium2 secret key: the 2420-byte detached
/// signature; a key of the wrong size gives an empty signature.
pub fn dilithium_sign(secret: &[u8], data: &[u8]) -> (r: Vec<u8>)
    ensures
        secret@.len() != 2560 ==> r@.len() == 0,
        secret@.len() == 2560 ==> r@ == crate::crypto::spec_dilithium2_sign(secret@, data@)
            && r@.len() == 2420,
{
    if secret.len() != 2560 {
        return Vec::new();
    }
    crate::crypto::dilithium2_sign(secret, data)
}

/// The message when the trusted device's account name cannot be taken.
pub open spec fn account_conflict_message() -> Seq<char> {
    "sync_account_conflict"@
}

/// The account name a new device keeps after adopting the trusted device's
/// account: the trusted name when it differs and the local rename succeeded,
/// the current name when no rename is needed; a failed rename is refused
/// (and the caller restores the former hash and drops the pairing).
pub fn adopted_username(new_username: &str, current: &str, rename_succeeded: bool) -> (r: Result<
    String,
    String,
>)
    ensures
        !(new_username@.len() > 0 && new_username@ != current@) ==> (r matches Ok(n) && n@
            == current@),
        new_username@.len() > 0 && new_username@ != current@ && rename_succeeded ==> (r matches Ok(
            n,
        ) && n@ == new_username@),
        new_username@.len() > 0 && new_username@ != current@ && !rename_succeeded ==> (r matches Err(
            m,
        ) && m@ == account_conflict_message()),
{
    match effective_username(new_username, current) {
        None => Ok(current.to_owned()),
        Some(n) => {
            if rename_succeeded {
                Ok(n)
            } else {
                Err("sync_account_conflict".to_owned())
            }
        },
    }
}

// ---------------------------------------------------------------------------
// Pulling the relay mailbox
// ---------------------------------------------------------------------------

/// Where a pull of the relay mailbox stands.
#[derive(Debug, Clone, Copy, PartialEq, Eq, Structural)]
pub enum RelayPullState {
    /// Nothing done yet; `cursor` is the last entry already handled.
    Start { cursor: i64 },
    /// The entries after `cursor` were asked for.
    AwaitingEntries { cursor: i64 },
    /// Entry `next` of `count` is being handled; `max_id` is the largest id
    /// fetched and `inserted` counts the entries saved so far.
    Processing { max_id: i64, count: usize, next: usize, inserted: u32 },
    /// Every fetched entry was handled; the mailbox is being acknowledged up
    /// to `max_id`.
    Acknowledging { max_id: i64, inserted: u32 },
    /// The pull is over, with `inserted` entries saved.
    Finished { inserted: u32 },
}

/// What happened outside the library.
#[derive(Debug, Clone)]
pub enum RelayPullEvent {
    /// The paired devices were read: how many there are.
    PairedDevices { count: usize },
    /// The relay answered with the ids of its entries after the cursor.
    EntriesFetched { ids: Vec<i64> },
    /// The current entry was handled: decrypted, read and saved, or not.
    EntryHandled { saved: bool },
    /// The acknowledgement was sent and the cursor stored.
    Acknowledged,
}

/// What the caller does next.
#[derive(Debug, Clone, Copy, PartialEq, Eq, Structural)]
pub enum RelayAction {
    /// Fetch the entries after `since_id`.
    Fetch { since_id: i64 },
    /// Handle the fetched entry at `index`.
    HandleEntry { index: usize },
    /// Acknowledge the mailbox up to `max_id` and store it as the cursor.
    Acknowledge { max_id: i64 },
    /// Stop and report `inserted` saved entries.
    Stop { inserted: u32 },
    /// The event does not fit the state: nothing to do.
    Ignore,
}

/// One step of a relay pull. Without paired devices or new entries the pull
/// stops at once with nothing saved; otherwise each fetched entry is handled
/// in turn and counted when it was saved, and then the mailbox is
/// acknowledged up to the largest fetched id, whether or not its entries
/// could be read, so that the cursor moves past all of them.
pub open spec fn relay_step_spec(state: RelayPullState, event: RelayPullEvent) -> (RelayPullState, RelayAction) {
    match state {
        RelayPullState::Start { cursor } => match event {
            RelayPullEvent::PairedDevices { count } => if count == 0 {
                (RelayPullState::Finished { inserted: 0 }, RelayAction::Stop { inserted: 0 })
            } else {
                (RelayPullState::AwaitingEntries { cursor }, RelayAction::Fetch { since_id: cursor })
            },
            _ => (state, RelayAction::Ignore),
        },
        RelayPullState::AwaitingEntries { cursor } => match event {
            RelayPullEvent::EntriesFetched { ids } => if ids@.len() == 0 {
                (RelayPullState::Finished { inserted: 0 }, RelayAction::Stop { inserted: 0 })
            } else {
                (
                    RelayPullState::Processing {
                        max_id: max_id_spec(ids@),
                        count: ids@.len() as usize,
                        next: 0,
                        inserted: 0,
                    },
                    RelayAction::HandleEntry { index: 0 },
                )
            },
            _ => (state, RelayAction::Ignore),
        },
        RelayPullState::Processing { max_id, count, next, inserted } => match event {
            RelayPullEvent::EntryHandled { saved } => {
                let ins: u32 = if saved && inserted < u32::MAX {
                    (inserted + 1) as u32
                } else {
                    inserted
                };
                if next + 1 < count {
                    (
                        RelayPullState::Processing { max_id, count, next: (next + 1) as usize, inserted: ins },
                        RelayAction::HandleEntry { index: (next + 1) as usize },
                    )
                } else {
                    (RelayPullState::Acknowledging { max_id, inserted: ins }, RelayAction::Acknowledge { max_id })
                }
            },
            _ => (state, RelayAction::Ignore),
        },
        RelayPullState::Acknowledging { max_id, inserted } => match event {
            RelayPullEvent::Acknowledged => (
                RelayPullState::Finished { inserted },
                RelayAction::Stop { inserted },
            ),
            _ => (state, RelayAction::Ignore),
        },
        RelayPullState::Finished { .. } => (state, RelayAction::Ignore),
    }
}

/// One step of a relay pull (see `relay_step_spec`).
pub fn relay_step(state: RelayPullState, event: RelayPullEvent) -> (r: (RelayPullState, RelayAction))
    ensures
        r == relay_step_spec(state, event),
{
    match state {
        RelayPullState::Start { cursor } => match event {
            RelayPullEvent::PairedDevices { count } => if count == 0 {
                (RelayPullState::Finished { inserted: 0 }, RelayAction::Stop { inserted: 0 })
            } else {
                (RelayPullState::AwaitingEntries { cursor }, RelayAction::Fetch { since_id: cursor })
            },
            _ => (state, RelayAction::Ignore),
        },
        RelayPullState::AwaitingEntries { cursor } => match event {
            RelayPullEvent::EntriesFetched { ids } => if ids.len() == 0 {
                (RelayPullState::Finished { inserted: 0 }, RelayAction::Stop { inserted: 0 })
            } else {
                let max_id = max_relay_id(ids.as_slice());
                (
                    RelayPullState::Processing { max_id, count: ids.len(), next: 0, inserted: 0 },
                    RelayAction::HandleEntry { index: 0 },
                )
            },
            _ => (state, RelayAction::Ignore),
        },
        RelayPullState::Processing { max_id, count, next, inserted } => match event {
            RelayPullEvent::EntryHandled { saved } => {
                let ins: u32 = if saved && inserted < u32::MAX {
                    inserted + 1
                } else {
                    inserted
                };
                if count > 0 && next < count - 1 {
                    (
                        RelayPullState::Processing { max_id, count, next: next + 1, inserted: ins },
                        RelayAction::HandleEntry { index: next + 1 },
                    )
                } else {
                    (RelayPullState::Acknowledging { max_id, inserted: ins }, RelayAction::Acknowledge { max_id })
                }
            },
            _ => (state, RelayAction::Ignore),
        },
        RelayPullState::Acknowledging { max_id, inserted } => match event {
            RelayPullEvent::Acknowledged => (
                RelayPullState::Finished { inserted },
                RelayAction::Stop { inserted },
            ),
            _ => (state, RelayAction::Ignore),
        },
        RelayPullState::Finished { inserted } => (RelayPullState::Finished { inserted }, RelayAction::Ignore),
    }
}

/// A pull never saves more entries than it handled: the count of a pull in
/// progress stays at most the number of entries handled, and the count it
/// stops with is the number of handled entries that were saved.
pub proof fn lemma_relay_count_bounded(state: RelayPullState, event: RelayPullEvent)
    requires
        state matches RelayPullState::Processing { next, inserted, .. } && inserted <= next,
    ensures
        relay_step_spec(state, event).0 matches RelayPullState::Processing { next, inserted, .. }
            ==> inserted <= next,
        relay_step_spec(state, event).0 matches RelayPullState::Acknowledging { inserted, .. } ==> (
        state matches RelayPullState::Processing { next, count, .. } && inserted <= next + 1),
{
}

// ---------------------------------------------------------------------------
// Checking what the trusted device published
// ---------------------------------------------------------------------------

/// The first failed check of a pairing response, in the order the new device
/// makes them: the return QR code, the response's length, its expiry, the
/// signature's size, and the trusted device's Dilithium2 signature over the
/// new device's two keys and the time stamp.
pub open spec fn pairing_verification_error(
    qr_version: Seq<char>,
    qr_return: Seq<char>,
    response: Seq<u8>,
    signature: Seq<u8>,
    now: u64,
) -> Option<Seq<char>> {
    if !(qr_version == "1"@ && qr_return == "1"@) {
        Some("QR invalide - ce n'est pas un QR retour Zenth"@)
    } else if response.len() < pairing_min_len() {
        Some(corrupted_response_error())
    } else {
        let f = pairing_fields(response);
        if f.2 <= now {
            Some("QR expiré (délai de 2 minutes dépassé)"@)
        } else if signature.len() > 2420 {
            Some("Format de signature invalide"@)
        } else if !spec_dilithium2_verify(f.0, f.3 + f.4 + le64(f.1 as u64), signature) {
            Some("Échec de la vérification - appairage refusé"@)
        } else {
            None
        }
    }
}

/// Checks the trusted device's pairing response against its return QR code:
/// on success, the trusted device's key (base64), its user hash (hex) and the
/// account name the QR code carried.
pub fn verify_pairing_response(
    qr_version: &str,
    qr_return: &str,
    qr_username: Option<String>,
    response: &[u8],
    signature: &[u8],
    now: u64,
) -> (r: Result<VerifyPairingResult, String>)
    ensures
        r is Ok <==> pairing_verification_error(qr_version@, qr_return@, response@, signature@, now)
            is None,
        r matches Err(m) ==> pairing_verification_error(
            qr_version@,
            qr_return@,
            response@,
            signature@,
            now,
        ) == Some(m@),
        r matches Ok(v) ==> {
            &&& v.pubkey@ == spec_base64(response@.take(1312))
            &&& v.username_hash_hex@ == hex_spec(pairing_fields(response@).5)
            &&& v.trusted_username@ == match qr_username {
                Some(u) => u@,
                None => Seq::<char>::empty(),
            }
        },
{
    check_return_qr(qr_version, qr_return)?;
    let p = parse_pairing_response(response)?;
    check_pairing_expiry(p.expiry, now)?;
    if signature.len() > 2420 {
        return Err("Format de signature invalide".to_owned());
    }
    let msg = pairing_content_message(p.dil_pub_pc.as_slice(), p.kyber_pub_pc.as_slice(), p.timestamp);
    if !dilithium2_verify(p.dil_pub_tel.as_slice(), msg.as_slice(), signature) {
        return Err("Échec de la vérification - appairage refusé".to_owned());
    }
    let trusted_username = match qr_username {
        Some(u) => u,
        None => String::new(),
    };
    Ok(VerifyPairingResult {
        pubkey: base64_encode(p.dil_pub_tel.as_slice()),
        username_hash_hex: hex_encode(p.user_hash_tel.as_slice()),
        trusted_username,
    })
}

/// The first failed check of a sync-key blob: the trusted device's key must
/// be a Dilithium2 public key (1312 bytes), the signature at most 2420 bytes,
/// and the signature must verify over the blob's ciphertext.
pub open spec fn sync_key_blob_error(trusted_pubkey: Seq<u8>, ciphertext: Seq<u8>, signature: Seq<u8>) -> Option<
    Seq<char>,
> {
    if trusted_pubkey.len() != 1312 {
        Some("Clé publique Dilithium invalide"@)
    } else if signature.len() > 2420 {
        Some("Signature blob invalide"@)
    } else if !spec_dilithium2_verify(trusted_pubkey, ciphertext, signature) {
        Some("Signature blob invalide - blob rejeté"@)
    } else {
        None
    }
}

/// Checks the trusted device's signature on the sync-key blob before the key
/// is taken.
pub fn verify_sync_key_blob(trusted_pubkey: &[u8], ciphertext: &[u8], signature: &[u8]) -> (r: Result<
    (),
    String,
>)
    ensures
        r is Ok <==> sync_key_blob_error(trusted_pubkey@, ciphertext@, signature@) is None,
        r matches Err(m) ==> sync_key_blob_error(trusted_pubkey@, ciphertext@, signature@) == Some(
            m@,
        ),
{
    if trusted_pubkey.len() != 1312 {
        return Err("Clé publique Dilithium invalide".to_owned());
    }
    if signature.len() > 2420 {
        return Err("Signature blob invalide".to_owned());
    }
    if !dilithium2_verify(trusted_pubkey, ciphertext, signature) {
        return Err("Signature blob invalide - blob rejeté".to_owned());
    }
    Ok(())
}

/// Where the adoption of the trusted device's account stands.
#[derive(Debug, Clone, PartialEq, Eq)]
pub enum AdoptionState {
    /// The sync key was stored; nothing about the account was decided yet.
    Start,
    /// The temporary account is being removed from the DHT; `trusted_hash`
    /// is the account to adopt.
    RemovingTemporaryAccount { trusted_hash: Vec<u8> },
    /// The local account is being moved to the trusted hash and name.
    Renaming,
    /// The adoption is over.
    Done,
}

/// What happened outside the library.
#[derive(Debug, Clone)]
pub enum AdoptionEvent {
    /// The hashes are known: the trusted device's (hex) and this device's.
    Hashes { trusted_hex: String, own_hex: String },
    /// The request to remove the temporary account was made (whatever its
    /// answer).
    TemporaryAccountRemoved,
    /// The hash was updated and the rename was tried: the names involved and
    /// whether the rename succeeded.
    Renamed { new_username: String, current: String, rename_succeeded: bool },
}

/// What the caller does next.
#[derive(Debug, Clone, PartialEq, Eq)]
pub enum AdoptionAction {
    /// Sign and send the removal of this device's temporary account.
    RemoveTemporaryAccount,
    /// Store the trusted hash locally and rename the account.
    AdoptHashAndRename { trusted_hash: Vec<u8> },
    /// Put the former hash back and drop the pairing, then fail with the
    /// message.
    RollBack { message: String },
    /// Finish with this account name.
    Finish { username: String },
    /// Keep the current account as it is.
    KeepAccount,
    /// The event does not fit the state.
    Ignore,
}

/// The bytes of a trusted hash given in hex (empty when it does not decode).
pub open spec fn trusted_hash_bytes(trusted_hex: Seq<char>) -> Seq<u8> {
    match hex_decode_spec(vstd::utf8::encode_utf8(trusted_hex)) {
        Ok(b) => b,
        Err(_) => Seq::empty(),
    }
}

/// One step of adopting the trusted device's account. A different, valid
/// 32-byte trusted hash leads to removing the temporary account, then to
/// adopting that hash and renaming; otherwise the account stays as it is. A
/// failed rename rolls back (see `adopted_username`).
pub fn adoption_step(state: AdoptionState, event: AdoptionEvent) -> (r: (AdoptionState, AdoptionAction))
    ensures
        match (state, event) {
            (AdoptionState::Start, AdoptionEvent::Hashes { trusted_hex, own_hex }) => if adopts_trusted_account(trusted_hex@, own_hex@) {
                (r.0 matches AdoptionState::RemovingTemporaryAccount { trusted_hash } && trusted_hash@
                    == trusted_hash_bytes(trusted_hex@)) && r.1 == AdoptionAction::RemoveTemporaryAccount
            } else {
                r == (AdoptionState::Done, AdoptionAction::KeepAccount)
            },
            (
                AdoptionState::RemovingTemporaryAccount { trusted_hash },
                AdoptionEvent::TemporaryAccountRemoved,
            ) => r == (AdoptionState::Renaming, AdoptionAction::AdoptHashAndRename { trusted_hash }),
            (AdoptionState::Renaming, AdoptionEvent::Renamed { new_username, current, rename_succeeded }) => {
                &&& r.0 == AdoptionState::Done
                &&& (!(new_username@.len() > 0 && new_username@ != current@) ==> (r.1
                    matches AdoptionAction::Finish { username } && username@ == current@))
                &&& (new_username@.len() > 0 && new_username@ != current@ && rename_succeeded
                    ==> (r.1 matches AdoptionAction::Finish { username } && username@
                    == new_username@))
                &&& (new_username@.len() > 0 && new_username@ != current@ && !rename_succeeded
                    ==> (r.1 matches AdoptionAction::RollBack { message } && message@
                    == account_conflict_message()))
            },
            _ => r == (state, AdoptionAction::Ignore),
        },
{
    match state {
        AdoptionState::Start => match event {
            AdoptionEvent::Hashes { trusted_hex, own_hex } => {
                if adopt_trusted_account(trusted_hex.as_str(), own_hex.as_str()) {
                    match hex_decode(trusted_hex.as_str()) {
                        Ok(trusted_hash) => (
                            AdoptionState::RemovingTemporaryAccount { trusted_hash },
                            AdoptionAction::RemoveTemporaryAccount,
                        ),
                        Err(_) => (AdoptionState::Done, AdoptionAction::KeepAccount),
                    }
                } else {
                    (AdoptionState::Done, AdoptionAction::KeepAccount)
                }
            },
            _ => (AdoptionState::Start, AdoptionAction::Ignore),
        },
        AdoptionState::RemovingTemporaryAccount { trusted_hash } => match event {
            AdoptionEvent::TemporaryAccountRemoved => (
                AdoptionState::Renaming,
                AdoptionAction::AdoptHashAndRename { trusted_hash },
            ),
            _ => (AdoptionState::RemovingTemporaryAccount { trusted_hash }, AdoptionAction::Ignore),
        },
        AdoptionState::Renaming => match event {
            AdoptionEvent::Renamed { new_username, current, rename_succeeded } => {
                match adopted_username(new_username.as_str(), current.as_str(), rename_succeeded) {
                    Ok(username) => (AdoptionState::Done, AdoptionAction::Finish { username }),
                    Err(message) => (AdoptionState::Done, AdoptionAction::RollBack { message }),
                }
            },
            _ => (AdoptionState::Renaming, AdoptionAction::Ignore),
        },
        AdoptionState::Done => (AdoptionState::Done, AdoptionAction::Ignore),
    }
}

// ---------------------------------------------------------------------------
// The sync patch
// ---------------------------------------------------------------------------

/// A message as a sync patch carries it.
#[derive(Debug, Clone, PartialEq, Eq)]
pub struct PatchMessage {
    /// Message id (hex).
    pub mid: String,
    /// The contact's user hash.
    pub fh: String,
    pub out: bool,
    /// Message type.
    pub mt: String,
    /// The inner message bytes in base64 (still under the vault key when
    /// `ve`).
    pub ct: String,
    pub ts: i64,
    pub ve: bool,
}

/// A contact as a sync patch carries it; the keys and signatures in base64.
#[derive(Debug, Clone, PartialEq, Eq)]
pub struct PatchContact {
    pub fh: String,
    pub fp: String,
    pub ik: String,
    pub kk: Option<String>,
    pub xk: Option<String>,
    pub sl: Option<String>,
    pub sr: Option<String>,
}

/// A stored contact, with the manifest hash of its user hash.
#[derive(Debug, Clone)]
pub struct ContactRow {
    pub username_hash: String,
    pub pseudo: String,
    pub identity_key: Vec<u8>,
    pub kyber_public_key: Option<Vec<u8>>,
    pub x25519_public_key: Option<Vec<u8>>,
    pub signature_local: Option<Vec<u8>>,
    pub signature_remote: Option<Vec<u8>>,
    pub blocked: bool,
    pub manifest_hash: String,
}

/// What a paired device lacks: messages, the settings (when they differ)
/// and contacts.
#[derive(Debug, Clone)]
pub struct SyncPatch {
    pub messages: Vec<PatchMessage>,
    pub settings: Option<Vec<SettingEntry>>,
    pub contacts: Vec<PatchContact>,
}

/// The local messages whose hash the remote manifest lacks, in local order.
pub open spec fn missing_messages(local: Seq<(String, PatchMessage)>, remote: Seq<Seq<char>>) -> Seq<
    PatchMessage,
>
    decreases local.len(),
{
    if local.len() == 0 {
        Seq::empty()
    } else {
        let prev = missing_messages(local.drop_last(), remote);
        if remote.contains(local.last().0@) {
            prev
        } else {
            prev.push(local.last().1)
        }
    }
}

/// Whether a contact is synchronised: not blocked, with keys, and not the
/// user's own space.
pub open spec fn contact_shared(c: ContactRow, own_hash: Seq<char>) -> bool {
    !c.blocked && c.identity_key@.len() > 0 && c.username_hash@ != own_hash
}

/// The synchronised contacts whose hash the remote manifest lacks, in local
/// order.
pub open spec fn missing_contacts(rows: Seq<ContactRow>, own_hash: Seq<char>, remote: Seq<Seq<char>>) -> Seq<
    ContactRow,
>
    decreases rows.len(),
{
    if rows.len() == 0 {
        Seq::empty()
    } else {
        let prev = missing_contacts(rows.drop_last(), own_hash, remote);
        let c = rows.last();
        if contact_shared(c, own_hash) && !remote.contains(c.manifest_hash@) {
            prev.push(c)
        } else {
            prev
        }
    }
}

/// The base64 form of optional bytes.
pub open spec fn opt_base64(b: Option<Vec<u8>>) -> Option<Seq<char>> {
    match b {
        Some(v) => Some(spec_base64(v@)),
        None => None,
    }
}

/// The text of an optional string.
pub open spec fn opt_text(s: Option<String>) -> Option<Seq<char>> {
    match s {
        Some(t) => Some(t@),
        None => None,
    }
}

/// Whether a patch contact is the encoding of a stored contact.
pub open spec fn contact_encodes(p: PatchContact, c: ContactRow) -> bool {
    &&& p.fh == c.username_hash
    &&& p.fp == c.pseudo
    &&& p.ik@ == spec_base64(c.identity_key@)
    &&& opt_text(p.kk) == opt_base64(c.kyber_public_key)
    &&& opt_text(p.xk) == opt_base64(c.x25519_public_key)
    &&& opt_text(p.sl) == opt_base64(c.signature_local)
    &&& opt_text(p.sr) == opt_base64(c.signature_remote)
}

fn copy_patch_message(m: &PatchMessage) -> (r: PatchMessage)
    ensures
        r == *m,
{
    PatchMessage {
        mid: m.mid.clone(),
        fh: m.fh.clone(),
        out: m.out,
        mt: m.mt.clone(),
        ct: m.ct.clone(),
        ts: m.ts,
        ve: m.ve,
    }
}

fn encode_opt(b: &Option<Vec<u8>>) -> (r: Option<String>)
    ensures
        opt_text(r) == opt_base64(*b),
{
    match b {
        Some(v) => Some(base64_encode(v.as_slice())),
        None => None,
    }
}

fn encode_contact(c: &ContactRow) -> (r: PatchContact)
    ensures
        contact_encodes(r, *c),
{
    PatchContact {
        fh: c.username_hash.clone(),
        fp: c.pseudo.clone(),
        ik: base64_encode(c.identity_key.as_slice()),
        kk: encode_opt(&c.kyber_public_key),
        xk: encode_opt(&c.x25519_public_key),
        sl: encode_opt(&c.signature_local),
        sr: encode_opt(&c.signature_remote),
    }
}

/// Compares a paired device's manifest with the local state and lists what
/// it lacks: the local messages whose hash it does not have, all settings
/// when the two settings hashes differ, and the synchronised contacts whose
/// hash it does not have. Nothing (`None`) when it lacks nothing.
pub fn build_sync_patch(
    local_msgs: &[(String, PatchMessage)],
    settings: Vec<SettingEntry>,
    local_settings_hash: &str,
    contacts: &[ContactRow],
    own_hash: &str,
    remote_msg_hashes: &[String],
    remote_settings_hash: &str,
    remote_contact_hashes: &[String],
) -> (r: Option<SyncPatch>)
    ensures
        r is None <==> (missing_messages(local_msgs@, texts(remote_msg_hashes@)).len() == 0
            && local_settings_hash@ == remote_settings_hash@ && missing_contacts(
            contacts@,
            own_hash@,
            texts(remote_contact_hashes@),
        ).len() == 0),
        r matches Some(p) ==> {
            &&& p.messages@ == missing_messages(local_msgs@, texts(remote_msg_hashes@))
            &&& p.settings == if local_settings_hash@ == remote_settings_hash@ {
                None
            } else {
                Some(settings)
            }
            &&& p.contacts@.len() == missing_contacts(
                contacts@,
                own_hash@,
                texts(remote_contact_hashes@),
            ).len()
            &&& forall|k: int|
                0 <= k < p.contacts@.len() ==> contact_encodes(
                    #[trigger] p.contacts@[k],
                    missing_contacts(contacts@, own_hash@, texts(remote_contact_hashes@))[k],
                )
        },
{
    let ghost rm = texts(remote_msg_hashes@);
    let mut messages: Vec<PatchMessage> = Vec::new();
    let mut i: usize = 0;
    while i < local_msgs.len()
        invariant
            i <= local_msgs@.len(),
            rm == texts(remote_msg_hashes@),
            messages@ == missing_messages(local_msgs@.take(i as int), rm),
        decreases local_msgs.len() - i,
    {
        assert(local_msgs@.take(i + 1).drop_last() =~= local_msgs@.take(i as int));
        assert(local_msgs@.take(i + 1).last() == local_msgs@[i as int]);
        if !contains_text(remote_msg_hashes, &local_msgs[i].0) {
            messages.push(copy_patch_message(&local_msgs[i].1));
        }
        i = i + 1;
    }
    assert(local_msgs@.take(local_msgs@.len() as int) =~= local_msgs@);
    let ghost rc = texts(remote_contact_hashes@);
    let ghost own = own_hash@;
    let mut out: Vec<PatchContact> = Vec::new();
    let mut j: usize = 0;
    while j < contacts.len()
        invariant
            j <= contacts@.len(),
            rc == texts(remote_contact_hashes@),
            own == own_hash@,
            out@.len() == missing_contacts(contacts@.take(j as int), own, rc).len(),
            forall|k: int|
                0 <= k < out@.len() ==> contact_encodes(
                    #[trigger] out@[k],
                    missing_contacts(contacts@.take(j as int), own, rc)[k],
                ),
        decreases contacts.len() - j,
    {
        let ghost before = missing_contacts(contacts@.take(j as int), own, rc);
        assert(contacts@.take(j + 1).drop_last() =~= contacts@.take(j as int));
        assert(contacts@.take(j + 1).last() == contacts@[j as int]);
        let c = &contacts[j];
        let shared = !c.blocked && c.identity_key.len() > 0 && !str_eq(c.username_hash.as_str(), own_hash);
        if shared && !contains_text(remote_contact_hashes, &c.manifest_hash) {
            out.push(encode_contact(c));
        }
        j = j + 1;
    }
    assert(contacts@.take(contacts@.len() as int) =~= contacts@);
    let same_settings = str_eq(local_settings_hash, remote_settings_hash);
    if messages.len() == 0 && same_settings && out.len() == 0 {
        return None;
    }
    let settings_patch = if same_settings {
        None
    } else {
        Some(settings)
    };
    Some(SyncPatch { messages, settings: settings_patch, contacts: out })
}

/// What applying a contact of a received sync patch does, given the local
/// contact with the same user hash (its id and the length of its identity
/// key), if there is one.
#[derive(Debug, Clone, Copy, PartialEq, Eq, Structural)]
pub enum PatchContactAction {
    /// A contact with keys is already stored: nothing changes.
    Keep,
    /// A placeholder without keys, with this id, is completed with the
    /// patch's pseudo, keys and signatures.
    Complete { id: i64 },
    /// No contact has this hash: it is inserted, not verified and not
    /// blocked.
    Insert,
}

/// Decides how a patch contact is applied: a contact with keys wins, a
/// placeholder is completed, and a new contact is inserted.
pub fn patch_contact_action(existing: Option<(i64, i64)>) -> (r: PatchContactAction)
    ensures
        r == match existing {
            Some((id, key_len)) => if key_len > 0 {
                PatchContactAction::Keep
            } else {
                PatchContactAction::Complete { id }
            },
            None => PatchContactAction::Insert,
        },
{
    match existing {
        Some((id, key_len)) => if key_len > 0 {
            PatchContactAction::Keep
        } else {
            PatchContactAction::Complete { id }
        },
        None => PatchContactAction::Insert,
    }
}

/// Each field of a patch contact carries the stored contact's own field:
/// the user hash and pseudo as they are, and the identity key, the Kyber key,
/// the X25519 key and the local and remote friendship signatures each in
/// base64 (absent exactly when the stored one is absent).
pub proof fn lemma_contact_encoding_fields(p: PatchContact, c: ContactRow)
    ensures
        contact_encodes(p, c) <==> {
            &&& p.fh == c.username_hash
            &&& p.fp == c.pseudo
            &&& p.ik@ == spec_base64(c.identity_key@)
            &&& match c.kyber_public_key {
                Some(k) => p.kk matches Some(x) && x@ == spec_base64(k@),
                None => p.kk is None,
            }
            &&& match c.x25519_public_key {
                Some(k) => p.xk matches Some(x) && x@ == spec_base64(k@),
                None => p.xk is None,
            }
            &&& match c.signature_local {
                Some(k) => p.sl matches Some(x) && x@ == spec_base64(k@),
                None => p.sl is None,
            }
            &&& match c.signature_remote {
                Some(k) => p.sr matches Some(x) && x@ == spec_base64(k@),
                None => p.sr is None,
            }
        },
{
}

/// Where each field of a pairing response lies: the trusted device's
/// Dilithium key in bytes 0..1312, the time stamp (little-endian) in
/// 1312..1320, the expiry in 1320..1328, the new device's Dilithium key in
/// 1328..2640, then the Kyber key and the trusted device's user hash.
pub proof fn lemma_pairing_layout(
    dil_pub_tel: Seq<u8>,
    timestamp: u64,
    expiry: u64,
    dil_pub_pc: Seq<u8>,
    kyber_pub_pc: Seq<u8>,
    user_hash_tel: Seq<u8>,
)
    requires
        dil_pub_tel.len() == 1312,
        dil_pub_pc.len() == 1312,
    ensures
        pairing_response_bytes(dil_pub_tel, timestamp, expiry, dil_pub_pc, kyber_pub_pc, user_hash_tel).len()
            == 2640 + kyber_pub_pc.len() + user_hash_tel.len(),
        pairing_response_bytes(dil_pub_tel, timestamp, expiry, dil_pub_pc, kyber_pub_pc, user_hash_tel).take(1312)
            == dil_pub_tel,
        pairing_response_bytes(
            dil_pub_tel,
            timestamp,
            expiry,
            dil_pub_pc,
            kyber_pub_pc,
            user_hash_tel,
        ).subrange(1312, 1320) == le64(timestamp),
        pairing_response_bytes(
            dil_pub_tel,
            timestamp,
            expiry,
            dil_pub_pc,
            kyber_pub_pc,
            user_hash_tel,
        ).subrange(1320, 1328) == le64(expiry),
        pairing_response_bytes(
            dil_pub_tel,
            timestamp,
            expiry,
            dil_pub_pc,
            kyber_pub_pc,
            user_hash_tel,
        ).subrange(1328, 2640) == dil_pub_pc,
        pairing_response_bytes(dil_pub_tel, timestamp, expiry, dil_pub_pc, kyber_pub_pc, user_hash_tel).skip(2640)
            == kyber_pub_pc + user_hash_tel,
{
    let a = dil_pub_tel + le64(timestamp);
    let b = a + le64(expiry);
    let c = b + dil_pub_pc;
    let ct = c + kyber_pub_pc + user_hash_tel;
    assert(ct == pairing_response_bytes(
        dil_pub_tel,
        timestamp,
        expiry,
        dil_pub_pc,
        kyber_pub_pc,
        user_hash_tel,
    ));
    assert(ct.take(1312) =~= dil_pub_tel) by {
        assert(ct.take(1312) =~= a.take(1312));
    }
    assert(ct.subrange(1312, 1320) =~= le64(timestamp)) by {
        assert(ct.subrange(1312, 1320) =~= a.subrange(1312, 1320));
    }
    assert(ct.subrange(1320, 1328) =~= le64(expiry)) by {
        assert(ct.subrange(1320, 1328) =~= b.subrange(1320, 1328));
    }
    assert(ct.subrange(1328, 2640) =~= dil_pub_pc) by {
        assert(ct.subrange(1328, 2640) =~= c.subrange(1328, 2640));
    }
    assert(ct.skip(2640) =~= kyber_pub_pc + user_hash_tel);
}

/// How a pairing response is read back at fixed offsets: the trusted
/// device's key is bytes 0..1312, the time stamp the little-endian value of
/// bytes 1312..1320, the expiry that of bytes 1320..1328, and the new
/// device's key bytes 1328..2640.
pub proof fn lemma_pairing_fields_offsets(ct: Seq<u8>)
    requires
        ct.len() >= 2640,
    ensures
        pairing_fields(ct).0 == ct.take(1312),
        pairing_fields(ct).1 == ct[1312] + 256 * ct[1313] + 65536 * ct[1314] + 16777216 * ct[1315]
            + 4294967296 * (ct[1316] + 256 * ct[1317] + 65536 * ct[1318] + 16777216 * ct[1319]),
        pairing_fields(ct).2 == ct[1320] + 256 * ct[1321] + 65536 * ct[1322] + 16777216 * ct[1323]
            + 4294967296 * (ct[1324] + 256 * ct[1325] + 65536 * ct[1326] + 16777216 * ct[1327]),
        pairing_fields(ct).3 == ct.subrange(1328, 2640),
        pairing_fields(ct).4 + pairing_fields(ct).5 == ct.skip(2640),
{
    let rest = ct.skip(2640);
    if rest.len() > 32 {
        assert(rest.take(rest.len() - 32) + rest.skip(rest.len() - 32) =~= rest);
    } else {
        assert(rest + Seq::<u8>::empty() =~= rest);
    }
}

} // verus!
