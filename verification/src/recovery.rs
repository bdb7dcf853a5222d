//! Account recovery: the `.zbc` backup frame, the messages a backup holds,
//! and the byte layouts signed when a recovery key is published or claimed.
use vstd::prelude::*;

use crate::bytes::{copy_range, extend_bytes, le64, u64_le};
use crate::crypto::{base64_encode, spec_base64};
use crate::text::{hex_encode, hex_spec, push_str};

verus! {

/// `ZBC1`.
pub open spec fn zbc_magic() -> Seq<u8> {
    seq![0x5au8, 0x42, 0x43, 0x31]
}

/// Version byte written in a backup.
pub const ZBC_VERSION: u8 = 1;

/// Length of a backup header: magic, version, two salts, IV, nonce and tag.
pub const ZBC_HEADER_LEN: usize = 113;

/// The header fields and ciphertext of a backup.
#[derive(Debug, Clone)]
pub struct ZbcFrame {
    pub version: u8,
    pub salt_serpent: [u8; 32],
    pub salt_aes: [u8; 32],
    pub iv_serpent: [u8; 16],
    pub nonce_aes: [u8; 12],
    pub tag_aes: [u8; 16],
    pub ciphertext: Vec<u8>,
}

/// The bytes of a backup: `ZBC1`, version, Serpent salt (32), AES salt
/// (32), Serpent IV (16), AES nonce (12), AES tag (16), ciphertext.
pub open spec fn zbc_bytes(
    version: u8,
    salt_serpent: Seq<u8>,
    salt_aes: Seq<u8>,
    iv_serpent: Seq<u8>,
    nonce_aes: Seq<u8>,
    tag_aes: Seq<u8>,
    ciphertext: Seq<u8>,
) -> Seq<u8> {
    zbc_magic() + seq![version] + salt_serpent + salt_aes + iv_serpent + nonce_aes + tag_aes
        + ciphertext
}

/// Lays out a backup frame.
pub fn zbc_frame_bytes(frame: &ZbcFrame) -> (r: Vec<u8>)
    ensures
        r@ == zbc_bytes(
            frame.version,
            frame.salt_serpent@,
            frame.salt_aes@,
            frame.iv_serpent@,
            frame.nonce_aes@,
            frame.tag_aes@,
            frame.ciphertext@,
        ),
{
    let mut out: Vec<u8> = Vec::new();
    out.push(0x5a);
    out.push(0x42);
    out.push(0x43);
    out.push(0x31);
    out.push(frame.version);
    assert(out@ =~= zbc_magic() + seq![frame.version]);
    extend_bytes(&mut out, &frame.salt_serpent);
    extend_bytes(&mut out, &frame.salt_aes);
    extend_bytes(&mut out, &frame.iv_serpent);
    extend_bytes(&mut out, &frame.nonce_aes);
    extend_bytes(&mut out, &frame.tag_aes);
    extend_bytes(&mut out, frame.ciphertext.as_slice());
    out
}

/// The message for a backup shorter than its header.
pub open spec fn zbc_too_short() -> Seq<char> {
    "Fichier .zbc trop court"@
}

/// The message for a backup without the `ZBC1` magic.
pub open spec fn zbc_bad_magic() -> Seq<char> {
    "Fichier .zbc invalide (magic incorrect)"@
}

fn copy_array<const N: usize>(s: &[u8], start: usize) -> (r: [u8; N])
    requires
        start + N <= s@.len(),
    ensures
        r@ == s@.subrange(start as int, start + N),
{
    let mut a = [0u8; N];
    let mut i: usize = 0;
    while i < N
        invariant
            i <= N,
            start + N <= s.len(),
            a@.len() == N,
            forall|j: int| 0 <= j < i ==> a@[j] == s@[start + j],
        decreases N - i,
    {
        a[i] = s[start + i];
        i = i + 1;
    }
    assert(a@ =~= s@.subrange(start as int, start + N));
    a
}

/// Reads a backup frame. A frame shorter than the header, or without the
/// magic, is refused; the version byte is read as it is.
pub fn parse_zbc_frame(data: &[u8]) -> (r: Result<ZbcFrame, String>)
    ensures
        data@.len() < ZBC_HEADER_LEN ==> (r matches Err(m) && m@ == zbc_too_short()),
        data@.len() >= ZBC_HEADER_LEN && data@.take(4) != zbc_magic() ==> (r matches Err(m) && m@
            == zbc_bad_magic()),
        data@.len() >= ZBC_HEADER_LEN && data@.take(4) == zbc_magic() ==> r is Ok,
        r matches Ok(f) ==> data@ == zbc_bytes(
            f.version,
            f.salt_serpent@,
            f.salt_aes@,
            f.iv_serpent@,
            f.nonce_aes@,
            f.tag_aes@,
            f.ciphertext@,
        ),
{
    if data.len() < ZBC_HEADER_LEN {
        let mut m = String::new();
        push_str(&mut m, "Fichier .zbc trop court");
        return Err(m);
    }
    if !(data[0] == 0x5a && data[1] == 0x42 && data[2] == 0x43 && data[3] == 0x31) {
        proof {
            if data@.take(4) == zbc_magic() {
                assert(data@.take(4)[0] == 0x5a);
                assert(data@.take(4)[1] == 0x42);
                assert(data@.take(4)[2] == 0x43);
                assert(data@.take(4)[3] == 0x31);
            }
        }
        let mut m = String::new();
        push_str(&mut m, "Fichier .zbc invalide (magic incorrect)");
        return Err(m);
    }
    assert(data@.take(4) =~= zbc_magic());
    let version = data[4];
    let salt_serpent: [u8; 32] = copy_array(data, 5);
    let salt_aes: [u8; 32] = copy_array(data, 37);
    let iv_serpent: [u8; 16] = copy_array(data, 69);
    let nonce_aes: [u8; 12] = copy_array(data, 85);
    let tag_aes: [u8; 16] = copy_array(data, 97);
    let ciphertext = copy_range(data, 113, data.len());
    let f = ZbcFrame { version, salt_serpent, salt_aes, iv_serpent, nonce_aes, tag_aes, ciphertext };
    assert(data@ =~= zbc_bytes(
        f.version,
        f.salt_serpent@,
        f.salt_aes@,
        f.iv_serpent@,
        f.nonce_aes@,
        f.tag_aes@,
        f.ciphertext@,
    ));
    Ok(f)
}

/// A backup frame reads back as the fields it was laid out from.
pub proof fn lemma_zbc_roundtrip(
    version: u8,
    salt_serpent: Seq<u8>,
    salt_aes: Seq<u8>,
    iv_serpent: Seq<u8>,
    nonce_aes: Seq<u8>,
    tag_aes: Seq<u8>,
    ciphertext: Seq<u8>,
    v2: u8,
    s2: Seq<u8>,
    a2: Seq<u8>,
    i2: Seq<u8>,
    n2: Seq<u8>,
    t2: Seq<u8>,
    c2: Seq<u8>,
)
    requires
        salt_serpent.len() == 32 && s2.len() == 32,
        salt_aes.len() == 32 && a2.len() == 32,
        iv_serpent.len() == 16 && i2.len() == 16,
        nonce_aes.len() == 12 && n2.len() == 12,
        tag_aes.len() == 16 && t2.len() == 16,
        zbc_bytes(version, salt_serpent, salt_aes, iv_serpent, nonce_aes, tag_aes, ciphertext)
            == zbc_bytes(v2, s2, a2, i2, n2, t2, c2),
    ensures
        version == v2,
        salt_serpent == s2,
        salt_aes == a2,
        iv_serpent == i2,
        nonce_aes == n2,
        tag_aes == t2,
        ciphertext == c2,
{
    let x = zbc_bytes(version, salt_serpent, salt_aes, iv_serpent, nonce_aes, tag_aes, ciphertext);
    let y = zbc_bytes(v2, s2, a2, i2, n2, t2, c2);
    assert(x[4] == version && y[4] == v2);
    assert(salt_serpent =~= x.subrange(5, 37));
    assert(s2 =~= y.subrange(5, 37));
    assert(salt_aes =~= x.subrange(37, 69));
    assert(a2 =~= y.subrange(37, 69));
    assert(iv_serpent =~= x.subrange(69, 85));
    assert(i2 =~= y.subrange(69, 85));
    assert(nonce_aes =~= x.subrange(85, 97));
    assert(n2 =~= y.subrange(85, 97));
    assert(tag_aes =~= x.subrange(97, 113));
    assert(t2 =~= y.subrange(97, 113));
    assert(ciphertext =~= x.skip(113));
    assert(c2 =~= y.skip(113));
}

/// Where each field of a backup lies: `ZBC1` in bytes 0..4, the version at
/// byte 4, the Serpent salt in 5..37, the AES salt in 37..69, the Serpent IV
/// in 69..85, the AES nonce in 85..97, the AES tag in 97..113, and the
/// ciphertext from byte 113 on.
pub proof fn lemma_zbc_layout(
    version: u8,
    salt_serpent: Seq<u8>,
    salt_aes: Seq<u8>,
    iv_serpent: Seq<u8>,
    nonce_aes: Seq<u8>,
    tag_aes: Seq<u8>,
    ciphertext: Seq<u8>,
)
    requires
        salt_serpent.len() == 32,
        salt_aes.len() == 32,
        iv_serpent.len() == 16,
        nonce_aes.len() == 12,
        tag_aes.len() == 16,
    ensures
        ({
            let b = zbc_bytes(version, salt_serpent, salt_aes, iv_serpent, nonce_aes, tag_aes, ciphertext);
            &&& b.len() == 113 + ciphertext.len()
            &&& b.take(4) == seq![0x5au8, 0x42, 0x43, 0x31]
            &&& b[4] == version
            &&& b.subrange(5, 37) == salt_serpent
            &&& b.subrange(37, 69) == salt_aes
            &&& b.subrange(69, 85) == iv_serpent
            &&& b.subrange(85, 97) == nonce_aes
            &&& b.subrange(97, 113) == tag_aes
            &&& b.skip(113) == ciphertext
        }),
{
    let b = zbc_bytes(version, salt_serpent, salt_aes, iv_serpent, nonce_aes, tag_aes, ciphertext);
    assert(b.take(4) =~= seq![0x5au8, 0x42, 0x43, 0x31]);
    assert(b.subrange(5, 37) =~= salt_serpent);
    assert(b.subrange(37, 69) =~= salt_aes);
    assert(b.subrange(69, 85) =~= iv_serpent);
    assert(b.subrange(85, 97) =~= nonce_aes);
    assert(b.subrange(97, 113) =~= tag_aes);
    assert(b.skip(113) =~= ciphertext);
}

/// A message as a backup holds it.
#[derive(Debug, Clone)]
pub struct ZbcMessage {
    pub message_id: String,
    pub is_outgoing: bool,
    pub message_type: String,
    pub content: String,
    pub file_data: Option<String>,
    pub file_name: Option<String>,
    pub file_mime: Option<String>,
    pub timestamp: i64,
}

/// The words and public key of a new recovery key.
#[derive(Debug, Clone)]
pub struct InitRecoveryResult {
    pub words: Vec<String>,
    pub pubkey_hex: String,
}

/// What an import brought in.
#[derive(Debug, Clone)]
pub struct ImportBackupResult {
    pub contacts_imported: u32,
    pub messages_imported: u32,
    pub has_recovery_key: bool,
}

/// The session a successful recovery claim opens.
#[derive(Debug, Clone)]
pub struct RecoveryClaimResult {
    pub session_token_hex: String,
}

/// A stored message as the backup holds it: the id in hex, the text, and
/// the file fields only when they are not empty (file data in base64).
pub fn zbc_message_from_parts(
    message_id: &[u8],
    is_outgoing: i32,
    message_type: String,
    timestamp: i64,
    text: String,
    file_data: &[u8],
    file_name: String,
    file_mime: String,
) -> (r: ZbcMessage)
    ensures
        r.message_id@ == hex_spec(message_id@),
        r.is_outgoing == (is_outgoing != 0),
        r.message_type == message_type,
        r.content == text,
        r.timestamp == timestamp,
        file_data@.len() == 0 ==> r.file_data is None,
        file_data@.len() > 0 ==> (r.file_data matches Some(d) && d@ == spec_base64(file_data@)),
        file_name@.len() == 0 ==> r.file_name is None,
        file_name@.len() > 0 ==> r.file_name == Some(file_name),
        file_mime@.len() == 0 ==> r.file_mime is None,
        file_mime@.len() > 0 ==> r.file_mime == Some(file_mime),
{
    let fd = if file_data.len() == 0 {
        None
    } else {
        Some(base64_encode(file_data))
    };
    let fname = if file_name.as_str().is_empty() {
        None
    } else {
        Some(file_name)
    };
    let fmime = if file_mime.as_str().is_empty() {
        None
    } else {
        Some(file_mime)
    };
    ZbcMessage {
        message_id: hex_encode(message_id),
        is_outgoing: is_outgoing != 0,
        message_type,
        content: text,
        file_data: fd,
        file_name: fname,
        file_mime: fmime,
        timestamp,
    }
}

/// Whether an import restores the backup's recovery key: the backup holds
/// one and this device has none.
pub fn restores_recovery_key(backup_privkey_hex: &str, current_pubkey_hex: &str) -> (r: bool)
    ensures
        r == (backup_privkey_hex@.len() > 0 && current_pubkey_hex@.len() == 0),
{
    !backup_privkey_hex.is_empty() && current_pubkey_hex.is_empty()
}

/// The message signed to publish a recovery key: user hash, recovery public
/// key, time stamp (little-endian).
pub fn recovery_publish_message(user_hash: &[u8], recovery_pubkey: &[u8], ts: u64) -> (r: Vec<u8>)
    ensures
        r@ == user_hash@ + recovery_pubkey@ + le64(ts),
{
    let mut v: Vec<u8> = Vec::new();
    extend_bytes(&mut v, user_hash);
    extend_bytes(&mut v, recovery_pubkey);
    extend_bytes(&mut v, &u64_le(ts));
    v
}

/// The message the new identity key signs in a recovery claim: user hash and
/// time stamp.
pub fn recovery_identity_message(user_hash: &[u8], ts: u64) -> (r: Vec<u8>)
    ensures
        r@ == user_hash@ + le64(ts),
{
    let mut v: Vec<u8> = Vec::new();
    extend_bytes(&mut v, user_hash);
    extend_bytes(&mut v, &u64_le(ts));
    v
}

/// The message the recovery key signs in a claim: user hash, new identity
/// public key, time stamp.
pub fn recovery_claim_message(user_hash: &[u8], new_identity_pubkey: &[u8], ts: u64) -> (r: Vec<u8>)
    ensures
        r@ == user_hash@ + new_identity_pubkey@ + le64(ts),
{
    recovery_publish_message(user_hash, new_identity_pubkey, ts)
}

/// The stored recovery public key, which must be set and not empty.
pub fn stored_recovery_pubkey(setting: Option<String>) -> (r: Result<String, String>)
    ensures
        match setting {
            Some(v) if v@.len() > 0 => r == Ok::<String, String>(v),
            _ => r matches Err(m) && m@ == "Clé recovery non initialisée"@,
        },
{
    match setting {
        Some(v) => {
            if v.as_str().is_empty() {
                Err("Clé recovery non initialisée".to_owned())
            } else {
                Ok(v)
            }
        },
        None => Err("Clé recovery non initialisée".to_owned()),
    }
}

} // verus!
