//! Contacts: the safety number two friends compare, the pseudo a new contact
//! gets, the checks on hashes and names, and the byte layouts signed for
//! friend requests and answers.
use vstd::prelude::*;

use crate::bytes::{extend_bytes, le64, u64_le};
use crate::crypto::{base64_encode, sha256, spec_base64, spec_sha256};
use crate::text::{hex_decode, hex_decode_spec, hex_encode, hex_spec, HexDecodeError};

verus! {

// ---------------------------------------------------------------------------
// Safety number
// ---------------------------------------------------------------------------

/// `ZENTH_FINGERPRINT_V1`.
pub open spec fn fingerprint_label() -> Seq<u8> {
    seq![
        0x5au8, 0x45, 0x4e, 0x54, 0x48, 0x5f, 0x46, 0x49, 0x4e, 0x47, 0x45, 0x52, 0x50, 0x52, 0x49,
        0x4e, 0x54, 0x5f, 0x56, 0x31,
    ]
}

/// Lexicographic order of byte strings (as slices compare).
pub open spec fn lex_lt(a: Seq<u8>, b: Seq<u8>) -> bool
    decreases a.len(),
{
    if a.len() == 0 {
        b.len() > 0
    } else if b.len() == 0 {
        false
    } else if a[0] != b[0] {
        a[0] < b[0]
    } else {
        lex_lt(a.drop_first(), b.drop_first())
    }
}

proof fn lemma_lex_total(a: Seq<u8>, b: Seq<u8>)
    ensures
        !(lex_lt(a, b) && lex_lt(b, a)),
        !lex_lt(a, b) && !lex_lt(b, a) ==> a == b,
    decreases a.len(),
{
    if a.len() > 0 && b.len() > 0 && a[0] == b[0] {
        lemma_lex_total(a.drop_first(), b.drop_first());
        if a.drop_first() == b.drop_first() {
            assert(a =~= seq![a[0]] + a.drop_first());
            assert(b =~= seq![b[0]] + b.drop_first());
        }
    }
}

/// Whether `a` sorts before `b`.
pub fn bytes_lt(a: &[u8], b: &[u8]) -> (r: bool)
    ensures
        r == lex_lt(a@, b@),
{
    let mut i: usize = 0;
    assert(a@.skip(0) =~= a@);
    assert(b@.skip(0) =~= b@);
    while i < a.len() && i < b.len()
        invariant
            i <= a@.len(),
            i <= b@.len(),
            lex_lt(a@, b@) == lex_lt(a@.skip(i as int), b@.skip(i as int)),
        decreases a.len() - i,
    {
        let ghost sa = a@.skip(i as int);
        let ghost sb = b@.skip(i as int);
        assert(sa[0] == a@[i as int] && sb[0] == b@[i as int]);
        if a[i] != b[i] {
            return a[i] < b[i];
        }
        assert(sa.drop_first() =~= a@.skip(i + 1));
        assert(sb.drop_first() =~= b@.skip(i + 1));
        i = i + 1;
    }
    i < b.len()
}

/// What is hashed for a safety number: the label, then the two user hashes
/// in lexicographic order.
pub open spec fn fingerprint_input(ours: Seq<u8>, theirs: Seq<u8>) -> Seq<u8> {
    if lex_lt(ours, theirs) {
        fingerprint_label() + ours + theirs
    } else {
        fingerprint_label() + theirs + ours
    }
}

/// Digit `k` of a safety number: each byte of the hash gives its three
/// decimal digits (hundreds, tens, units); the first 60 are used.
pub open spec fn fingerprint_digit(hash: Seq<u8>, k: int) -> int {
    let b = hash[k / 3] as int;
    if k % 3 == 0 {
        b / 100
    } else if k % 3 == 1 {
        (b / 10) % 10
    } else {
        b % 10
    }
}

/// The safety number of a hash: 12 groups of 5 digits separated by spaces.
pub open spec fn fingerprint_text(hash: Seq<u8>) -> Seq<char> {
    Seq::new(
        71,
        |p: int|
            if p % 6 == 5 {
                ' '
            } else {
                (48 + fingerprint_digit(hash, (p / 6) * 5 + p % 6)) as char
            },
    )
}

/// The safety number of two users.
pub open spec fn fingerprint_spec(ours: Seq<u8>, theirs: Seq<u8>) -> Seq<char> {
    fingerprint_text(spec_sha256(fingerprint_input(ours, theirs)))
}

/// What a safety number hashes: `ZENTH_FINGERPRINT_V1`, then the smaller of
/// the two user hashes (in byte order), then the larger, whichever side
/// computes it.
pub proof fn lemma_fingerprint_input_order(a: Seq<u8>, b: Seq<u8>)
    requires
        lex_lt(a, b),
    ensures
        fingerprint_input(a, b) == seq![
            0x5au8, 0x45, 0x4e, 0x54, 0x48, 0x5f, 0x46, 0x49, 0x4e, 0x47, 0x45, 0x52, 0x50, 0x52, 0x49,
            0x4e, 0x54, 0x5f, 0x56, 0x31,
        ] + a + b,
        fingerprint_input(b, a) == fingerprint_input(a, b),
{
    lemma_lex_total(a, b);
    assert(fingerprint_label() =~= seq![
        0x5au8, 0x45, 0x4e, 0x54, 0x48, 0x5f, 0x46, 0x49, 0x4e, 0x47, 0x45, 0x52, 0x50, 0x52, 0x49,
        0x4e, 0x54, 0x5f, 0x56, 0x31,
    ]);
}

/// How a safety number is written: 71 characters, a space after each group
/// of five digits, and the digits are those of the hash bytes in order, each
/// byte giving its hundreds, tens and units.
pub proof fn lemma_fingerprint_text_digits(hash: Seq<u8>, g: int, d: int)
    requires
        hash.len() >= 20,
        0 <= g < 12,
        0 <= d < 5,
    ensures
        fingerprint_text(hash).len() == 71,
        g < 11 ==> fingerprint_text(hash)[6 * g + 5] == ' ',
        fingerprint_text(hash)[6 * g + d] as int == 48 + ({
            let k = 5 * g + d;
            let b = hash[k / 3] as int;
            if k % 3 == 0 {
                b / 100
            } else if k % 3 == 1 {
                (b / 10) % 10
            } else {
                b % 10
            }
        }),
{
    let p = 6 * g + d;
    assert(p / 6 == g && p % 6 == d) by (nonlinear_arith)
        requires
            p == 6 * g + d,
            0 <= d < 5,
            0 <= g,
    ;
    if g < 11 {
        let q = 6 * g + 5;
        assert(q % 6 == 5) by (nonlinear_arith)
            requires
                q == 6 * g + 5,
                0 <= g,
        ;
    }
    let k = 5 * g + d;
    assert(0 <= k / 3 < 20) by (nonlinear_arith)
        requires
            k == 5 * g + d,
            0 <= g < 12,
            0 <= d < 5,
    ;
    let b = hash[k / 3] as int;
    assert(0 <= b < 256);
}

/// Both friends compute the same safety number.
pub proof fn lemma_fingerprint_symmetric(a: Seq<u8>, b: Seq<u8>)
    ensures
        fingerprint_spec(a, b) == fingerprint_spec(b, a),
{
    lemma_lex_total(a, b);
}

fn fingerprint_label_bytes() -> (r: Vec<u8>)
    ensures
        r@ == fingerprint_label(),
{
    let r = vec![
        0x5au8, 0x45, 0x4e, 0x54, 0x48, 0x5f, 0x46, 0x49, 0x4e, 0x47, 0x45, 0x52, 0x50, 0x52, 0x49,
        0x4e, 0x54, 0x5f, 0x56, 0x31,
    ];
    assert(r@ =~= fingerprint_label());
    r
}

/// The safety number of a hash.
pub fn fingerprint_of_hash(hash: &[u8; 32]) -> (r: String)
    ensures
        r@ == fingerprint_text(hash@),
{
    let mut s = String::new();
    let mut p: usize = 0;
    while p < 71
        invariant
            p <= 71,
            s@ == fingerprint_text(hash@).take(p as int),
        decreases 71 - p,
    {
        let c: char = if p % 6 == 5 {
            ' '
        } else {
            let k = (p / 6) * 5 + p % 6;
            let b = hash[k / 3];
            let d: u8 = if k % 3 == 0 {
                b / 100
            } else if k % 3 == 1 {
                (b / 10) % 10
            } else {
                b % 10
            };
            (48 + d) as char
        };
        crate::text::push_char(&mut s, c);
        assert(fingerprint_text(hash@).take(p + 1) =~= fingerprint_text(hash@).take(p as int).push(c));
        p = p + 1;
    }
    assert(fingerprint_text(hash@).take(71) =~= fingerprint_text(hash@));
    s
}

/// The safety number of this user and a friend whose hash is given in hex.
/// It does not depend on which of the two computes it.
pub fn get_friend_fingerprint(our_hash: &[u8], friend_hash_hex: &str) -> (r: Result<String, HexDecodeError>)
    ensures
        match hex_decode_spec(vstd::utf8::encode_utf8(friend_hash_hex@)) {
            Ok(theirs) => r matches Ok(s) && s@ == fingerprint_spec(our_hash@, theirs),
            Err(e) => r == Err::<String, HexDecodeError>(e),
        },
{
    let theirs = match hex_decode(friend_hash_hex) {
        Ok(t) => t,
        Err(e) => {
            return Err(e);
        },
    };
    let mut input = fingerprint_label_bytes();
    if bytes_lt(our_hash, theirs.as_slice()) {
        extend_bytes(&mut input, our_hash);
        extend_bytes(&mut input, theirs.as_slice());
    } else {
        extend_bytes(&mut input, theirs.as_slice());
        extend_bytes(&mut input, our_hash);
    }
    let hash = sha256(input.as_slice());
    Ok(fingerprint_of_hash(&hash))
}

// ---------------------------------------------------------------------------
// Names
// ---------------------------------------------------------------------------

/// Unicode white space (what `char::is_whitespace` accepts).
pub open spec fn is_whitespace(c: char) -> bool {
    ||| '\u{9}' <= c <= '\u{d}'
    ||| c == ' '
    ||| c == '\u{85}'
    ||| c == '\u{a0}'
    ||| c == '\u{1680}'
    ||| '\u{2000}' <= c <= '\u{200a}'
    ||| c == '\u{2028}'
    ||| c == '\u{2029}'
    ||| c == '\u{202f}'
    ||| c == '\u{205f}'
    ||| c == '\u{3000}'
}

/// Whether a text is empty once trimmed: it holds only white space.
pub open spec fn blank(s: Seq<char>) -> bool {
    forall|i: int| 0 <= i < s.len() ==> is_whitespace(#[trigger] s[i])
}

fn char_is_whitespace(c: char) -> (r: bool)
    ensures
        r == is_whitespace(c),
{
    ('\u{9}' <= c && c <= '\u{d}') || c == ' ' || c == '\u{85}' || c == '\u{a0}' || c == '\u{1680}'
        || ('\u{2000}' <= c && c <= '\u{200a}') || c == '\u{2028}' || c == '\u{2029}' || c
        == '\u{202f}' || c == '\u{205f}' || c == '\u{3000}'
}

/// Whether a text holds only white space (so `trim` leaves it empty).
pub fn is_blank(s: &str) -> (r: bool)
    ensures
        r == blank(s@),
{
    let mut all = true;
    for c in it: s.chars()
        invariant
            it.seq() == s@,
            all == (forall|i: int| 0 <= i < it.index() ==> is_whitespace(#[trigger] s@[i])),
    {
        if !char_is_whitespace(c) {
            all = false;
        }
    }
    all
}

/// The text of the first 8 bytes of a hash.
pub open spec fn hash_prefix(hash: Seq<char>) -> Seq<char> {
    vstd::utf8::decode_utf8(vstd::utf8::encode_utf8(hash).take(8))
}

/// The pseudo of a contact added on acceptance: the chosen one when it is
/// not blank, else the one the requester gave, else the first 8 bytes of the
/// hash.
pub open spec fn accepted_pseudo_spec(
    custom: Option<Seq<char>>,
    remote: Option<Seq<char>>,
    hash: Seq<char>,
) -> Seq<char> {
    match custom {
        Some(c) if !blank(c) => c,
        _ => match remote {
            Some(r) => r,
            None => hash_prefix(hash),
        },
    }
}

/// Chooses the pseudo of a contact added on acceptance. The hash must have
/// at least 8 bytes, the 8th ending a character.
pub fn accepted_pseudo(custom: Option<String>, remote: Option<String>, hash: &str) -> (r: String)
    requires
        vstd::utf8::encode_utf8(hash@).len() >= 8,
        vstd::utf8::is_char_boundary(vstd::utf8::encode_utf8(hash@), 8),
    ensures
        r@ == accepted_pseudo_spec(
            match custom {
                Some(c) => Some(c@),
                None => None,
            },
            match remote {
                Some(x) => Some(x@),
                None => None,
            },
            hash@,
        ),
{
    match custom {
        Some(c) => {
            if !is_blank(c.as_str()) {
                return c;
            }
        },
        None => {},
    }
    match remote {
        Some(x) => x,
        None => {
            let (p, _) = hash.split_at(8);
            proof {
                let bytes = vstd::utf8::encode_utf8(hash@);
                vstd::utf8::encode_utf8_valid_utf8(hash@);
                vstd::utf8::encode_utf8_decode_utf8(hash@);
                vstd::utf8::encode_utf8_decode_utf8(p@);
                vstd::utf8::decode_utf8_split(bytes, 8);
                assert(p@ == vstd::utf8::decode_utf8(bytes.subrange(0, 8)));
                assert(bytes.subrange(0, 8) =~= bytes.take(8));
            }
            p.to_owned()
        },
    }
}

/// The message for a blank new name.
pub open spec fn empty_name_message() -> Seq<char> {
    "Le nom ne peut pas être vide"@
}

/// Checks a new name for a contact: it must not be blank.
pub fn check_new_name(new_pseudo: &str) -> (r: Result<(), String>)
    ensures
        r is Ok <==> !blank(new_pseudo@),
        r matches Err(m) ==> m@ == empty_name_message(),
{
    if is_blank(new_pseudo) {
        Err("Le nom ne peut pas être vide".to_owned())
    } else {
        Ok(())
    }
}

/// The message for a searched hash of the wrong length.
pub open spec fn bad_hash_length_message() -> Seq<char> {
    "Invalid hash format: must be 64 hex characters (SHA256)"@
}

/// What a user search returns.
#[derive(Debug, Clone)]
pub struct UserPublicInfoResponse {
    pub username_hash: String,
    pub identity_key: String,
    pub kyber_public_key: String,
    pub x25519_public_key: Option<String>,
}

/// Why a user search was refused.
#[derive(Debug, Clone, PartialEq, Eq)]
pub enum SearchError {
    /// The hash is not 64 bytes long.
    BadLength,
    /// The hash is not hexadecimal.
    BadHex(HexDecodeError),
}

/// Checks a searched user hash (64 hex characters). The server offers no
/// lookup yet, so the keys are reported as pending.
pub fn search_user(target_hash: String) -> (r: Result<UserPublicInfoResponse, SearchError>)
    ensures
        vstd::utf8::encode_utf8(target_hash@).len() != 64 ==> r == Err::<
            UserPublicInfoResponse,
            SearchError,
        >(SearchError::BadLength),
        vstd::utf8::encode_utf8(target_hash@).len() == 64 ==> match hex_decode_spec(
            vstd::utf8::encode_utf8(target_hash@),
        ) {
            Err(e) => r == Err::<UserPublicInfoResponse, SearchError>(SearchError::BadHex(e)),
            Ok(_) => r matches Ok(info) && info.username_hash@ == target_hash@
                && info.identity_key@ == "pending"@ && info.kyber_public_key@ == "pending"@
                && info.x25519_public_key is None,
        },
{
    if target_hash.as_str().as_bytes().len() != 64 {
        return Err(SearchError::BadLength);
    }
    match hex_decode(target_hash.as_str()) {
        Err(e) => Err(SearchError::BadHex(e)),
        Ok(_) => Ok(
            UserPublicInfoResponse {
                username_hash: target_hash,
                identity_key: "pending".to_owned(),
                kyber_public_key: "pending".to_owned(),
                x25519_public_key: None,
            },
        ),
    }
}

// ---------------------------------------------------------------------------
// Signed layouts
// ---------------------------------------------------------------------------

/// `FRIENDSHIP:`.
pub open spec fn friendship_prefix() -> Seq<u8> {
    seq![0x46u8, 0x52, 0x49, 0x45, 0x4e, 0x44, 0x53, 0x48, 0x49, 0x50, 0x3a]
}

/// The message signed when a friend request is accepted: `FRIENDSHIP:`,
/// our hash, their hash.
pub fn friendship_message(our_hash: &[u8], their_hash: &[u8]) -> (r: Vec<u8>)
    ensures
        r@ == friendship_prefix() + our_hash@ + their_hash@,
{
    let mut v = vec![0x46u8, 0x52, 0x49, 0x45, 0x4e, 0x44, 0x53, 0x48, 0x49, 0x50, 0x3a];
    assert(v@ =~= friendship_prefix());
    extend_bytes(&mut v, our_hash);
    extend_bytes(&mut v, their_hash);
    v
}

/// The message signed with a friend request: the target's hash, the
/// encoded pre-key bundle, the time stamp.
pub fn friend_request_message(target_hash: &[u8], pre_key_bundle: &[u8], timestamp: u64) -> (r: Vec<u8>)
    ensures
        r@ == target_hash@ + pre_key_bundle@ + le64(timestamp),
{
    let mut v: Vec<u8> = Vec::new();
    extend_bytes(&mut v, target_hash);
    extend_bytes(&mut v, pre_key_bundle);
    extend_bytes(&mut v, &u64_le(timestamp));
    v
}

/// The message signed with a refusal (or a removal): the requester's hash, a
/// zero byte, the time stamp.
pub fn rejection_message(requester_hash: &[u8], timestamp: u64) -> (r: Vec<u8>)
    ensures
        r@ == requester_hash@.push(0u8) + le64(timestamp),
{
    let mut v: Vec<u8> = Vec::new();
    extend_bytes(&mut v, requester_hash);
    v.push(0u8);
    extend_bytes(&mut v, &u64_le(timestamp));
    v
}

/// The message signed to fetch friend answers: our hash, the cursor, the
/// time stamp.
pub fn fetch_responses_message(user_hash: &[u8], since: u64, timestamp: u64) -> (r: Vec<u8>)
    ensures
        r@ == user_hash@ + le64(since) + le64(timestamp),
{
    let mut v: Vec<u8> = Vec::new();
    extend_bytes(&mut v, user_hash);
    extend_bytes(&mut v, &u64_le(since));
    extend_bytes(&mut v, &u64_le(timestamp));
    v
}

// ---------------------------------------------------------------------------
// What the interface receives
// ---------------------------------------------------------------------------

/// A contact as the interface shows it: keys in hex, avatar in base64.
#[derive(Debug, Clone)]
pub struct FriendInfo {
    pub id: i64,
    pub pseudo: String,
    pub username_hash: String,
    pub identity_key_public: String,
    pub kyber_public_key: Option<String>,
    pub x25519_public_key: Option<String>,
    pub verified: bool,
    pub blocked: bool,
    pub created_at: i64,
    pub avatar: Option<String>,
}

/// A pending request as the interface shows it.
#[derive(Debug, Clone)]
pub struct PendingRequestInfo {
    pub id: i64,
    pub direction: String,
    pub remote_username_hash: String,
    pub remote_pseudo: Option<String>,
    pub remote_identity_key: String,
    pub message: Option<String>,
    pub created_at: i64,
    pub expires_at: Option<i64>,
}

/// What a synchronisation of friend requests brought.
#[derive(Debug, Clone)]
pub struct SyncResult {
    pub new_incoming: u32,
    pub new_accepted: u32,
    pub errors: Vec<String>,
}

fn opt_hex(v: &Option<Vec<u8>>) -> (r: Option<String>)
    ensures
        match v {
            Some(b) => r matches Some(h) && h@ == hex_spec(b@),
            None => r is None,
        },
{
    match v {
        Some(b) => Some(hex_encode(b.as_slice())),
        None => None,
    }
}

/// A stored contact as the interface shows it.
pub fn friend_info(f: &crate::db::Friend) -> (r: FriendInfo)
    ensures
        r.id == f.id,
        r.pseudo == f.pseudo,
        r.username_hash == f.username_hash,
        r.identity_key_public@ == hex_spec(f.identity_key_public@),
        match f.kyber_public_key {
            Some(k) => r.kyber_public_key matches Some(h) && h@ == hex_spec(k@),
            None => r.kyber_public_key is None,
        },
        match f.x25519_public_key {
            Some(k) => r.x25519_public_key matches Some(h) && h@ == hex_spec(k@),
            None => r.x25519_public_key is None,
        },
        r.verified == f.verified,
        r.blocked == f.blocked,
        r.created_at == f.created_at,
        match f.avatar {
            Some(a) => r.avatar matches Some(t) && t@ == spec_base64(a@),
            None => r.avatar is None,
        },
{
    FriendInfo {
        id: f.id,
        pseudo: f.pseudo.clone(),
        username_hash: f.username_hash.clone(),
        identity_key_public: hex_encode(f.identity_key_public.as_slice()),
        kyber_public_key: opt_hex(&f.kyber_public_key),
        x25519_public_key: opt_hex(&f.x25519_public_key),
        verified: f.verified,
        blocked: f.blocked,
        created_at: f.created_at,
        avatar: match &f.avatar {
            Some(a) => Some(base64_encode(a.as_slice())),
            None => None,
        },
    }
}

/// A stored pending request as the interface shows it.
pub fn pending_request_info(p: &crate::db::PendingRequest) -> (r: PendingRequestInfo)
    ensures
        r.id == p.id,
        r.direction == p.direction,
        r.remote_username_hash == p.remote_username_hash,
        r.remote_pseudo == p.remote_pseudo,
        r.remote_identity_key@ == hex_spec(p.remote_identity_key@),
        r.message == p.message,
        r.created_at == p.created_at,
        r.expires_at == p.expires_at,
{
    PendingRequestInfo {
        id: p.id,
        direction: p.direction.clone(),
        remote_username_hash: p.remote_username_hash.clone(),
        remote_pseudo: clone_opt_string(&p.remote_pseudo),
        remote_identity_key: hex_encode(p.remote_identity_key.as_slice()),
        message: clone_opt_string(&p.message),
        created_at: p.created_at,
        expires_at: p.expires_at,
    }
}

fn clone_opt_string(o: &Option<String>) -> (r: Option<String>)
    ensures
        r == *o,
{
    match o {
        Some(s) => Some(s.clone()),
        None => None,
    }
}

} // verus!
