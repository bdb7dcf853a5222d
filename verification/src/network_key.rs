//! The 20000-character network key: generation, validation, parsing into its
//! zero-knowledge and authentication portions, and subkey derivation.
use vstd::prelude::*;
use vstd::utf8::{
    decode_utf8, decode_utf8_split, encode_utf8, encode_utf8_decode_utf8, encode_utf8_valid_utf8,
    is_char_boundary,
};

use crate::bytes::{extend_bytes, le32, u32_le};
use crate::crypto::{random_u32, sha3_256, spec_sha3_256};
use crate::text::{decimal_spec, push_char, push_decimal, push_str};

verus! {

/// Length of a network key in bytes.
pub const NETWORK_KEY_LENGTH: usize = 20000;

/// Length of the portion that feeds the zero-knowledge proof.
pub const ZKP_PORTION_LENGTH: usize = 2000;

/// Length of the portion used for network authentication and subkeys.
pub const AUTH_PORTION_LENGTH: usize = 18000;

/// Fewest distinct characters a valid key holds.
pub const MIN_UNIQUE_CHARS: usize = 50;

/// `A` to `Z`.
pub open spec fn upper_letters() -> Seq<u8> {
    Seq::new(26, |i: int| (65 + i) as u8)
}

/// `a` to `z`.
pub open spec fn lower_letters() -> Seq<u8> {
    Seq::new(26, |i: int| (97 + i) as u8)
}

/// `0` to `9`.
pub open spec fn digit_chars() -> Seq<u8> {
    Seq::new(10, |i: int| (48 + i) as u8)
}

/// `!@#$%^&*()-_=+[]{}|;:,.<>?`
pub open spec fn symbol_chars() -> Seq<u8> {
    seq![
        33u8, 64, 35, 36, 37, 94, 38, 42, 40, 41, 45, 95, 61, 43, 91, 93, 123, 125, 124, 59, 58,
        44, 46, 60, 62, 63,
    ]
}

/// Characters of a network key, in the order in which a random word picks
/// them: upper case, lower case, digits, symbols.
pub open spec fn key_charset() -> Seq<u8> {
    upper_letters() + lower_letters() + digit_chars() + symbol_chars()
}

/// Characters of an entropy chunk: lower case, upper case, digits, symbols.
pub open spec fn chunk_charset() -> Seq<u8> {
    lower_letters() + upper_letters() + digit_chars() + symbol_chars()
}

/// Whether a character is one of the 88 characters of the key alphabet.
pub open spec fn key_char_ok(c: char) -> bool {
    (c as u32) < 128 && key_charset().contains((c as u32) as u8)
}

/// Index of the first character of `s` that fails the character check.
pub open spec fn first_bad_char(s: Seq<char>) -> int {
    choose|i: int|
        0 <= i < s.len() && !key_char_ok(s[i]) && forall|j: int| 0 <= j < i ==> key_char_ok(s[j])
}

/// Whether some character of `s` fails the character check.
pub open spec fn has_bad_char(s: Seq<char>) -> bool {
    exists|i: int| 0 <= i < s.len() && !key_char_ok(#[trigger] s[i])
}

/// The error message of the validation of `key`, or `None` when it is valid.
pub open spec fn network_key_error(key: &str) -> Option<Seq<char>> {
    if encode_utf8(key@).len() != NETWORK_KEY_LENGTH {
        Some("Invalid key length: expected 20000, got "@ + decimal_spec(encode_utf8(key@).len()))
    } else if has_bad_char(key@) {
        let i = first_bad_char(key@);
        Some(
            "Invalid character at position "@ + decimal_spec(i as nat) + ": '"@ + seq![key@[i]]
                + "'"@,
        )
    } else if key@.to_set().len() < MIN_UNIQUE_CHARS {
        Some(
            "Insufficient entropy: only "@ + decimal_spec(key@.to_set().len())
                + " unique characters"@,
        )
    } else {
        None
    }
}

/// A network key and its two portions.
#[derive(Debug, Clone)]
pub struct NetworkKey {
    pub full_key: String,
    pub zkp_portion: String,
    pub auth_portion: String,
}

/// Byte of the upper-case, lower-case, digit or symbol class at `i`.
fn symbol_at(i: usize) -> (r: u8)
    requires
        i < 26,
    ensures
        r == symbol_chars()[i as int],
{
    let syms: [u8; 26] = [
        33u8, 64, 35, 36, 37, 94, 38, 42, 40, 41, 45, 95, 61, 43, 91, 93, 123, 125, 124, 59, 58,
        44, 46, 60, 62, 63,
    ];
    assert(syms@ =~= symbol_chars());
    syms[i]
}

/// `key_charset()[i]`.
fn key_charset_at(i: usize) -> (r: u8)
    requires
        i < 88,
    ensures
        r == key_charset()[i as int],
{
    if i < 26 {
        (65 + i) as u8
    } else if i < 52 {
        (97 + (i - 26)) as u8
    } else if i < 62 {
        (48 + (i - 52)) as u8
    } else {
        symbol_at(i - 62)
    }
}

/// `chunk_charset()[i]`.
pub(crate) fn chunk_charset_at(i: usize) -> (r: u8)
    requires
        i < 88,
    ensures
        r == chunk_charset()[i as int],
{
    if i < 26 {
        (97 + i) as u8
    } else if i < 52 {
        (65 + (i - 26)) as u8
    } else if i < 62 {
        (48 + (i - 52)) as u8
    } else {
        symbol_at(i - 62)
    }
}

/// Whether `b` is one of the key's characters.
fn in_key_charset(b: u8) -> (r: bool)
    ensures
        r == key_charset().contains(b),
{
    let ghost cs = key_charset();
    assert(cs.len() == 88);
    if 65 <= b && b <= 90 {
        assert(cs[b - 65] == b);
        return true;
    }
    if 97 <= b && b <= 122 {
        assert(cs[b - 97 + 26] == b);
        return true;
    }
    if 48 <= b && b <= 57 {
        assert(cs[b - 48 + 52] == b);
        return true;
    }
    let mut k: usize = 0;
    while k < 26
        invariant
            k <= 26,
            cs == key_charset(),
            forall|j: int| 0 <= j < k ==> symbol_chars()[j] != b,
        decreases 26 - k,
    {
        if symbol_at(k) == b {
            assert(cs[62 + k] == b);
            return true;
        }
        k = k + 1;
    }
    assert forall|i: int| 0 <= i < cs.len() implies cs[i] != b by {
        if i >= 62 {
            assert(cs[i] == symbol_chars()[i - 62]);
        }
    }
    false
}

proof fn lemma_push_to_set(s: Seq<char>, c: char)
    ensures
        s.push(c).to_set() == s.to_set().insert(c),
{
    assert(s.push(c) =~= s + seq![c]);
    Seq::lemma_to_set_insert_commutes(s, c);
}

/// A character takes at least one byte.
pub proof fn lemma_encode_utf8_len(s: Seq<char>)
    ensures
        encode_utf8(s).len() >= s.len(),
    decreases s.len(),
{
    if s.len() > 0 {
        lemma_encode_utf8_len(s.drop_first());
    }
}

/// Whether `v` holds `c`.
fn contains_char(v: &Vec<char>, c: char) -> (r: bool)
    ensures
        r == v@.contains(c),
{
    let mut i: usize = 0;
    while i < v.len()
        invariant
            i <= v.len(),
            forall|j: int| 0 <= j < i ==> v@[j] != c,
        decreases v.len() - i,
    {
        if v[i] == c {
            return true;
        }
        i = i + 1;
    }
    false
}

/// The message for a key whose length in bytes is `len`.
fn length_message(len: usize) -> (r: String)
    ensures
        r@ == "Invalid key length: expected 20000, got "@ + decimal_spec(len as nat),
{
    let mut s = String::new();
    push_str(&mut s, "Invalid key length: expected 20000, got ");
    push_decimal(&mut s, len as u64);
    s
}

/// Checks that `key` is 20000 bytes long, that each of its characters is one
/// of the 88 characters of the key alphabet, and that it holds
/// at least 50 distinct characters; the error names the first failure.
pub fn validate_network_key(key: &str) -> (r: Result<(), String>)
    ensures
        r is Ok <==> network_key_error(key) is None,
        r matches Err(m) ==> network_key_error(key) == Some(m@),
{
    let len = key.as_bytes().len();
    if len != NETWORK_KEY_LENGTH {
        return Err(length_message(len));
    }
    let ghost chars = key@;
    proof {
        lemma_encode_utf8_len(key@);
    }
    let mut i: usize = 0;
    for c in it: key.chars()
        invariant
            it.seq() == key@,
            i == it.index(),
            forall|j: int| 0 <= j < i ==> key_char_ok(#[trigger] chars[j]),
            chars == key@,
            key@.len() <= NETWORK_KEY_LENGTH,
            encode_utf8(key@).len() == NETWORK_KEY_LENGTH,
    {
        let code = c as u32;
        if code >= 128 || !in_key_charset(code as u8) {
            let mut s = String::new();
            push_str(&mut s, "Invalid character at position ");
            push_decimal(&mut s, i as u64);
            push_str(&mut s, ": '");
            push_char(&mut s, c);
            push_str(&mut s, "'");
            proof {
                assert(!key_char_ok(chars[i as int]));
                assert(has_bad_char(chars));
                assert(0 <= i < chars.len() && !key_char_ok(chars[i as int]) && forall|j: int|
                    0 <= j < i ==> key_char_ok(chars[j]));
                let f = first_bad_char(chars);
                if f < i {
                    assert(key_char_ok(chars[f]));
                }
                if f > i {
                    assert(key_char_ok(chars[i as int]));
                }
                assert(f == i as int);
                assert(s@ == "Invalid character at position "@ + decimal_spec(i as nat) + ": '"@
                    + seq![chars[f]] + "'"@);
            }
            return Err(s);
        }
        i = i + 1;
    }
    assert(!has_bad_char(key@));
    let mut seen: Vec<char> = Vec::new();
    let mut k: usize = 0;
    for c in it: key.chars()
        invariant
            it.seq() == key@,
            k == it.index(),
            seen@.no_duplicates(),
            seen@.to_set() == key@.take(k as int).to_set(),
            seen@.len() < MIN_UNIQUE_CHARS,
            key@.len() <= NETWORK_KEY_LENGTH,
            encode_utf8(key@).len() == NETWORK_KEY_LENGTH,
            !has_bad_char(key@),
    {
        proof {
            assert(key@.take(k + 1) =~= key@.take(k as int).push(c));
        }
        if !contains_char(&seen, c) {
            proof {
                lemma_push_to_set(seen@, c);
                lemma_push_to_set(key@.take(k as int), c);
            }
            seen.push(c);
            if seen.len() == MIN_UNIQUE_CHARS {
                proof {
                    seen@.unique_seq_to_set();
                    assert(key@.take(k + 1).to_set().subset_of(key@.to_set()));
                    vstd::set_lib::lemma_len_subset(key@.take(k + 1).to_set(), key@.to_set());
                }
                return Ok(());
            }
        } else {
            proof {
                lemma_push_to_set(key@.take(k as int), c);
                assert(seen@.to_set().contains(c));
                assert(key@.take(k as int).to_set().insert(c) =~= key@.take(k as int).to_set());
            }
        }
        k = k + 1;
    }
    proof {
        assert(key@.take(key@.len() as int) =~= key@);
        seen@.unique_seq_to_set();
    }
    let mut s = String::new();
    push_str(&mut s, "Insufficient entropy: only ");
    push_decimal(&mut s, seen.len() as u64);
    push_str(&mut s, " unique characters");
    Err(s)
}

/// A key with no character outside the alphabet is ASCII, so each of its
/// bytes is a character and any byte is a character boundary.
proof fn lemma_valid_key_ascii(s: Seq<char>)
    requires
        !has_bad_char(s),
    ensures
        vstd::utf8::is_ascii_chars(s),
        encode_utf8(s).len() == s.len(),
        forall|i: int| 0 <= i < s.len() ==> is_char_boundary(encode_utf8(s), i),
{
    assert forall|i: int| 0 <= i < s.len() implies '\0' <= #[trigger] s[i] <= '\u{7f}' by {
        if !key_char_ok(s[i]) {
            assert(has_bad_char(s));
        }
        assert((s[i] as u32) < 128);
        let b = (s[i] as u32) as u8;
        vstd::utf8::char_u32_cast(s[i], s[i] as u32);
        assert(s[i] == (b as u32) as char);
        assert(s[i] == b as char);
    }
    vstd::utf8::is_ascii_chars_encode_utf8(s);
    let bytes = encode_utf8(s);
    encode_utf8_valid_utf8(s);
    assert forall|i: int| 0 <= i < s.len() implies is_char_boundary(encode_utf8(s), i) by {
        vstd::utf8::is_char_boundary_iff_not_is_continuation_byte(bytes, i);
        assert(s[i] as u8 == bytes[i]);
        if !key_char_ok(s[i]) {
            assert(has_bad_char(s));
        }
        assert((s[i] as u32) < 128);
    }
}

/// Splits a valid key into its portions: the first 2000 characters and the
/// rest; an invalid key gives the validation's error.
pub fn parse_network_key(key: &str) -> (r: Result<NetworkKey, String>)
    ensures
        r is Ok <==> network_key_error(key) is None,
        r matches Err(m) ==> network_key_error(key) == Some(m@),
        r matches Ok(k) ==> {
            &&& k.full_key@ == key@
            &&& k.zkp_portion@ == key@.take(ZKP_PORTION_LENGTH as int)
            &&& k.auth_portion@ == key@.skip(ZKP_PORTION_LENGTH as int)
            &&& encode_utf8(k.zkp_portion@).len() == ZKP_PORTION_LENGTH
            &&& encode_utf8(k.auth_portion@).len() == AUTH_PORTION_LENGTH
        },
{
    match validate_network_key(key) {
        Err(e) => Err(e),
        Ok(()) => {
            proof {
                lemma_valid_key_ascii(key@);
            }
            let (zkp, auth) = key.split_at(ZKP_PORTION_LENGTH);
            proof {
                let bytes = encode_utf8(key@);
                encode_utf8_valid_utf8(key@);
                encode_utf8_decode_utf8(key@);
                encode_utf8_decode_utf8(zkp@);
                encode_utf8_decode_utf8(auth@);
                decode_utf8_split(bytes, 2000);
                assert(zkp@ == decode_utf8(bytes.subrange(0, 2000)));
                assert(auth@ == decode_utf8(bytes.subrange(2000, bytes.len() as int)));
                vstd::utf8::is_ascii_chars_concat(key@, zkp@, auth@);
                vstd::utf8::is_ascii_chars_encode_utf8(zkp@);
                assert(zkp@ =~= key@.take(ZKP_PORTION_LENGTH as int));
                assert(auth@ =~= key@.skip(ZKP_PORTION_LENGTH as int));
            }
            Ok(NetworkKey { full_key: key.to_owned(), zkp_portion: zkp.to_owned(), auth_portion: auth.to_owned() })
        },
    }
}

/// Block `k` of the subkey stream: the SHA3-256 of the auth portion and the
/// index for the first, then of the previous block and the number of bytes
/// produced so far (little-endian, modulo 2^32).
#[verifier::opaque]
pub open spec fn subkey_block(auth: Seq<u8>, index: u32, k: nat) -> Seq<u8>
    decreases k,
{
    if k == 0 {
        spec_sha3_256(auth + le32(index))
    } else {
        spec_sha3_256(subkey_block(auth, index, (k - 1) as nat) + le32((32 * k) as u32))
    }
}

/// The first `n` blocks of the subkey stream, concatenated.
#[verifier::opaque]
pub open spec fn subkey_stream(auth: Seq<u8>, index: u32, n: nat) -> Seq<u8>
    decreases n,
{
    if n == 0 {
        Seq::empty()
    } else {
        subkey_stream(auth, index, (n - 1) as nat) + subkey_block(auth, index, (n - 1) as nat)
    }
}

/// The subkey of `length` bytes for `index`.
pub open spec fn derived_subkey(auth: Seq<u8>, index: u32, length: nat) -> Seq<u8> {
    subkey_stream(auth, index, ((length + 31) / 32) as nat).take(length as int)
}

proof fn lemma_subkey_step(auth: Seq<u8>, index: u32, k: nat)
    ensures
        subkey_stream(auth, index, k + 1) == subkey_stream(auth, index, k) + subkey_block(
            auth,
            index,
            k,
        ),
        subkey_block(auth, index, k + 1) == spec_sha3_256(
            subkey_block(auth, index, k) + le32((32 * (k + 1)) as u32),
        ),
        subkey_block(auth, index, 0) == spec_sha3_256(auth + le32(index)),
        subkey_stream(auth, index, 0) == Seq::<u8>::empty(),
{
    reveal(subkey_block);
    reveal(subkey_stream);
    assert(subkey_stream(auth, index, 0) =~= Seq::<u8>::empty());
}

impl NetworkKey {
    /// Derives `length` bytes from the auth portion for `index`: the first
    /// `length` bytes of the chained SHA3-256 stream.
    pub fn derive_subkey(&self, index: u32, length: usize) -> (r: Vec<u8>)
        ensures
            r@ == derived_subkey(encode_utf8(self.auth_portion@), index, length as nat),
            r@.len() == length,
    {
        let auth = self.auth_portion.as_str().as_bytes();
        let ghost a = encode_utf8(self.auth_portion@);
        let mut input: Vec<u8> = Vec::new();
        extend_bytes(&mut input, auth);
        extend_bytes(&mut input, &u32_le(index));
        let hash = sha3_256(input.as_slice());
        proof {
            lemma_subkey_step(a, index, 0);
        }
        if length <= 32 {
            let mut out: Vec<u8> = Vec::new();
            extend_bytes(&mut out, &hash);
            out.truncate(length);
            proof {
                if length == 0 {
                    assert(out@ =~= derived_subkey(a, index, 0));
                } else {
                    assert(subkey_stream(a, index, 1) =~= hash@);
                }
            }
            return out;
        }
        let mut result: Vec<u8> = Vec::new();
        let mut current: [u8; 32] = hash;
        let ghost mut k: nat = 0;
        while result.len() < length
            invariant
                result@ == subkey_stream(a, index, k),
                result@.len() == 32 * k,
                current@ == subkey_block(a, index, k),
                a == encode_utf8(self.auth_portion@),
                32 * k < length + 32,
            decreases length + 32 - result.len(),
        {
            let ghost prev = result@;
            extend_bytes(&mut result, &current);
            let produced = result.len();
            let mut next_input: Vec<u8> = Vec::new();
            extend_bytes(&mut next_input, &current);
            extend_bytes(&mut next_input, &u32_le(#[verifier::truncate] (produced as u32)));
            let ghost prev_block = current@;
            current = sha3_256(next_input.as_slice());
            proof {
                lemma_subkey_step(a, index, k);
                assert(result@ == prev + prev_block);
                assert(produced == 32 * (k + 1));
                k = k + 1;
            }
        }
        proof {
            assert(k == (length as nat + 31) / 32);
        }
        result.truncate(length);
        result
    }
}

/// The key whose `i`-th character is picked by `words[i]`.
pub open spec fn key_from_words(words: Seq<u32>) -> Seq<char> {
    words.map_values(|w: u32| key_charset()[(w % 88) as int] as char)
}

/// Builds the key that the random words pick: character `i` is
/// `key_charset()[words[i] % 88]`; the first 2000 characters are the
/// zero-knowledge portion and the rest the auth portion.
pub fn network_key_from_words(words: &[u32]) -> (r: NetworkKey)
    requires
        words@.len() == NETWORK_KEY_LENGTH,
    ensures
        r.full_key@ == key_from_words(words@),
        r.zkp_portion@ == key_from_words(words@).take(ZKP_PORTION_LENGTH as int),
        r.auth_portion@ == key_from_words(words@).skip(ZKP_PORTION_LENGTH as int),
{
    let mut full_key = String::new();
    let mut zkp_portion = String::new();
    let mut auth_portion = String::new();
    let ghost target = key_from_words(words@);
    let mut i: usize = 0;
    while i < NETWORK_KEY_LENGTH
        invariant
            i <= NETWORK_KEY_LENGTH,
            words@.len() == NETWORK_KEY_LENGTH,
            target == key_from_words(words@),
            full_key@ == target.take(i as int),
            i <= ZKP_PORTION_LENGTH ==> zkp_portion@ == target.take(i as int),
            i <= ZKP_PORTION_LENGTH ==> auth_portion@.len() == 0,
            i > ZKP_PORTION_LENGTH ==> zkp_portion@ == target.take(ZKP_PORTION_LENGTH as int),
            i > ZKP_PORTION_LENGTH ==> auth_portion@ == target.subrange(
                ZKP_PORTION_LENGTH as int,
                i as int,
            ),
        decreases NETWORK_KEY_LENGTH - i,
    {
        let c = key_charset_at((words[i] % 88) as usize) as char;
        assert(c == target[i as int]);
        push_char(&mut full_key, c);
        if i < ZKP_PORTION_LENGTH {
            push_char(&mut zkp_portion, c);
        } else {
            push_char(&mut auth_portion, c);
        }
        assert(target.take(i + 1) =~= target.take(i as int).push(c));
        if i >= ZKP_PORTION_LENGTH {
            assert(target.subrange(ZKP_PORTION_LENGTH as int, i + 1) =~= target.subrange(
                ZKP_PORTION_LENGTH as int,
                i as int,
            ).push(c));
        }
        i = i + 1;
    }
    assert(target.take(NETWORK_KEY_LENGTH as int) =~= target);
    assert(target.subrange(ZKP_PORTION_LENGTH as int, NETWORK_KEY_LENGTH as int) =~= target.skip(
        ZKP_PORTION_LENGTH as int,
    ));
    NetworkKey { full_key, zkp_portion, auth_portion }
}

/// A fresh key from 20000 words of the operating system's generator. Whatever
/// the words, each character is from the key alphabet and the two portions
/// make up the key.
pub fn generate_network_key() -> (r: Result<NetworkKey, String>)
    ensures
        r matches Ok(k) && exists|words: Seq<u32>|
            #![trigger key_from_words(words)]
            words.len() == NETWORK_KEY_LENGTH && k.full_key@ == key_from_words(words)
                && k.zkp_portion@ == key_from_words(words).take(ZKP_PORTION_LENGTH as int)
                && k.auth_portion@ == key_from_words(words).skip(ZKP_PORTION_LENGTH as int),
{
    let mut words: Vec<u32> = Vec::new();
    let mut i: usize = 0;
    while i < NETWORK_KEY_LENGTH
        invariant
            i <= NETWORK_KEY_LENGTH,
            words@.len() == i,
        decreases NETWORK_KEY_LENGTH - i,
    {
        words.push(random_u32());
        i = i + 1;
    }
    let k = network_key_from_words(words.as_slice());
    Ok(k)
}

proof fn lemma_key_charset_ascii(j: int)
    requires
        0 <= j < 88,
    ensures
        key_charset()[j] < 128,
        key_charset().contains(key_charset()[j]),
{
    let cs = key_charset();
    assert(cs.len() == 88);
    if j < 26 {
        assert(cs[j] == upper_letters()[j]);
    } else if j < 52 {
        assert(cs[j] == lower_letters()[j - 26]);
    } else if j < 62 {
        assert(cs[j] == digit_chars()[j - 52]);
    } else {
        assert(cs[j] == symbol_chars()[j - 62]);
    }
}

proof fn lemma_key_from_words_ascii(words: Seq<u32>)
    ensures
        vstd::utf8::is_ascii_chars(key_from_words(words)),
        forall|i: int|
            0 <= i < words.len() ==> key_char_ok(#[trigger] key_from_words(words)[i]),
{
    let k = key_from_words(words);
    assert forall|i: int| 0 <= i < k.len() implies '\0' <= #[trigger] k[i] <= '\u{7f}' && key_char_ok(
        k[i],
    ) by {
        let j = (words[i] % 88) as int;
        lemma_key_charset_ascii(j);
        let b = key_charset()[j];
        assert(k[i] == b as char);
        assert(((b as char) as u32) == b as u32);
        assert((((b as char) as u32)) as u8 == b);
    }
}

/// Every key built from random words is 20000 bytes long and passes the
/// character check, and the cut between its portions falls between two
/// characters: its validation can fail only for want of distinct characters.
pub proof fn lemma_generated_key_checks(words: Seq<u32>, key: &str)
    requires
        words.len() == NETWORK_KEY_LENGTH,
        key@ == key_from_words(words),
    ensures
        encode_utf8(key@).len() == NETWORK_KEY_LENGTH,
        !has_bad_char(key@),
        is_char_boundary(encode_utf8(key@), ZKP_PORTION_LENGTH as int),
        network_key_error(key) is None <==> key@.to_set().len() >= MIN_UNIQUE_CHARS,
{
    let k = key@;
    lemma_key_from_words_ascii(words);
    vstd::utf8::is_ascii_chars_encode_utf8(k);
    let bytes = encode_utf8(k);
    encode_utf8_valid_utf8(k);
    vstd::utf8::is_char_boundary_iff_not_is_continuation_byte(bytes, ZKP_PORTION_LENGTH as int);
    assert(k[ZKP_PORTION_LENGTH as int] as u8 == bytes[ZKP_PORTION_LENGTH as int]);
    assert(!vstd::utf8::is_continuation_byte(bytes[ZKP_PORTION_LENGTH as int]));
    assert(!has_bad_char(k)) by {
        if has_bad_char(k) {
            let i = choose|i: int| 0 <= i < k.len() && !key_char_ok(#[trigger] k[i]);
            assert(key_char_ok(k[i]));
        }
    }
}

/// Parsing a key built from random words gives back the two portions it was
/// built with: the first 2000 characters and the rest.
pub proof fn lemma_parse_generated_key(words: Seq<u32>, zkp: Seq<char>, auth: Seq<char>)
    requires
        words.len() == NETWORK_KEY_LENGTH,
        zkp + auth == key_from_words(words),
        encode_utf8(zkp).len() == ZKP_PORTION_LENGTH,
    ensures
        zkp == key_from_words(words).take(ZKP_PORTION_LENGTH as int),
        auth == key_from_words(words).skip(ZKP_PORTION_LENGTH as int),
{
    let k = key_from_words(words);
    lemma_key_from_words_ascii(words);
    assert(vstd::utf8::is_ascii_chars(zkp)) by {
        assert forall|i: int| 0 <= i < zkp.len() implies '\0' <= #[trigger] zkp[i] <= '\u{7f}' by {
            assert(zkp[i] == k[i]);
        }
    }
    vstd::utf8::is_ascii_chars_encode_utf8(zkp);
    assert(zkp =~= k.take(ZKP_PORTION_LENGTH as int));
    assert(auth =~= k.skip(ZKP_PORTION_LENGTH as int));
}

} // verus!
