//! Entropy chunks for key generation: pointer movements, the operating
//! system's generator and the browser's generator are hashed into a seed for
//! ChaCha20, whose words pick characters.
use vstd::prelude::*;

use crate::bytes::{extend_bytes, le32, le64, opt_bytes, u32_le, u64_le};
use crate::crypto::{
    chacha20_words, random_bytes_32, sha256, spec_chacha20_words, spec_sha256,
};
use crate::network_key::{chunk_charset, chunk_charset_at};
use crate::text::{push_char, push_str};

verus! {

/// A pointer sample: position and time stamp.
#[derive(Debug, Clone, Copy)]
pub struct Point {
    pub x: i32,
    pub y: i32,
    pub t: i64,
}

/// The 16 bytes of a sample: x, y (little-endian 32-bit) and t (64-bit).
pub open spec fn point_bytes(p: Point) -> Seq<u8> {
    le32(p.x as u32) + le32(p.y as u32) + le64(p.t as u64)
}

/// The bytes of all samples, in order.
pub open spec fn mouse_bytes(points: Seq<Point>) -> Seq<u8>
    decreases points.len(),
{
    if points.len() == 0 {
        Seq::empty()
    } else {
        mouse_bytes(points.drop_last()) + point_bytes(points.last())
    }
}

/// The text that the words pick, one character per word.
pub open spec fn chunk_text(words: Seq<u32>) -> Seq<char> {
    words.map_values(|w: u32| chunk_charset()[(w % 88) as int] as char)
}

/// The seed: SHA-256 of the pointer bytes, the OS entropy and, when given,
/// the browser entropy.
pub open spec fn chunk_seed(points: Seq<Point>, os_entropy: Seq<u8>, browser: Option<Seq<u8>>) -> Seq<u8> {
    match browser {
        Some(b) => spec_sha256(mouse_bytes(points) + os_entropy + b),
        None => spec_sha256(mouse_bytes(points) + os_entropy),
    }
}

/// The chunk of `n` characters for the given entropy sources.
pub open spec fn entropy_chunk(
    points: Seq<Point>,
    os_entropy: Seq<u8>,
    browser: Option<Seq<u8>>,
    n: nat,
) -> Seq<char> {
    chunk_text(spec_chacha20_words(chunk_seed(points, os_entropy, browser), n))
}

/// The character for each word, in order.
pub fn chunk_from_words(words: &[u32]) -> (r: String)
    ensures
        r@ == chunk_text(words@),
{
    let mut s = String::new();
    let mut i: usize = 0;
    while i < words.len()
        invariant
            i <= words.len(),
            s@ == chunk_text(words@).take(i as int),
        decreases words.len() - i,
    {
        let c = chunk_charset_at((words[i] % 88) as usize) as char;
        push_char(&mut s, c);
        assert(chunk_text(words@).take(i + 1) =~= chunk_text(words@).take(i as int).push(c));
        i = i + 1;
    }
    assert(chunk_text(words@).take(words.len() as int) =~= chunk_text(words@));
    s
}

/// The bytes of the pointer samples.
pub fn collect_mouse_bytes(points: &[Point]) -> (r: Vec<u8>)
    ensures
        r@ == mouse_bytes(points@),
{
    let mut out: Vec<u8> = Vec::new();
    let mut i: usize = 0;
    while i < points.len()
        invariant
            i <= points.len(),
            out@ == mouse_bytes(points@.take(i as int)),
        decreases points.len() - i,
    {
        let p = points[i];
        extend_bytes(&mut out, &u32_le(p.x as u32));
        extend_bytes(&mut out, &u32_le(p.y as u32));
        extend_bytes(&mut out, &u64_le(p.t as u64));
        assert(points@.take(i + 1).drop_last() =~= points@.take(i as int));
        i = i + 1;
    }
    assert(points@.take(points.len() as int) =~= points@);
    out
}

/// The chunk of `chunk_size` characters for the given samples, OS entropy and
/// browser entropy.
pub fn chunk_from_entropy(
    points: &[Point],
    os_entropy: &[u8; 32],
    browser_entropy: &Option<Vec<u8>>,
    chunk_size: usize,
) -> (r: String)
    ensures
        r@ == entropy_chunk(
            points@,
            os_entropy@,
            opt_bytes(*browser_entropy),
            chunk_size as nat,
        ),
{
    let mut material = collect_mouse_bytes(points);
    extend_bytes(&mut material, os_entropy);
    match browser_entropy {
        Some(extra) => extend_bytes(&mut material, extra.as_slice()),
        None => {},
    }
    let seed = sha256(material.as_slice());
    let words = chacha20_words(seed, chunk_size);
    chunk_from_words(words.as_slice())
}

/// A chunk of random characters mixed from the pointer samples, 32 bytes of
/// the operating system's generator and the browser's entropy. Fails on a
/// chunk size of zero.
pub fn generate_random_string_chunk(
    points: Vec<Point>,
    chunk_size: usize,
    browser_entropy: Option<Vec<u8>>,
) -> (r: Result<String, String>)
    ensures
        chunk_size == 0 ==> (r matches Err(m) && m@ == "chunk_size must be > 0"@),
        chunk_size > 0 ==> (r matches Ok(s) && exists|os: Seq<u8>|
            #![trigger entropy_chunk(points@, os, opt_bytes(browser_entropy), chunk_size as nat)]
            os.len() == 32 && s@ == entropy_chunk(
                points@,
                os,
                opt_bytes(browser_entropy),
                chunk_size as nat,
            )),
{
    if chunk_size == 0 {
        let mut m = String::new();
        push_str(&mut m, "chunk_size must be > 0");
        return Err(m);
    }
    let os_entropy = random_bytes_32();
    let s = chunk_from_entropy(points.as_slice(), &os_entropy, &browser_entropy, chunk_size);
    assert(entropy_chunk(points@, os_entropy@, opt_bytes(browser_entropy), chunk_size as nat)
        == s@);
    Ok(s)
}

} // verus!
