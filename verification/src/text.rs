//! Text helpers: building strings, hexadecimal and decimal renderings.
use vstd::prelude::*;

verus! {

/// `String::push`: appends one character.
#[verifier::external_body]
pub(crate) fn push_char(s: &mut String, c: char)
    ensures
        final(s)@ == old(s)@.push(c),
{
    s.push(c);
}

/// `String::push_str`: appends a string slice.
#[verifier::external_body]
pub(crate) fn push_str(s: &mut String, t: &str)
    ensures
        final(s)@ == old(s)@ + t@,
{
    s.push_str(t);
}

/// Lower-case hexadecimal digit of a nibble.
pub open spec fn hex_digit(n: int) -> char {
    if n < 10 {
        (48 + n) as char
    } else {
        (87 + n) as char
    }
}

/// Lower-case hexadecimal rendering, two digits per byte.
pub open spec fn hex_spec(bytes: Seq<u8>) -> Seq<char>
    decreases bytes.len(),
{
    if bytes.len() == 0 {
        Seq::empty()
    } else {
        hex_spec(bytes.drop_last()) + seq![
            hex_digit((bytes.last() / 16) as int),
            hex_digit((bytes.last() % 16) as int),
        ]
    }
}

pub proof fn lemma_hex_spec_len(bytes: Seq<u8>)
    ensures
        hex_spec(bytes).len() == 2 * bytes.len(),
    decreases bytes.len(),
{
    if bytes.len() > 0 {
        lemma_hex_spec_len(bytes.drop_last());
    }
}

fn hex_char(n: u8) -> (c: char)
    requires
        n < 16,
    ensures
        c == hex_digit(n as int),
{
    if n < 10 {
        (48 + n) as char
    } else {
        (87 + n) as char
    }
}

/// Appends the lower-case hexadecimal rendering of `bytes`.
pub fn push_hex(s: &mut String, bytes: &[u8])
    ensures
        final(s)@ == old(s)@ + hex_spec(bytes@),
{
    let mut i: usize = 0;
    while i < bytes.len()
        invariant
            i <= bytes.len(),
            s@ == old(s)@ + hex_spec(bytes@.take(i as int)),
        decreases bytes.len() - i,
    {
        let b = bytes[i];
        push_char(s, hex_char(b / 16));
        push_char(s, hex_char(b % 16));
        assert(bytes@.take(i + 1).drop_last() =~= bytes@.take(i as int));
        i = i + 1;
    }
    assert(bytes@.take(bytes.len() as int) =~= bytes@);
}

/// Lower-case hexadecimal rendering of `bytes` (what `hex::encode` gives).
pub fn hex_encode(bytes: &[u8]) -> (r: String)
    ensures
        r@ == hex_spec(bytes@),
{
    let mut s = String::new();
    push_hex(&mut s, bytes);
    s
}

/// Decimal digit character.
pub open spec fn decimal_digit(n: int) -> char {
    (48 + n) as char
}

/// Decimal rendering of a natural number, without leading zeros.
pub open spec fn decimal_spec(n: nat) -> Seq<char>
    decreases n,
{
    if n < 10 {
        seq![decimal_digit(n as int)]
    } else {
        decimal_spec(n / 10).push(decimal_digit((n % 10) as int))
    }
}

/// Appends the decimal rendering of `n`.
pub fn push_decimal(s: &mut String, n: u64)
    ensures
        final(s)@ == old(s)@ + decimal_spec(n as nat),
    decreases n,
{
    if n >= 10 {
        push_decimal(s, n / 10);
    }
    let d = (n % 10) as u8;
    push_char(s, (48 + d) as char);
    assert(s@ == old(s)@ + decimal_spec(n as nat));
}

/// Why a hexadecimal string could not be decoded.
#[derive(Debug, Clone, Copy, PartialEq, Eq, Structural)]
pub enum HexDecodeError {
    /// The byte at `index` is not a hexadecimal digit.
    InvalidHexCharacter { c: u8, index: usize },
    /// The string has an odd number of bytes.
    OddLength,
}

/// Value of a hexadecimal digit (either case).
pub open spec fn hex_value(c: u8) -> Option<u8> {
    if 48 <= c <= 57 {
        Some((c - 48) as u8)
    } else if 65 <= c <= 70 {
        Some((c - 55) as u8)
    } else if 97 <= c <= 102 {
        Some((c - 87) as u8)
    } else {
        None
    }
}

/// Whether some byte of `s` is not a hexadecimal digit.
pub open spec fn has_non_hex(s: Seq<u8>) -> bool {
    exists|i: int| 0 <= i < s.len() && #[trigger] hex_value(s[i]) is None
}

/// Index of the first byte of `s` that is not a hexadecimal digit.
pub open spec fn first_non_hex(s: Seq<u8>) -> int {
    choose|i: int|
        0 <= i < s.len() && hex_value(s[i]) is None && forall|j: int|
            0 <= j < i ==> hex_value(s[j]) is Some
}

/// The bytes that a string of hexadecimal digits stands for, two digits each.
pub open spec fn hex_bytes(s: Seq<u8>) -> Seq<u8> {
    Seq::new(
        s.len() / 2,
        |i: int| (hex_value(s[2 * i])->0 * 16 + hex_value(s[2 * i + 1])->0) as u8,
    )
}

/// Decoding of a hexadecimal string given as bytes: an odd length is refused
/// first, then the first byte that is not a digit.
pub open spec fn hex_decode_spec(s: Seq<u8>) -> Result<Seq<u8>, HexDecodeError> {
    if s.len() % 2 != 0 {
        Err(HexDecodeError::OddLength)
    } else if has_non_hex(s) {
        Err(
            HexDecodeError::InvalidHexCharacter {
                c: s[first_non_hex(s)],
                index: first_non_hex(s) as usize,
            },
        )
    } else {
        Ok(hex_bytes(s))
    }
}

fn hex_digit_value(c: u8) -> (r: Option<u8>)
    ensures
        r == hex_value(c),
{
    if 48 <= c && c <= 57 {
        Some(c - 48)
    } else if 65 <= c && c <= 70 {
        Some(c - 55)
    } else if 97 <= c && c <= 102 {
        Some(c - 87)
    } else {
        None
    }
}

/// Decodes hexadecimal text (what `hex::decode` does).
pub fn hex_decode(s: &str) -> (r: Result<Vec<u8>, HexDecodeError>)
    ensures
        match r {
            Ok(v) => hex_decode_spec(vstd::utf8::encode_utf8(s@)) == Ok::<Seq<u8>, HexDecodeError>(v@),
            Err(e) => hex_decode_spec(vstd::utf8::encode_utf8(s@)) == Err::<Seq<u8>, HexDecodeError>(e),
        },
{
    hex_decode_bytes(s.as_bytes())
}

/// Decodes hexadecimal text given as bytes.
pub fn hex_decode_bytes(b: &[u8]) -> (r: Result<Vec<u8>, HexDecodeError>)
    ensures
        match r {
            Ok(v) => hex_decode_spec(b@) == Ok::<Seq<u8>, HexDecodeError>(v@),
            Err(e) => hex_decode_spec(b@) == Err::<Seq<u8>, HexDecodeError>(e),
        },
{
    if b.len() % 2 != 0 {
        return Err(HexDecodeError::OddLength);
    }
    let mut out: Vec<u8> = Vec::new();
    let mut i: usize = 0;
    while i < b.len()
        invariant
            b@.len() % 2 == 0,
            i % 2 == 0,
            i <= b@.len(),
            out@.len() == i / 2,
            forall|j: int| 0 <= j < i ==> #[trigger] hex_value(b@[j]) is Some,
            forall|k: int| 0 <= k < out@.len() ==> out@[k] == hex_bytes(b@)[k],
        decreases b.len() - i,
    {
        let hi = hex_digit_value(b[i]);
        if hi.is_none() {
            proof {
                assert(hex_value(b@[i as int]) is None);
                assert(has_non_hex(b@));
                let f = first_non_hex(b@);
                assert(0 <= i < b@.len() && hex_value(b@[i as int]) is None && forall|j: int|
                    0 <= j < i ==> hex_value(b@[j]) is Some);
                if f < i {
                    assert(hex_value(b@[f]) is Some);
                }
                if f > i {
                    assert(hex_value(b@[i as int]) is Some);
                }
            }
            return Err(HexDecodeError::InvalidHexCharacter { c: b[i], index: i });
        }
        let lo = hex_digit_value(b[i + 1]);
        if lo.is_none() {
            proof {
                let k = i + 1;
                assert(hex_value(b@[k as int]) is None);
                assert(has_non_hex(b@));
                let f = first_non_hex(b@);
                assert(0 <= k < b@.len() && hex_value(b@[k as int]) is None && forall|j: int|
                    0 <= j < k ==> hex_value(b@[j]) is Some);
                if f < k {
                    assert(hex_value(b@[f]) is Some);
                }
                if f > k {
                    assert(hex_value(b@[k as int]) is Some);
                }
            }
            return Err(HexDecodeError::InvalidHexCharacter { c: b[i + 1], index: i + 1 });
        }
        let h = hi.unwrap();
        let l = lo.unwrap();
        out.push(h * 16 + l);
        proof {
            assert(b@[2 * (i / 2) as int] == b@[i as int]);
        }
        i = i + 2;
    }
    proof {
        assert(!has_non_hex(b@));
        assert(out@ =~= hex_bytes(b@));
    }
    Ok(out)
}

/// Whether two strings are equal (compared byte by byte).
pub fn str_eq(a: &str, b: &str) -> (r: bool)
    ensures
        r == (a@ == b@),
{
    let r = crate::bytes::bytes_eq(a.as_bytes(), b.as_bytes());
    proof {
        vstd::utf8::encode_utf8_decode_utf8(a@);
        vstd::utf8::encode_utf8_decode_utf8(b@);
    }
    r
}

proof fn lemma_hex_spec_index(b: Seq<u8>, i: int)
    requires
        0 <= i < b.len(),
    ensures
        hex_spec(b).len() == 2 * b.len(),
        hex_spec(b)[2 * i] == hex_digit((b[i] / 16) as int),
        hex_spec(b)[2 * i + 1] == hex_digit((b[i] % 16) as int),
    decreases b.len(),
{
    lemma_hex_spec_len(b);
    lemma_hex_spec_len(b.drop_last());
    if i < b.len() - 1 {
        lemma_hex_spec_index(b.drop_last(), i);
    }
}

proof fn lemma_hex_digit_value(n: int)
    requires
        0 <= n < 16,
    ensures
        '\0' <= hex_digit(n) <= '\u{7f}',
        hex_value(hex_digit(n) as u8) == Some(n as u8),
{
}

/// Decoding the hexadecimal text of some bytes gives those bytes back.
pub proof fn lemma_hex_roundtrip(b: Seq<u8>)
    ensures
        hex_decode_spec(vstd::utf8::encode_utf8(hex_spec(b))) == Ok::<Seq<u8>, HexDecodeError>(b),
{
    let h = hex_spec(b);
    lemma_hex_spec_len(b);
    assert forall|k: int| 0 <= k < h.len() implies '\0' <= #[trigger] h[k] <= '\u{7f}'
        && hex_value(h[k] as u8) is Some by {
        let i = k / 2;
        lemma_hex_spec_index(b, i);
        if k % 2 == 0 {
            assert(k == 2 * i);
            lemma_hex_digit_value((b[i] / 16) as int);
        } else {
            assert(k == 2 * i + 1);
            lemma_hex_digit_value((b[i] % 16) as int);
        }
    }
    assert(vstd::utf8::is_ascii_chars(h));
    vstd::utf8::is_ascii_chars_encode_utf8(h);
    let bytes = vstd::utf8::encode_utf8(h);
    assert(bytes.len() % 2 == 0);
    assert(!has_non_hex(bytes)) by {
        assert forall|k: int| 0 <= k < bytes.len() implies #[trigger] hex_value(bytes[k]) is Some by {
            assert(h[k] as u8 == bytes[k]);
        }
    }
    assert forall|i: int| 0 <= i < b.len() implies #[trigger] hex_bytes(bytes)[i] == b[i] by {
        lemma_hex_spec_index(b, i);
        lemma_hex_digit_value((b[i] / 16) as int);
        lemma_hex_digit_value((b[i] % 16) as int);
        assert(h[2 * i] as u8 == bytes[2 * i]);
        assert(h[2 * i + 1] as u8 == bytes[2 * i + 1]);
    }
    assert(hex_bytes(bytes) =~= b);
}

/// Value of a string of decimal digits.
pub open spec fn digits_value(s: Seq<char>) -> nat
    decreases s.len(),
{
    if s.len() == 0 {
        0
    } else {
        digits_value(s.drop_last()) * 10 + ((s.last() as u32) - 48) as nat
    }
}

/// Whether every character of `s` is a decimal digit.
pub open spec fn all_digits(s: Seq<char>) -> bool {
    forall|i: int| 0 <= i < s.len() ==> '0' <= #[trigger] s[i] <= '9'
}

/// What `u64::from_str` reads: an optional `+`, then at least one digit,
/// with a value that fits in 64 bits.
pub open spec fn parse_u64_spec(s: Seq<char>) -> Option<u64> {
    let d = if s.len() > 0 && s[0] == '+' {
        s.drop_first()
    } else {
        s
    };
    if d.len() > 0 && all_digits(d) && digits_value(d) <= u64::MAX {
        Some(digits_value(d) as u64)
    } else {
        None
    }
}

proof fn lemma_digits_value_grows(s: Seq<char>, i: int)
    requires
        0 <= i <= s.len(),
        all_digits(s),
    ensures
        digits_value(s.take(i)) <= digits_value(s),
    decreases s.len() - i,
{
    if i < s.len() {
        lemma_digits_value_grows(s, i + 1);
        assert(s.take(i + 1).drop_last() =~= s.take(i));
    } else {
        assert(s.take(i) =~= s);
    }
}

/// Reads a decimal number (what `str::parse::<u64>` does).
pub fn parse_u64(s: &str) -> (r: Option<u64>)
    ensures
        r == parse_u64_spec(s@),
{
    let mut chars: Vec<char> = Vec::new();
    for c in it: s.chars()
        invariant
            it.seq() == s@,
            chars@ == s@.take(it.index()),
    {
        chars.push(c);
        assert(s@.take(it.index() + 1) =~= s@.take(it.index()).push(c));
    }
    assert(s@.take(s@.len() as int) =~= s@);
    assert(chars@ == s@);
    let mut start: usize = 0;
    if chars.len() > 0 && chars[0] == '+' {
        start = 1;
    }
    let ghost d = if s@.len() > 0 && s@[0] == '+' {
        s@.drop_first()
    } else {
        s@
    };
    assert(d =~= chars@.skip(start as int));
    if start >= chars.len() {
        return None;
    }
    let mut value: u64 = 0;
    let mut i: usize = start;
    while i < chars.len()
        invariant
            start <= i <= chars@.len(),
            d == chars@.skip(start as int),
            chars@ == s@,
            d == if s@.len() > 0 && s@[0] == '+' {
                s@.drop_first()
            } else {
                s@
            },
            all_digits(chars@.subrange(start as int, i as int)),
            value == digits_value(chars@.subrange(start as int, i as int)),
        decreases chars.len() - i,
    {
        let c = chars[i];
        assert(chars@.subrange(start as int, i + 1) =~= chars@.subrange(start as int, i as int).push(c));
        assert(chars@.subrange(start as int, i + 1).drop_last() =~= chars@.subrange(start as int, i as int));
        if !('0' <= c && c <= '9') {
            assert(d[i - start] == c);
            assert(!all_digits(d));
            return None;
        }
        let digit = (c as u32 - 48) as u64;
        if value > (u64::MAX - digit) / 10 {
            proof {
                let k = i + 1 - start;
                let sub = chars@.subrange(start as int, i + 1);
                assert(d.take(k) =~= sub);
                assert(digits_value(sub) == value * 10 + digit);
                assert(value * 10 + digit > u64::MAX) by (nonlinear_arith)
                    requires
                        value > (u64::MAX - digit) / 10,
                        digit <= 9,
                ;
                if all_digits(d) {
                    lemma_digits_value_grows(d, k);
                }
            }
            return None;
        }
        value = value * 10 + digit;
        i = i + 1;
    }
    assert(chars@.subrange(start as int, chars@.len() as int) =~= d);
    Some(value)
}

/// What `i64::from_str` reads: an optional sign, then at least one digit,
/// with a value in the range of `i64`.
pub open spec fn parse_i64_spec(s: Seq<char>) -> Option<i64> {
    let neg = s.len() > 0 && s[0] == '-';
    let d = if s.len() > 0 && (s[0] == '+' || s[0] == '-') {
        s.drop_first()
    } else {
        s
    };
    if d.len() > 0 && all_digits(d) {
        if neg && digits_value(d) <= 0x8000_0000_0000_0000 {
            Some((0 - digits_value(d)) as i64)
        } else if !neg && digits_value(d) <= 0x7fff_ffff_ffff_ffff {
            Some(digits_value(d) as i64)
        } else {
            None
        }
    } else {
        None
    }
}

/// Reads a signed decimal number (what `str::parse::<i64>` does).
pub fn parse_i64(s: &str) -> (r: Option<i64>)
    ensures
        r == parse_i64_spec(s@),
{
    let mut chars: Vec<char> = Vec::new();
    for c in it: s.chars()
        invariant
            it.seq() == s@,
            chars@ == s@.take(it.index()),
    {
        chars.push(c);
        assert(s@.take(it.index() + 1) =~= s@.take(it.index()).push(c));
    }
    assert(s@.take(s@.len() as int) =~= s@);
    assert(chars@ == s@);
    let neg = chars.len() > 0 && chars[0] == '-';
    let mut start: usize = 0;
    if chars.len() > 0 && (chars[0] == '+' || chars[0] == '-') {
        start = 1;
    }
    let ghost d = if s@.len() > 0 && (s@[0] == '+' || s@[0] == '-') {
        s@.drop_first()
    } else {
        s@
    };
    assert(d =~= chars@.skip(start as int));
    if start >= chars.len() {
        return None;
    }
    let limit: u64 = if neg {
        0x8000_0000_0000_0000
    } else {
        0x7fff_ffff_ffff_ffff
    };
    let mut value: u64 = 0;
    let mut i: usize = start;
    while i < chars.len()
        invariant
            start <= i <= chars@.len(),
            d == chars@.skip(start as int),
            chars@ == s@,
            d == if s@.len() > 0 && (s@[0] == '+' || s@[0] == '-') {
                s@.drop_first()
            } else {
                s@
            },
            all_digits(chars@.subrange(start as int, i as int)),
            value == digits_value(chars@.subrange(start as int, i as int)),
            value <= limit,
            neg == (s@.len() > 0 && s@[0] == '-'),
            limit == if neg {
                0x8000_0000_0000_0000u64
            } else {
                0x7fff_ffff_ffff_ffffu64
            },
        decreases chars.len() - i,
    {
        let c = chars[i];
        assert(chars@.subrange(start as int, i + 1) =~= chars@.subrange(start as int, i as int).push(c));
        assert(chars@.subrange(start as int, i + 1).drop_last() =~= chars@.subrange(start as int, i as int));
        if !('0' <= c && c <= '9') {
            assert(d[i - start] == c);
            assert(!all_digits(d));
            return None;
        }
        let digit = (c as u32 - 48) as u64;
        if value > (limit - digit) / 10 {
            proof {
                let k = i + 1 - start;
                let sub = chars@.subrange(start as int, i + 1);
                assert(d.take(k) =~= sub);
                assert(digits_value(sub) == value * 10 + digit);
                assert(value * 10 + digit > limit) by (nonlinear_arith)
                    requires
                        value > (limit - digit) / 10,
                        digit <= 9,
                        limit >= digit,
                ;
                if all_digits(d) {
                    lemma_digits_value_grows(d, k);
                }
            }
            return None;
        }
        assert(value * 10 + digit <= limit) by (nonlinear_arith)
            requires
                value <= (limit - digit) / 10,
                digit <= 9,
                limit >= digit,
        ;
        value = value * 10 + digit;
        i = i + 1;
    }
    assert(chars@.subrange(start as int, chars@.len() as int) =~= d);
    if neg {
        if value == 0x8000_0000_0000_0000 {
            Some(i64::MIN)
        } else {
            Some(0 - (value as i64))
        }
    } else {
        Some(value as i64)
    }
}

/// Decimal rendering of a signed number, with a leading `-` when negative.
pub open spec fn signed_decimal_spec(n: int) -> Seq<char> {
    if n < 0 {
        seq!['-'] + decimal_spec((0 - n) as nat)
    } else {
        decimal_spec(n as nat)
    }
}

/// Appends the decimal rendering of a signed number.
pub fn push_signed_decimal(s: &mut String, n: i64)
    ensures
        final(s)@ == old(s)@ + signed_decimal_spec(n as int),
{
    if n < 0 {
        push_char(s, '-');
        let m: u64 = if n == i64::MIN {
            0x8000_0000_0000_0000
        } else {
            (0 - n) as u64
        };
        push_decimal(s, m);
        assert(s@ =~= old(s)@ + signed_decimal_spec(n as int));
    } else {
        push_decimal(s, n as u64);
    }
}

} // verus!
