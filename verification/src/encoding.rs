//! Digests and JSON texts, as the `sha2` and `serde_json` crates make them.

use vstd::prelude::*;

use crate::text;

verus! {

// ---------------------------------------------------------------------------
// SHA-256

/// What `sha2::Sha256::digest` returns for these bytes.
pub uninterp spec fn sha256_of(bytes: Seq<u8>) -> Seq<u8>;

/// `sha2::Sha256::digest`.
///
/// Trusted: the digest is a function of the bytes alone and is 32 bytes long.
#[verifier::external_body]
pub(crate) fn sha256(bytes: &Vec<u8>) -> (r: Vec<u8>)
    ensures
        r@ == sha256_of(bytes@),
        r@.len() == 32,
{
    <sha2::Sha256 as sha2::Digest>::digest(bytes).to_vec()
}

pub open spec fn hex_digit(n: u8) -> char {
    if n < 10 {
        ((48 + n) as u8) as char
    } else {
        ((87 + n) as u8) as char
    }
}

/// The lower-case hexadecimal digits of bytes.
pub open spec fn hex(bytes: Seq<u8>) -> Seq<char> {
    Seq::new(
        2 * bytes.len(),
        |i: int|
            hex_digit(
                if i % 2 == 0 {
                    bytes[i / 2] / 16
                } else {
                    bytes[i / 2] % 16
                },
            ),
    )
}

fn hex_digit_char(n: u8) -> (r: char)
    requires
        n < 16,
    ensures
        r == hex_digit(n),
{
    if n < 10 {
        (48 + n) as char
    } else {
        (87 + n) as char
    }
}

pub fn hex_text(bytes: &Vec<u8>) -> (r: String)
    ensures
        r@ == hex(bytes@),
{
    let mut out: String = String::new();
    let mut i: usize = 0;
    while i < bytes.len()
        invariant
            i <= bytes@.len(),
            out@ =~= hex(bytes@).take(2 * i as int),
        decreases bytes.len() - i,
    {
        text::push_char(&mut out, hex_digit_char(bytes[i] / 16));
        text::push_char(&mut out, hex_digit_char(bytes[i] % 16));
        proof {
            assert((2 * i) / 2 == i && (2 * i) % 2 == 0);
            assert((2 * i + 1) / 2 == i && (2 * i + 1) % 2 == 1);
        }
        i += 1;
    }
    proof {
        assert(hex(bytes@).take(2 * bytes@.len() as int) =~= hex(bytes@));
    }
    out
}

/// The digest of bytes as hexadecimal text.
pub fn digest_text(bytes: &Vec<u8>) -> (r: String)
    ensures
        r@ == hex(sha256_of(bytes@)),
        r@.len() == 64,
{
    hex_text(&sha256(bytes))
}

pub open spec fn is_lower_hex(c: char) -> bool {
    '0' <= c <= '9' || 'a' <= c <= 'f'
}

/// Hexadecimal text holds nothing but small hexadecimal digits.
pub proof fn law_hex_is_lower_hex(bytes: Seq<u8>)
    ensures
        forall|i: int| 0 <= i < hex(bytes).len() ==> is_lower_hex(#[trigger] hex(bytes)[i]),
{
    assert forall|i: int| 0 <= i < hex(bytes).len() implies is_lower_hex(
        #[trigger] hex(bytes)[i],
    ) by {
        let n: u8 = if i % 2 == 0 { bytes[i / 2] / 16 } else { bytes[i / 2] % 16 };
        assert(n < 16);
    }
}

// ---------------------------------------------------------------------------
// JSON

/// The number that a digit stands for.
pub open spec fn digit_value(c: char) -> int {
    if '0' <= c && c <= '9' {
        c as u32 - 48
    } else {
        c as u32 - 87
    }
}

/// A byte is written with two digits, the more significant one first, and can be read back.
pub proof fn law_bytes_are_written_with_two_digits(bytes: Seq<u8>, i: int)
    requires
        0 <= i < bytes.len(),
    ensures
        hex(bytes).len() == 2 * bytes.len(),
        16 * digit_value(hex(bytes)[2 * i]) + digit_value(hex(bytes)[2 * i + 1]) == bytes[i],
{
    let high = bytes[i] / 16;
    let low = bytes[i] % 16;
    assert((2 * i) % 2 == 0 && (2 * i) / 2 == i);
    assert((2 * i + 1) % 2 == 1 && (2 * i + 1) / 2 == i);
    assert(hex(bytes)[2 * i] == hex_digit(high));
    assert(hex(bytes)[2 * i + 1] == hex_digit(low));
    assert(digit_value(hex_digit(high)) == high);
    assert(digit_value(hex_digit(low)) == low);
}

/// Different bytes are written differently.
pub proof fn law_hex_tells_bytes_apart(a: Seq<u8>, b: Seq<u8>)
    requires
        hex(a) == hex(b),
    ensures
        a == b,
{
    assert(hex(a).len() == 2 * a.len());
    assert(hex(b).len() == 2 * b.len());
    assert forall|i: int| 0 <= i < a.len() implies a[i] == b[i] by {
        law_bytes_are_written_with_two_digits(a, i);
        law_bytes_are_written_with_two_digits(b, i);
    }
    assert(a =~= b);
}

/// What `serde_json::to_string` returns for a text.
pub uninterp spec fn json_of_text(s: Seq<char>) -> Seq<char>;

/// What `serde_json::to_string` returns for a pair of texts.
pub uninterp spec fn json_of_pair(a: Seq<char>, b: Seq<char>) -> Seq<char>;

/// The pair of texts that `serde_json::from_str` reads, if it reads one.
pub uninterp spec fn pair_in_json(s: Seq<char>) -> Option<(Seq<char>, Seq<char>)>;

/// `serde_json::to_string` on a text.
///
/// Trusted: writing a text does not fail, and what is written depends on the text alone.
#[verifier::external_body]
pub(crate) fn text_json(s: &str) -> (r: String)
    ensures
        r@ == json_of_text(s@),
{
    serde_json::to_string(s).expect("text")
}

/// `serde_json::to_string` on a pair of texts.
///
/// Trusted: writing a pair of texts does not fail, what is written depends on the two texts
/// alone, and reading it as a pair of texts gives the two back.
#[verifier::external_body]
pub(crate) fn pair_json(a: &str, b: &str) -> (r: String)
    ensures
        r@ == json_of_pair(a@, b@),
        pair_in_json(r@) == Some((a@, b@)),
{
    serde_json::to_string(&(a, b)).expect("text pair")
}

pub open spec fn pair_text(p: Option<(String, String)>) -> Option<(Seq<char>, Seq<char>)> {
    match p {
        Some(q) => Some((q.0@, q.1@)),
        None => None,
    }
}

/// `serde_json::from_str` into a pair of texts; `None` where it fails.
///
/// Trusted: whether it succeeds and what it reads depend on the text alone.
#[verifier::external_body]
pub(crate) fn parse_pair(s: &str) -> (r: Option<(String, String)>)
    ensures
        pair_text(r) == pair_in_json(s@),
{
    serde_json::from_str::<(String, String)>(s).ok()
}

} // verus!
