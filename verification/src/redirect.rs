//! Tamper-evident error propagation across a redirect: an error message that
//! rides in a login redirect URL is signed with HMAC-SHA-256 over the exact
//! query string it will appear in, and the login page verifies the tag
//! before rendering anything. Verification fails closed: a missing tag, a
//! tag that is not hex, and a tag that does not match are all just
//! "invalid".

use vstd::prelude::*;
use vstd::string::StringExecFns;
use vstd::utf8::encode_utf8;

use hmac::Mac;

verus! {

/// An ASCII hex digit, either case.
pub open spec fn is_hex_digit(c: char) -> bool {
    ('0' <= c && c <= '9') || ('a' <= c && c <= 'f') || ('A' <= c && c <= 'F')
}

/// The value of a hex digit; zero on anything else.
pub open spec fn hex_digit_value(c: char) -> int {
    if c == '0' {
        0
    } else if c == '1' {
        1
    } else if c == '2' {
        2
    } else if c == '3' {
        3
    } else if c == '4' {
        4
    } else if c == '5' {
        5
    } else if c == '6' {
        6
    } else if c == '7' {
        7
    } else if c == '8' {
        8
    } else if c == '9' {
        9
    } else if c == 'a' || c == 'A' {
        10
    } else if c == 'b' || c == 'B' {
        11
    } else if c == 'c' || c == 'C' {
        12
    } else if c == 'd' || c == 'D' {
        13
    } else if c == 'e' || c == 'E' {
        14
    } else if c == 'f' || c == 'F' {
        15
    } else {
        0
    }
}

/// The lowercase hex digit for a value below 16.
pub open spec fn lower_hex_digit(n: int) -> char {
    if n == 0 {
        '0'
    } else if n == 1 {
        '1'
    } else if n == 2 {
        '2'
    } else if n == 3 {
        '3'
    } else if n == 4 {
        '4'
    } else if n == 5 {
        '5'
    } else if n == 6 {
        '6'
    } else if n == 7 {
        '7'
    } else if n == 8 {
        '8'
    } else if n == 9 {
        '9'
    } else if n == 10 {
        'a'
    } else if n == 11 {
        'b'
    } else if n == 12 {
        'c'
    } else if n == 13 {
        'd'
    } else if n == 14 {
        'e'
    } else {
        'f'
    }
}

/// The uppercase hex digit for a value below 16.
pub open spec fn upper_hex_digit(n: int) -> char {
    if n == 0 {
        '0'
    } else if n == 1 {
        '1'
    } else if n == 2 {
        '2'
    } else if n == 3 {
        '3'
    } else if n == 4 {
        '4'
    } else if n == 5 {
        '5'
    } else if n == 6 {
        '6'
    } else if n == 7 {
        '7'
    } else if n == 8 {
        '8'
    } else if n == 9 {
        '9'
    } else if n == 10 {
        'A'
    } else if n == 11 {
        'B'
    } else if n == 12 {
        'C'
    } else if n == 13 {
        'D'
    } else if n == 14 {
        'E'
    } else {
        'F'
    }
}

/// Bytes as lowercase hex: two digits per byte, in order.
pub open spec fn hex_encoding(bs: Seq<u8>) -> Seq<char>
    decreases bs.len(),
{
    if bs.len() == 0 {
        Seq::empty()
    } else {
        hex_encoding(bs.drop_last()) + seq![
            lower_hex_digit(bs.last() as int / 16),
            lower_hex_digit(bs.last() as int % 16),
        ]
    }
}

/// What `hex::decode` accepts: an even number of hex digits, either case.
pub open spec fn valid_hex(s: Seq<char>) -> bool {
    s.len() % 2 == 0 && forall|i: int| 0 <= i < s.len() ==> is_hex_digit(#[trigger] s[i])
}

/// The bytes a hex string denotes, two digits at a time.
pub open spec fn hex_decoded(s: Seq<char>) -> Seq<u8>
    decreases s.len(),
{
    if s.len() < 2 {
        Seq::empty()
    } else {
        hex_decoded(s.take(s.len() - 2)) + seq![
            (hex_digit_value(s[s.len() - 2]) * 16 + hex_digit_value(s[s.len() - 1])) as u8,
        ]
    }
}

/// Relies on `hex::encode`: two lowercase hex digits per byte, in order.
#[verifier::external_body]
pub(crate) fn hex_encode(bytes: &[u8]) -> (r: String)
    ensures
        r@ == hex_encoding(bytes@),
{
    hex::encode(bytes)
}

/// Relies on `hex::decode`: accepts exactly the even-length strings of hex
/// digits (either case) and yields their bytes.
#[verifier::external_body]
pub(crate) fn hex_decode(s: &str) -> (r: Option<Vec<u8>>)
    ensures
        match r {
            Some(b) => valid_hex(s@) && b@ == hex_decoded(s@),
            None => !valid_hex(s@),
        },
{
    hex::decode(s).ok()
}

/// Hex encoding and decoding cancel: the encoding of any byte string is
/// valid hex and decodes back to the same bytes.
pub proof fn lemma_hex_roundtrip(bs: Seq<u8>)
    ensures
        valid_hex(hex_encoding(bs)),
        hex_encoding(bs).len() == 2 * bs.len(),
        hex_decoded(hex_encoding(bs)) == bs,
    decreases bs.len(),
{
    if bs.len() == 0 {
        assert(hex_decoded(hex_encoding(bs)) =~= bs);
    } else {
        lemma_hex_roundtrip(bs.drop_last());
        let b = bs.last();
        let e = hex_encoding(bs);
        let hi = b as int / 16;
        let lo = b as int % 16;
        assert(0 <= b as int <= 255);
        assert(0 <= hi < 16 && 0 <= lo < 16 && b == hi * 16 + lo);
        assert(e =~= hex_encoding(bs.drop_last()) + seq![lower_hex_digit(hi), lower_hex_digit(lo)]);
        assert(valid_hex(e));
        assert(e.take(e.len() - 2) =~= hex_encoding(bs.drop_last()));
        assert(hex_digit_value(lower_hex_digit(hi)) == hi);
        assert(hex_digit_value(lower_hex_digit(lo)) == lo);
        assert(hex_decoded(e) =~= bs);
    }
}

/// A byte URLs carry as-is: ASCII alphanumerics and `-`, `.`, `_`, `~`.
pub open spec fn url_unreserved_byte(b: u8) -> bool {
    (48 <= b && b <= 57) || (65 <= b && b <= 90) || (97 <= b && b <= 122) || b == 45 || b == 46
        || b == 95 || b == 126
}

/// How one byte percent-encodes: kept as-is when unreserved, else `%` and
/// two uppercase hex digits.
pub open spec fn url_encoded_byte(b: u8) -> Seq<char> {
    if url_unreserved_byte(b) {
        seq![b as char]
    } else {
        seq!['%', upper_hex_digit(b as int / 16), upper_hex_digit(b as int % 16)]
    }
}

/// A byte string percent-encoded, byte by byte.
pub open spec fn url_encoded_bytes(bs: Seq<u8>) -> Seq<char>
    decreases bs.len(),
{
    if bs.len() == 0 {
        Seq::empty()
    } else {
        url_encoded_bytes(bs.drop_last()) + url_encoded_byte(bs.last())
    }
}

/// A string percent-encoded: its UTF-8 bytes, each kept or `%XX`-escaped.
pub open spec fn url_encoded(s: Seq<char>) -> Seq<char> {
    url_encoded_bytes(encode_utf8(s))
}

/// Relies on `urlencoding::encode`: percent-encodes every UTF-8 byte except
/// ASCII alphanumerics and `-`, `.`, `_`, `~`, with uppercase hex digits.
#[verifier::external_body]
pub(crate) fn url_encode(s: &str) -> (r: String)
    ensures
        r@ == url_encoded(s@),
{
    urlencoding::encode(s).into_owned()
}

/// What gets signed for a message: the literal query string
/// `error=<url-encoded message>`, exactly as it will stand in the URL.
pub open spec fn signed_content(message: Seq<char>) -> Seq<char> {
    "error="@ + url_encoded(message)
}

/// The exact query string `error=<url-encoded message>`.
pub fn build_signed_query(message: &str) -> (r: String)
    ensures
        r@ == signed_content(message@),
{
    String::from_str("error=").concat(url_encode(message).as_str())
}

/// The HMAC-SHA-256 tag over a key and a text; the value depends on the two
/// alone.
pub uninterp spec fn hmac_sha256(key: Seq<u8>, text: Seq<char>) -> Seq<u8>;

/// Relies on `hmac::Hmac<sha2::Sha256>` (`Mac::update` over the text's UTF-8
/// bytes, then `Mac::finalize`): the tag is a function of the key and the
/// text alone, and is 32 bytes long. `Mac::new_from_slice` accepts a key of
/// any length.
#[verifier::external_body]
fn hmac_sha256_tag(key: &[u8], text: &str) -> (r: Vec<u8>)
    ensures
        r@ == hmac_sha256(key@, text@),
        r@.len() == 32,
{
    let mut mac = <hmac::Hmac<sha2::Sha256> as Mac>::new_from_slice(key).unwrap();
    mac.update(text.as_bytes());
    mac.finalize().into_bytes().to_vec()
}

/// Relies on `Mac::verify_slice`: accepts exactly a candidate equal to the
/// freshly computed tag (length included), comparing in constant time.
#[verifier::external_body]
fn hmac_sha256_check(key: &[u8], text: &str, tag: &[u8]) -> (r: bool)
    ensures
        r == (tag@ == hmac_sha256(key@, text@)),
{
    let mut mac = <hmac::Hmac<sha2::Sha256> as Mac>::new_from_slice(key).unwrap();
    mac.update(text.as_bytes());
    mac.verify_slice(tag).is_ok()
}

/// Signs an error message for a redirect URL and verifies candidate tags.
pub struct RedirectSigner;

impl RedirectSigner {
    /// The tag owed for a message under a key.
    pub open spec fn sign_spec(message: Seq<char>, key: Seq<u8>) -> Seq<u8> {
        hmac_sha256(key, signed_content(message))
    }

    /// What verification accepts: exactly the owed tag.
    pub open spec fn verify_spec(message: Seq<char>, tag: Seq<u8>, key: Seq<u8>) -> bool {
        tag == Self::sign_spec(message, key)
    }

    /// Tag a message: the MAC is computed over the exact query string the
    /// message will ride in, encoding included.
    pub fn sign(message: &str, key: &[u8]) -> (tag: Vec<u8>)
        ensures
            tag@ == Self::sign_spec(message@, key@),
            tag@.len() == 32,
    {
        let query = build_signed_query(message);
        hmac_sha256_tag(key, query.as_str())
    }

    /// Check a candidate tag for a message; the comparison is constant-time
    /// in the candidate.
    pub fn verify(message: &str, tag: &[u8], key: &[u8]) -> (r: bool)
        ensures
            r == Self::verify_spec(message@, tag@, key@),
    {
        let query = build_signed_query(message);
        hmac_sha256_check(key, query.as_str(), tag)
    }
}

/// Round trip: the tag just computed for a message verifies for that
/// message under the same key.
pub proof fn lemma_sign_verify_roundtrip(message: Seq<char>, key: Seq<u8>)
    ensures
        RedirectSigner::verify_spec(message, RedirectSigner::sign_spec(message, key), key),
{
}

/// Verification fails closed on the tag: any candidate other than the owed
/// tag — a truncation, a flipped bit, another message's tag — is rejected.
pub proof fn lemma_verify_rejects_other_tags(message: Seq<char>, tag: Seq<u8>, key: Seq<u8>)
    requires
        tag != RedirectSigner::sign_spec(message, key),
    ensures
        !RedirectSigner::verify_spec(message, tag, key),
{
}

} // verus!
