//! Byte-level encodings: percent-encoding of URL parts, hexadecimal, and the
//! SHA-256 / HMAC-SHA256 primitives the signing code is built on.

use hmac::Mac;
use sha2::Digest;
use vstd::prelude::*;
use vstd::utf8::encode_utf8;

use crate::text::push_char;

verus! {

// ───────────────────────── hexadecimal ─────────────────────────

/// Lower-case hex digit for `0 <= n < 16`.
pub open spec fn hex_digit_lower(n: int) -> char {
    if n < 10 {
        (n + 48) as char
    } else {
        (n + 87) as char
    }
}

/// Upper-case hex digit for `0 <= n < 16`.
pub open spec fn hex_digit_upper(n: int) -> char {
    if n < 10 {
        (n + 48) as char
    } else {
        (n + 55) as char
    }
}

/// Lower-case hexadecimal rendering, two digits per byte (`hex::encode`).
pub open spec fn hex_lower(b: Seq<u8>) -> Seq<char>
    decreases b.len(),
{
    if b.len() == 0 {
        Seq::empty()
    } else {
        hex_lower(b.drop_last()) + seq![
            hex_digit_lower(b.last() as int / 16),
            hex_digit_lower(b.last() as int % 16),
        ]
    }
}

/// Renders bytes as lower-case hex with `hex::encode`, which writes each byte
/// as its high then low nibble from the table `0123456789abcdef`.
#[verifier::external_body]
pub(crate) fn hex_encode(data: &[u8]) -> (res: String)
    ensures
        res@ == hex_lower(data@),
{
    hex::encode(data)
}

// ───────────────────────── digests ─────────────────────────

/// The SHA-256 digest of `data`.
pub uninterp spec fn sha256_digest(data: Seq<u8>) -> Seq<u8>;

/// The HMAC-SHA256 tag of `data` under `key`.
pub uninterp spec fn hmac_sha256_tag(key: Seq<u8>, data: Seq<u8>) -> Seq<u8>;

/// SHA-256 of `data` with `sha2::Sha256::digest`: the result is the named
/// digest of the input, 32 bytes long.
#[verifier::external_body]
pub(crate) fn sha256(data: &[u8]) -> (res: Vec<u8>)
    ensures
        res@ == sha256_digest(data@),
        res@.len() == 32,
{
    sha2::Sha256::digest(data).to_vec()
}

/// HMAC-SHA256 with `hmac::Hmac<Sha256>`: `new_from_slice` accepts a key of
/// any length (it never returns an error for HMAC), so the result is the named
/// tag of key and data, 32 bytes long.
#[verifier::external_body]
pub(crate) fn hmac_sha256(key: &[u8], data: &[u8]) -> (res: Vec<u8>)
    ensures
        res@ == hmac_sha256_tag(key@, data@),
        res@.len() == 32,
{
    let mut mac = hmac::Hmac::<sha2::Sha256>::new_from_slice(key).expect("HMAC accepts any key");
    mac.update(data);
    mac.finalize().into_bytes().to_vec()
}

/// Lower-case hex of the SHA-256 digest of `data`.
pub open spec fn sha256_hex_spec(data: Seq<u8>) -> Seq<char> {
    hex_lower(sha256_digest(data))
}

/// Lower-case hex SHA-256 of `data`.
pub fn sha256_hex(data: &[u8]) -> (res: String)
    ensures
        res@ == sha256_hex_spec(data@),
        res@.len() == 64,
{
    let d = sha256(data);
    let r = hex_encode(d.as_slice());
    proof {
        lemma_hex_lower_len(d@);
    }
    r
}

/// `hex_lower` writes two characters per byte.
pub proof fn lemma_hex_lower_len(b: Seq<u8>)
    ensures
        hex_lower(b).len() == 2 * b.len(),
    decreases b.len(),
{
    if b.len() > 0 {
        lemma_hex_lower_len(b.drop_last());
    }
}

// ───────────────────────── percent-encoding ─────────────────────────

/// The byte classes that the different URL encoders leave as they are.
#[derive(Clone, Copy, PartialEq, Eq, Debug)]
pub enum EncodeSet {
    /// Unreserved characters and `/` (object keys in a canonical URI).
    Path,
    /// Unreserved characters only (query names and values, form fields).
    Unreserved,
    /// The `attr-char` set of RFC 5987 (filenames in `Content-Disposition`).
    Rfc5987,
}

/// Whether `b` is an ASCII letter or digit.
pub open spec fn is_alnum(b: u8) -> bool {
    (65 <= b <= 90) || (97 <= b <= 122) || (48 <= b <= 57)
}

/// Whether `b` is in the unreserved set `A-Z a-z 0-9 - _ . ~`.
pub open spec fn is_unreserved(b: u8) -> bool {
    is_alnum(b) || b == 95 || b == 45 || b == 46 || b == 126
}

/// Whether the encoder for `set` leaves `b` unchanged.
pub open spec fn keeps(set: EncodeSet, b: u8) -> bool {
    match set {
        EncodeSet::Path => is_unreserved(b) || b == 47,
        EncodeSet::Unreserved => is_unreserved(b),
        // ! # $ & + - . ^ _ ` | ~
        EncodeSet::Rfc5987 => is_alnum(b) || b == 33 || b == 35 || b == 36 || b == 38 || b
            == 43 || b == 45 || b == 46 || b == 94 || b == 95 || b == 96 || b == 124 || b == 126,
    }
}

/// How one byte is written: itself, or `%` and two upper-case hex digits.
pub open spec fn encode_byte(set: EncodeSet, b: u8) -> Seq<char> {
    if keeps(set, b) {
        seq![b as char]
    } else {
        seq!['%', hex_digit_upper(b as int / 16), hex_digit_upper(b as int % 16)]
    }
}

/// Percent-encoding of a byte string under `set`.
pub open spec fn percent_encode_bytes(set: EncodeSet, b: Seq<u8>) -> Seq<char>
    decreases b.len(),
{
    if b.len() == 0 {
        Seq::empty()
    } else {
        percent_encode_bytes(set, b.drop_last()) + encode_byte(set, b.last())
    }
}

/// Percent-encoding of the UTF-8 bytes of `s` under `set`.
pub open spec fn percent_encode_spec(set: EncodeSet, s: Seq<char>) -> Seq<char> {
    percent_encode_bytes(set, encode_utf8(s))
}

fn keeps_exec(set: EncodeSet, b: u8) -> (r: bool)
    ensures
        r == keeps(set, b),
{
    let alnum = (65 <= b && b <= 90) || (97 <= b && b <= 122) || (48 <= b && b <= 57);
    match set {
        EncodeSet::Path => alnum || b == 95 || b == 45 || b == 46 || b == 126 || b == 47,
        EncodeSet::Unreserved => alnum || b == 95 || b == 45 || b == 46 || b == 126,
        EncodeSet::Rfc5987 => alnum || b == 33 || b == 35 || b == 36 || b == 38 || b == 43 || b
            == 45 || b == 46 || b == 94 || b == 95 || b == 96 || b == 124 || b == 126,
    }
}

/// Upper-case hex digit for `n < 16`.
pub fn hex_digit_upper_exec(n: u8) -> (c: char)
    requires
        n < 16,
    ensures
        c == hex_digit_upper(n as int),
{
    if n < 10 {
        (48u8 + n) as char
    } else {
        (55u8 + n) as char
    }
}

/// Percent-encodes the UTF-8 bytes of `s`, keeping the bytes of `set`.
pub fn percent_encode(s: &str, set: EncodeSet) -> (res: String)
    ensures
        res@ == percent_encode_spec(set, s@),
{
    let bytes = s.as_bytes();
    let mut res = String::new();
    let mut i: usize = 0;
    assert(bytes@.take(0) =~= Seq::<u8>::empty());
    while i < bytes.len()
        invariant
            i <= bytes.len(),
            bytes@ == encode_utf8(s@),
            res@ == percent_encode_bytes(set, bytes@.take(i as int)),
        decreases bytes.len() - i,
    {
        let b = bytes[i];
        assert(bytes@.take(i + 1).drop_last() =~= bytes@.take(i as int));
        if keeps_exec(set, b) {
            push_char(&mut res, b as char);
        } else {
            push_char(&mut res, '%');
            push_char(&mut res, hex_digit_upper_exec(b / 16));
            push_char(&mut res, hex_digit_upper_exec(b % 16));
        }
        assert(res@ =~= percent_encode_bytes(set, bytes@.take(i + 1)));
        i = i + 1;
    }
    assert(bytes@.take(bytes.len() as int) =~= bytes@);
    res
}

/// Encodes an object key for a canonical URI: everything but unreserved
/// characters and `/` is percent-encoded.
pub fn url_encode_except_slash(s: &str) -> (res: String)
    ensures
        res@ == percent_encode_spec(EncodeSet::Path, s@),
{
    percent_encode(s, EncodeSet::Path)
}

/// Encodes a query-string name or value: everything but unreserved characters
/// is percent-encoded (`=` becomes `%3D`).
pub fn url_encode_query(s: &str) -> (res: String)
    ensures
        res@ == percent_encode_spec(EncodeSet::Unreserved, s@),
{
    percent_encode(s, EncodeSet::Unreserved)
}

/// Encodes a filename for `filename*=UTF-8''…` (RFC 5987 `attr-char`).
pub fn url_encode_rfc5987(s: &str) -> (res: String)
    ensures
        res@ == percent_encode_spec(EncodeSet::Rfc5987, s@),
{
    percent_encode(s, EncodeSet::Rfc5987)
}

/// Encodes a form or query component for the OAuth requests.
pub fn url_encode(s: &str) -> (res: String)
    ensures
        res@ == percent_encode_spec(EncodeSet::Unreserved, s@),
{
    percent_encode(s, EncodeSet::Unreserved)
}

} // verus!
