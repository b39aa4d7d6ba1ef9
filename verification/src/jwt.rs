//! HS256 JSON Web Tokens: URL-safe base64, signing and signature checking.
//! Tokens are `<header>.<payload>.<signature>`, each part URL-safe base64
//! without padding, the signature an HMAC-SHA256 of `<header>.<payload>`.

use base64::Engine;
use vstd::prelude::*;
use vstd::utf8::encode_utf8;

use crate::encoding::{hmac_sha256, hmac_sha256_tag};
use crate::text::{
    chars_of, push_str, replace_char, replace_char_exec, split_char, split_char_exec, str_eq,
    string_of, trim_end_char, trim_end_char_exec, repeat_char, push_char,
};

verus! {

// ───────────────────────── base64 ─────────────────────────

/// The error `base64` reports for input that is not valid base64.
#[verifier::external_type_specification]
#[verifier::external_body]
pub struct ExDecodeError(base64::DecodeError);

/// Standard base64 (RFC 4648 alphabet, `=` padding) of `data`.
pub uninterp spec fn base64_encode_std(data: Seq<u8>) -> Seq<char>;

/// The bytes that standard, padded base64 text `s` stands for, if it is valid.
pub uninterp spec fn base64_decode_std(s: Seq<char>) -> Option<Seq<u8>>;

/// A character of the standard base64 alphabet `A-Z a-z 0-9 + /`.
pub open spec fn is_b64_std_char(c: char) -> bool {
    ('A' <= c && c <= 'Z') || ('a' <= c && c <= 'z') || ('0' <= c && c <= '9') || c == '+' || c
        == '/'
}

/// Number of `=` that padded base64 of `n` bytes ends with.
pub open spec fn b64_pad_len(n: nat) -> nat {
    if n % 3 == 0 {
        0
    } else {
        (3 - n % 3) as nat
    }
}

/// The shape of padded base64 of `n` bytes: `4 * ceil(n / 3)` characters,
/// alphabet characters followed by `b64_pad_len(n)` `=`.
pub open spec fn b64_std_shape(s: Seq<char>, n: nat) -> bool {
    &&& s.len() == 4 * ((n + 2) / 3)
    &&& forall|i: int|
        0 <= i < s.len() ==> if i < s.len() - b64_pad_len(n) {
            is_b64_std_char(#[trigger] s[i])
        } else {
            s[i] == '='
        }
}

/// Standard base64 with `base64::engine::general_purpose::STANDARD`: the
/// named encoding of the input; as RFC 4648 and the crate's alphabet show, it
/// is `4 * ceil(n / 3)` characters of the alphabet `A-Za-z0-9+/` followed by
/// the `=` padding, and decoding it gives the input back. `encode` panics only
/// when the output length overflows `usize`, which `requires` rules out.
#[verifier::external_body]
pub(crate) fn base64_encode(data: &[u8]) -> (res: String)
    requires
        data@.len() / 3 * 4 + 4 <= usize::MAX,
    ensures
        res@ == base64_encode_std(data@),
        b64_std_shape(res@, data@.len()),
        base64_decode_std(res@) == Some(data@),
{
    base64::engine::general_purpose::STANDARD.encode(data)
}

/// Standard base64 decoding with `base64::engine::general_purpose::STANDARD`:
/// `Ok` exactly when the named decoding is defined, with those bytes.
#[verifier::external_body]
fn base64_decode(s: &str) -> (res: Result<Vec<u8>, base64::DecodeError>)
    ensures
        match res {
            Ok(v) => base64_decode_std(s@) == Some(v@),
            Err(_) => base64_decode_std(s@) is None,
        },
{
    base64::engine::general_purpose::STANDARD.decode(s)
}

/// URL-safe base64 without padding: standard base64 with `=` trimmed and
/// `+`, `/` turned into `-`, `_`.
pub open spec fn b64url_encode_spec(data: Seq<u8>) -> Seq<char> {
    replace_char(replace_char(trim_end_char(base64_encode_std(data), '='), '+', '-'), '/', '_')
}

/// The standard, padded text that URL-safe base64 `s` is read as: `-`, `_`
/// turned back into `+`, `/` and `=` added until the UTF-8 length is a
/// multiple of four.
pub open spec fn b64url_restore_spec(s: Seq<char>) -> Seq<char> {
    let t = replace_char(replace_char(s, '-', '+'), '_', '/');
    let n = encode_utf8(t).len();
    t + repeat_char('=', ((4 - n % 4) % 4) as nat)
}

/// The bytes URL-safe base64 `s` decodes to, if it is valid.
pub open spec fn b64url_decode_spec(s: Seq<char>) -> Option<Seq<u8>> {
    base64_decode_std(b64url_restore_spec(s))
}

/// A character of the URL-safe alphabet `A-Z a-z 0-9 - _`.
pub open spec fn is_b64_url_char(c: char) -> bool {
    ('A' <= c && c <= 'Z') || ('a' <= c && c <= 'z') || ('0' <= c && c <= '9') || c == '-' || c
        == '_'
}

/// Every character of `s` is in the URL-safe alphabet.
pub open spec fn all_b64_url(s: Seq<char>) -> bool {
    forall|i: int| 0 <= i < s.len() ==> is_b64_url_char(#[trigger] s[i])
}

/// Every character of a token is in the URL-safe alphabet or a `.`.
pub open spec fn token_chars(s: Seq<char>) -> bool {
    forall|i: int| 0 <= i < s.len() ==> is_b64_url_char(#[trigger] s[i]) || s[i] == '.'
}

proof fn lemma_trim_end_pad(s: Seq<char>, body: int)
    requires
        0 <= body <= s.len(),
        forall|i: int| body <= i < s.len() ==> s[i] == '=',
        body == 0 || s[body - 1] != '=',
    ensures
        trim_end_char(s, '=') == s.take(body),
    decreases s.len(),
{
    if s.len() > body {
        assert(s.drop_last().take(body) =~= s.take(body));
        lemma_trim_end_pad(s.drop_last(), body);
    } else {
        assert(s.take(body) =~= s);
        if s.len() > 0 {
            assert(s.last() != '=');
        }
    }
}

/// What URL-safe base64 of `data` looks like, and that restoring it gives the
/// standard encoding back, when the standard encoding has its usual shape.
proof fn lemma_b64url_of_shape(data: Seq<u8>)
    requires
        b64_std_shape(base64_encode_std(data), data.len()),
    ensures
        all_b64_url(b64url_encode_spec(data)),
        b64url_restore_spec(b64url_encode_spec(data)) == base64_encode_std(data),
{
    let e = base64_encode_std(data);
    let p = b64_pad_len(data.len());
    let body = e.len() - p;
    assert(e.len() >= p);
    if body > 0 {
        assert(is_b64_std_char(e[body - 1]));
    }
    lemma_trim_end_pad(e, body);
    let b = e.take(body);
    assert forall|i: int| 0 <= i < b.len() implies is_b64_std_char(#[trigger] b[i]) by {
        assert(is_b64_std_char(e[i]));
    }
    let u = replace_char(replace_char(b, '+', '-'), '/', '_');
    assert forall|i: int| 0 <= i < u.len() implies is_b64_url_char(#[trigger] u[i]) by {
        assert(is_b64_std_char(b[i]));
    }
    let t = replace_char(replace_char(u, '-', '+'), '_', '/');
    assert forall|i: int| 0 <= i < t.len() implies #[trigger] t[i] == b[i] by {
        assert(is_b64_std_char(b[i]));
    }
    assert(t =~= b);
    assert(vstd::utf8::is_ascii_chars(b)) by {
        assert forall|i: int| 0 <= i < b.len() implies (#[trigger] b[i]) as u32 <= 127 by {
            assert(is_b64_std_char(b[i]));
        }
    }
    vstd::utf8::is_ascii_chars_encode_utf8(b);
    assert(encode_utf8(t).len() == b.len());
    assert((4 - b.len() % 4) % 4 == p);
    assert(b + repeat_char('=', p) =~= e);
}

/// URL-safe base64 without padding.
pub fn base64url_encode(data: &[u8]) -> (res: String)
    requires
        data@.len() / 3 * 4 + 4 <= usize::MAX,
    ensures
        res@ == b64url_encode_spec(data@),
        all_b64_url(res@),
        b64url_decode_spec(res@) == Some(data@),
{
    let std = base64_encode(data);
    let v = chars_of(std.as_str());
    let a = trim_end_char_exec(v.as_slice(), '=');
    let b = replace_char_exec(a.as_slice(), '+', '-');
    let c = replace_char_exec(b.as_slice(), '/', '_');
    proof {
        lemma_b64url_of_shape(data@);
    }
    string_of(c.as_slice())
}

/// Decodes URL-safe base64, with or without padding.
pub fn base64url_decode(input: &str) -> (res: Result<Vec<u8>, base64::DecodeError>)
    ensures
        match res {
            Ok(v) => b64url_decode_spec(input@) == Some(v@),
            Err(_) => b64url_decode_spec(input@) is None,
        },
{
    let v = chars_of(input);
    let a = replace_char_exec(v.as_slice(), '-', '+');
    let b = replace_char_exec(a.as_slice(), '_', '/');
    let mut s = string_of(b.as_slice());
    let n = s.as_str().as_bytes().len();
    let k = (4 - n % 4) % 4;
    let ghost t = s@;
    let mut i: usize = 0;
    while i < k
        invariant
            i <= k,
            s@ == t + repeat_char('=', i as nat),
        decreases k - i,
    {
        push_char(&mut s, '=');
        assert(t + repeat_char('=', (i + 1) as nat) =~= (t + repeat_char('=', i as nat)).push('='));
        i = i + 1;
    }
    base64_decode(s.as_str())
}

// ───────────────────────── tokens ─────────────────────────

/// Why a token was refused.
#[derive(Clone, Copy, Debug, PartialEq, Eq, Structural)]
pub enum JwtError {
    /// Not three `.`-separated parts.
    InvalidFormat,
    /// The signature does not match the header and payload.
    InvalidSignature,
    /// The payload is not valid base64.
    InvalidPayload,
    /// The claims' expiry lies in the past.
    Expired,
}

/// The fixed header `{"alg":"HS256","typ":"JWT"}`.
pub open spec fn jwt_header_json() -> Seq<char> {
    "{\"alg\":\"HS256\",\"typ\":\"JWT\"}"@
}

/// URL-safe base64 of the HMAC-SHA256 of `signing_input` under `secret`.
pub open spec fn jwt_signature_spec(signing_input: Seq<char>, secret: Seq<char>) -> Seq<char> {
    b64url_encode_spec(hmac_sha256_tag(encode_utf8(secret), encode_utf8(signing_input)))
}

/// The token for a JSON payload: `<header>.<payload>.<signature>`.
pub open spec fn jwt_sign_spec(payload: Seq<char>, secret: Seq<char>) -> Seq<char> {
    let si = b64url_encode_spec(encode_utf8(jwt_header_json())) + "."@ + b64url_encode_spec(
        encode_utf8(payload),
    );
    si + "."@ + jwt_signature_spec(si, secret)
}

/// What checking a token gives: the decoded payload bytes, or why it was refused.
pub open spec fn jwt_check_spec(token: Seq<char>, secret: Seq<char>) -> Result<Seq<u8>, JwtError> {
    let parts = split_char(token, '.');
    if parts.len() != 3 {
        Err(JwtError::InvalidFormat)
    } else if jwt_signature_spec(parts[0] + "."@ + parts[1], secret) != parts[2] {
        Err(JwtError::InvalidSignature)
    } else {
        match b64url_decode_spec(parts[1]) {
            Some(b) => Ok(b),
            None => Err(JwtError::InvalidPayload),
        }
    }
}

/// Splitting `x + a` where `a` holds no separator extends the last piece.
proof fn lemma_split_append_plain(x: Seq<char>, a: Seq<char>, c: char)
    requires
        forall|i: int| 0 <= i < a.len() ==> a[i] != c,
    ensures
        split_char(x + a, c).len() == split_char(x, c).len(),
        split_char(x + a, c) == split_char(x, c).update(
            split_char(x, c).len() - 1,
            split_char(x, c).last() + a,
        ),
    decreases a.len(),
{
    lemma_split_nonempty(x, c);
    if a.len() == 0 {
        assert(x + a =~= x);
        assert(split_char(x, c).last() + a =~= split_char(x, c).last());
        assert(split_char(x, c).update(split_char(x, c).len() - 1, split_char(x, c).last())
            =~= split_char(x, c));
    } else {
        let a0 = a.drop_last();
        lemma_split_append_plain(x, a0, c);
        assert((x + a).drop_last() =~= x + a0);
        assert((x + a).last() == a.last());
        assert(a.last() == a[a.len() - 1]);
        lemma_split_nonempty(x + a0, c);
        let s0 = split_char(x, c);
        let rest = split_char(x + a0, c);
        assert(rest == s0.update(s0.len() - 1, s0.last() + a0));
        assert(rest.last() == s0.last() + a0);
        assert(split_char(x + a, c) == rest.update(rest.len() - 1, rest.last().push(a.last())));
        assert(rest.last().push(a.last()) =~= s0.last() + a);
        assert(split_char(x + a, c) =~= s0.update(s0.len() - 1, s0.last() + a));
    }
}

proof fn lemma_split_nonempty(x: Seq<char>, c: char)
    ensures
        split_char(x, c).len() >= 1,
    decreases x.len(),
{
    if x.len() > 0 {
        lemma_split_nonempty(x.drop_last(), c);
    }
}

/// `a.b.c` with separator-free parts splits into exactly `[a, b, c]`.
proof fn lemma_split_three(a: Seq<char>, b: Seq<char>, d: Seq<char>, c: char)
    requires
        forall|i: int| 0 <= i < a.len() ==> a[i] != c,
        forall|i: int| 0 <= i < b.len() ==> b[i] != c,
        forall|i: int| 0 <= i < d.len() ==> d[i] != c,
    ensures
        split_char(a + seq![c] + b + seq![c] + d, c) == seq![a, b, d],
{
    let e = Seq::<char>::empty();
    lemma_split_append_plain(e, a, c);
    assert(e + a =~= a);
    assert(split_char(e, c) == seq![e]);
    assert(split_char(a, c) =~= seq![a]) by {
        assert(e + a == a);
    }
    let x1 = a + seq![c];
    assert(x1.drop_last() =~= a);
    assert(split_char(x1, c) =~= seq![a, e]);
    lemma_split_append_plain(x1, b, c);
    let x2 = x1 + b;
    assert(split_char(x2, c) =~= seq![a, b]) by {
        assert(e + b =~= b);
    }
    let x3 = x2 + seq![c];
    assert(x3.drop_last() =~= x2);
    assert(split_char(x3, c) =~= seq![a, b, e]);
    lemma_split_append_plain(x3, d, c);
    assert(split_char(x3 + d, c) =~= seq![a, b, d]) by {
        assert(e + d =~= d);
    }
    assert(a + seq![c] + b + seq![c] + d =~= x3 + d);
}

proof fn lemma_url_chars_not_dot(s: Seq<char>)
    requires
        all_b64_url(s),
    ensures
        forall|i: int| 0 <= i < s.len() ==> s[i] != '.',
{
    assert forall|i: int| 0 <= i < s.len() implies s[i] != '.' by {
        assert(is_b64_url_char(s[i]));
    }
}

/// Signs a JSON payload: `<header>.<payload>.<signature>` in URL-safe base64.
/// Checking the token with the same secret gives the payload back.
pub fn sign_jwt(payload: &str, secret: &str) -> (res: String)
    requires
        encode_utf8(payload@).len() / 3 * 4 + 4 <= usize::MAX,
    ensures
        res@ == jwt_sign_spec(payload@, secret@),
        jwt_check_spec(res@, secret@) == Ok::<Seq<u8>, JwtError>(encode_utf8(payload@)),
        token_chars(res@),
{
    let header_json = "{\"alg\":\"HS256\",\"typ\":\"JWT\"}";
    proof {
        reveal_strlit("{\"alg\":\"HS256\",\"typ\":\"JWT\"}");
        assert(vstd::utf8::is_ascii_chars(header_json@));
        vstd::utf8::is_ascii_chars_encode_utf8(header_json@);
    }
    let header = base64url_encode(header_json.as_bytes());
    let body = base64url_encode(payload.as_bytes());
    let mut si = header.clone();
    push_str(&mut si, ".");
    push_str(&mut si, body.as_str());
    let mac = hmac_sha256(secret.as_bytes(), si.as_str().as_bytes());
    let sig = base64url_encode(mac.as_slice());
    let mut token = si.clone();
    push_str(&mut token, ".");
    push_str(&mut token, sig.as_str());
    proof {
        reveal_strlit(".");
        lemma_url_chars_not_dot(header@);
        lemma_url_chars_not_dot(body@);
        lemma_url_chars_not_dot(sig@);
        lemma_split_three(header@, body@, sig@, '.');
        assert(token@ =~= header@ + seq!['.'] + body@ + seq!['.'] + sig@);
        assert(si@ =~= header@ + "."@ + body@);
        assert forall|i: int| 0 <= i < token@.len() implies is_b64_url_char(#[trigger] token@[i])
            || token@[i] == '.' by {
            let h = header@.len() as int;
            let b = body@.len() as int;
            if i < h {
                assert(token@[i] == header@[i]);
            } else if i == h {
            } else if i < h + 1 + b {
                assert(token@[i] == body@[i - h - 1]);
            } else if i == h + 1 + b {
            } else {
                assert(token@[i] == sig@[i - h - 2 - b]);
            }
        }
    }
    token
}

/// Checks a token's shape and signature and decodes its payload; the claims
/// in it are read by the caller.
pub fn verify_jwt_signature(token: &str, secret: &str) -> (res: Result<Vec<u8>, JwtError>)
    ensures
        match res {
            Ok(v) => jwt_check_spec(token@, secret@) == Ok::<Seq<u8>, JwtError>(v@),
            Err(e) => jwt_check_spec(token@, secret@) == Err::<Seq<u8>, JwtError>(e),
        },
{
    let t = chars_of(token);
    let parts = split_char_exec(t.as_slice(), '.');
    if parts.len() != 3 {
        return Err(JwtError::InvalidFormat);
    }
    let p0 = string_of(parts[0].as_slice());
    let p1 = string_of(parts[1].as_slice());
    let p2 = string_of(parts[2].as_slice());
    let mut si = p0.clone();
    push_str(&mut si, ".");
    push_str(&mut si, p1.as_str());
    let mac = hmac_sha256(secret.as_bytes(), si.as_str().as_bytes());
    let expected = base64url_encode(mac.as_slice());
    if !str_eq(expected.as_str(), p2.as_str()) {
        return Err(JwtError::InvalidSignature);
    }
    match base64url_decode(p1.as_str()) {
        Ok(bytes) => Ok(bytes),
        Err(_) => Err(JwtError::InvalidPayload),
    }
}

/// Refuses claims whose expiry `exp` lies before `now`.
pub fn check_not_expired(exp: u64, now: u64) -> (res: Result<(), JwtError>)
    ensures
        res is Err <==> exp < now,
        res is Err ==> res == Err::<(), JwtError>(JwtError::Expired),
{
    if exp < now {
        Err(JwtError::Expired)
    } else {
        Ok(())
    }
}


// ───────────────────────── claims ─────────────────────────

/// How `serde_json` writes one character inside a string literal.
pub open spec fn json_escape_char(c: char) -> Seq<char> {
    if c == '"' {
        seq!['\\', '"']
    } else if c == '\\' {
        seq!['\\', '\\']
    } else if c == '\u{8}' {
        seq!['\\', 'b']
    } else if c == '\t' {
        seq!['\\', 't']
    } else if c == '\n' {
        seq!['\\', 'n']
    } else if c == '\u{c}' {
        seq!['\\', 'f']
    } else if c == '\r' {
        seq!['\\', 'r']
    } else if (c as u32) < 32 {
        seq![
            '\\',
            'u',
            '0',
            '0',
            crate::encoding::hex_digit_lower((c as u32) as int / 16),
            crate::encoding::hex_digit_lower((c as u32) as int % 16),
        ]
    } else {
        seq![c]
    }
}

/// The escaped characters of a JSON string literal.
pub open spec fn json_escape(s: Seq<char>) -> Seq<char>
    decreases s.len(),
{
    if s.len() == 0 {
        Seq::empty()
    } else {
        json_escape(s.drop_last()) + json_escape_char(s.last())
    }
}

/// A JSON string literal: `"` + escaped characters + `"`.
pub open spec fn json_string(s: Seq<char>) -> Seq<char> {
    seq!['"'] + json_escape(s) + seq!['"']
}

/// A string as a JSON literal with `serde_json::to_string`, which for `str`
/// cannot fail and escapes `"`, `\` and the control characters below U+0020
/// (`\b \t \n \f \r`, others as `\u00xx` in lower-case hex), writing every
/// other character as it is.
#[verifier::external_body]
pub(crate) fn json_quote(s: &str) -> (res: String)
    ensures
        res@ == json_string(s@),
{
    serde_json::to_string(s).expect("a string always serializes")
}

proof fn lemma_json_escape_len(s: Seq<char>)
    ensures
        json_escape(s).len() <= 6 * s.len(),
    decreases s.len(),
{
    if s.len() > 0 {
        lemma_json_escape_len(s.drop_last());
    }
}

/// UTF-8 takes at most four bytes per character.
pub proof fn lemma_utf8_len_bound(s: Seq<char>)
    ensures
        encode_utf8(s).len() <= 4 * s.len(),
    decreases s.len(),
{
    if s.len() > 0 {
        lemma_utf8_len_bound(s.drop_first());
    }
}

/// `{"tenant_id":…,"name":…,"iat":…,"exp":…}`, the claims of a tenant token.
pub open spec fn tenant_claims_spec(tenant_id: Seq<char>, name: Seq<char>, iat: u64, exp: u64) -> Seq<
    char,
> {
    "{\"tenant_id\":"@ + json_string(tenant_id) + ",\"name\":"@ + json_string(name) + ",\"iat\":"@
        + crate::text::decimal(iat as nat) + ",\"exp\":"@ + crate::text::decimal(exp as nat) + "}"@
}

/// `{"username":…,"iat":…,"exp":…}`, the claims of an admin session.
pub open spec fn session_claims_spec(username: Seq<char>, iat: u64, exp: u64) -> Seq<char> {
    "{\"username\":"@ + json_string(username) + ",\"iat\":"@ + crate::text::decimal(iat as nat)
        + ",\"exp\":"@ + crate::text::decimal(exp as nat) + "}"@
}

/// The JSON claims of a tenant token.
pub fn tenant_claims_json(tenant_id: &str, name: &str, iat: u64, exp: u64) -> (res: String)
    ensures
        res@ == tenant_claims_spec(tenant_id@, name@, iat, exp),
        res@.len() <= 6 * (tenant_id@.len() + name@.len()) + 100,
{
    let mut s = String::new();
    push_str(&mut s, "{\"tenant_id\":");
    let t = json_quote(tenant_id);
    push_str(&mut s, t.as_str());
    push_str(&mut s, ",\"name\":");
    let n = json_quote(name);
    push_str(&mut s, n.as_str());
    push_str(&mut s, ",\"iat\":");
    crate::text::push_decimal(&mut s, iat);
    push_str(&mut s, ",\"exp\":");
    crate::text::push_decimal(&mut s, exp);
    push_str(&mut s, "}");
    proof {
        reveal_strlit("{\"tenant_id\":");
        reveal_strlit(",\"name\":");
        reveal_strlit(",\"iat\":");
        reveal_strlit(",\"exp\":");
        reveal_strlit("}");
        lemma_json_escape_len(tenant_id@);
        lemma_json_escape_len(name@);
        crate::text::lemma_decimal_len_u64(iat);
        crate::text::lemma_decimal_len_u64(exp);
        assert(s@ =~= tenant_claims_spec(tenant_id@, name@, iat, exp));
    }
    s
}

/// The JSON claims of an admin session.
pub fn session_claims_json(username: &str, iat: u64, exp: u64) -> (res: String)
    ensures
        res@ == session_claims_spec(username@, iat, exp),
        res@.len() <= 6 * username@.len() + 100,
{
    let mut s = String::new();
    push_str(&mut s, "{\"username\":");
    let u = json_quote(username);
    push_str(&mut s, u.as_str());
    push_str(&mut s, ",\"iat\":");
    crate::text::push_decimal(&mut s, iat);
    push_str(&mut s, ",\"exp\":");
    crate::text::push_decimal(&mut s, exp);
    push_str(&mut s, "}");
    proof {
        reveal_strlit("{\"username\":");
        reveal_strlit(",\"iat\":");
        reveal_strlit(",\"exp\":");
        reveal_strlit("}");
        lemma_json_escape_len(username@);
        crate::text::lemma_decimal_len_u64(iat);
        crate::text::lemma_decimal_len_u64(exp);
        assert(s@ =~= session_claims_spec(username@, iat, exp));
    }
    s
}

/// Lifetime of a tenant token, in seconds.
pub const TENANT_TOKEN_TTL_SECS: u64 = 3600;

/// Lifetime of an admin session, in seconds.
pub const SESSION_TTL_SECS: u64 = 86400;

/// A tenant token issued at `now`, valid for `TENANT_TOKEN_TTL_SECS`.
pub fn tenant_token_at(secret: &str, tenant_id: &str, name: &str, now: u64) -> (res: String)
    requires
        now <= u64::MAX - TENANT_TOKEN_TTL_SECS,
        tenant_id@.len() + name@.len() <= usize::MAX / 64,
    ensures
        res@ == jwt_sign_spec(
            tenant_claims_spec(tenant_id@, name@, now, (now + TENANT_TOKEN_TTL_SECS) as u64),
            secret@,
        ),
        jwt_check_spec(res@, secret@) == Ok::<Seq<u8>, JwtError>(
            encode_utf8(
                tenant_claims_spec(tenant_id@, name@, now, (now + TENANT_TOKEN_TTL_SECS) as u64),
            ),
        ),
        token_chars(res@),
{
    let claims = tenant_claims_json(tenant_id, name, now, now + TENANT_TOKEN_TTL_SECS);
    proof {
        lemma_utf8_len_bound(claims@);
    }
    sign_jwt(claims.as_str(), secret)
}

/// The expiry of a tenant token issued at `now`: `TENANT_TOKEN_TTL_SECS`
/// later, wrapping around past `u64::MAX` as unchecked `u64` addition does.
pub open spec fn tenant_token_expiry(now: u64) -> u64 {
    if now <= u64::MAX - TENANT_TOKEN_TTL_SECS {
        (now + TENANT_TOKEN_TTL_SECS) as u64
    } else {
        (now - (u64::MAX - TENANT_TOKEN_TTL_SECS) - 1) as u64
    }
}

/// A tenant token issued now, for the tenant's id and name, expiring
/// `TENANT_TOKEN_TTL_SECS` later; checking it with the same secret gives its
/// claims back.
pub fn generate_tenant_token(secret: &str, tenant_id: &str, name: &str) -> (res: String)
    requires
        tenant_id@.len() + name@.len() <= usize::MAX / 64,
    ensures
        exists|now: u64|
            res@ == jwt_sign_spec(
                #[trigger] tenant_claims_spec(tenant_id@, name@, now, tenant_token_expiry(now)),
                secret@,
            ) && jwt_check_spec(res@, secret@) == Ok::<Seq<u8>, JwtError>(
                encode_utf8(tenant_claims_spec(tenant_id@, name@, now, tenant_token_expiry(now))),
            ),
{
    let now = crate::dates::now_secs();
    let exp = if now <= u64::MAX - TENANT_TOKEN_TTL_SECS {
        now + TENANT_TOKEN_TTL_SECS
    } else {
        now - (u64::MAX - TENANT_TOKEN_TTL_SECS) - 1
    };
    assert(exp == tenant_token_expiry(now));
    let claims = tenant_claims_json(tenant_id, name, now, exp);
    proof {
        lemma_utf8_len_bound(claims@);
    }
    let token = sign_jwt(claims.as_str(), secret);
    assert(token@ == jwt_sign_spec(
        tenant_claims_spec(tenant_id@, name@, now, tenant_token_expiry(now)),
        secret@,
    ));
    token
}

/// An admin session token issued at `now`, valid for `SESSION_TTL_SECS`.
pub fn session_token_at(secret: &str, username: &str, now: u64) -> (res: String)
    requires
        now <= u64::MAX - SESSION_TTL_SECS,
        username@.len() <= usize::MAX / 64,
    ensures
        res@ == jwt_sign_spec(
            session_claims_spec(username@, now, (now + SESSION_TTL_SECS) as u64),
            secret@,
        ),
        jwt_check_spec(res@, secret@) == Ok::<Seq<u8>, JwtError>(
            encode_utf8(session_claims_spec(username@, now, (now + SESSION_TTL_SECS) as u64)),
        ),
        token_chars(res@),
{
    let claims = session_claims_json(username, now, now + SESSION_TTL_SECS);
    proof {
        lemma_utf8_len_bound(claims@);
    }
    sign_jwt(claims.as_str(), secret)
}

} // verus!
