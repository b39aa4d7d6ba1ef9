//! AWS Signature Version 4 for S3-compatible stores: presigned URLs and
//! `Authorization` headers, and the URLs of stored objects.

use vstd::prelude::*;
use vstd::utf8::encode_utf8;

use crate::dates::{amz_dates, long_date_spec, now_secs, short_date_spec};
use crate::encoding::{
    hex_encode, hex_lower, hmac_sha256, hmac_sha256_tag, percent_encode_spec, sha256_hex,
    sha256_hex_spec, url_encode_except_slash, url_encode_query, url_encode_rfc5987, EncodeSet,
};
use crate::text::{
    before_char, before_char_exec, chars_of, push_str, strip_prefix_all,
    strip_prefix_all_exec, string_of, trim, trim_end_char, trim_end_char_exec, trim_start_char,
    trim_start_char_exec, trim_ws, decimal, push_decimal,
};
use crate::types::BackendConfig;

verus! {

// ───────────────────────── specifications ─────────────────────────

/// The view of an optional string slice.
pub open spec fn opt_view(o: Option<&str>) -> Option<Seq<char>> {
    match o {
        Some(s) => Some(s@),
        None => None,
    }
}

/// Host part of an endpoint: trimmed, scheme prefixes removed, path and port dropped.
pub open spec fn extract_host_spec(endpoint: Seq<char>) -> Seq<char> {
    before_char(
        before_char(
            strip_prefix_all(strip_prefix_all(trim_ws(endpoint), "https://"@), "http://"@),
            '/',
        ),
        ':',
    )
}

/// The signing region: the configured one, or `us-east-1` when none is set.
pub open spec fn region_spec(c: BackendConfig) -> Seq<char> {
    if c.region@.len() == 0 {
        "us-east-1"@
    } else {
        c.region@
    }
}

/// `<date>/<region>/s3/aws4_request`.
pub open spec fn scope_spec(short_date: Seq<char>, region: Seq<char>) -> Seq<char> {
    short_date + "/"@ + region + "/s3/aws4_request"@
}

/// `<access key>/<scope>`.
pub open spec fn credential_spec(c: BackendConfig, short_date: Seq<char>) -> Seq<char> {
    c.access_key_id@ + "/"@ + scope_spec(short_date, region_spec(c))
}

/// `/` followed by the key, percent-encoded segment by segment.
pub open spec fn canonical_uri_spec(key: Seq<char>) -> Seq<char> {
    "/"@ + percent_encode_spec(EncodeSet::Path, key)
}

/// The SigV4 signing key: HMAC chain over date, region, service and `aws4_request`.
pub open spec fn signing_key_spec(
    secret: Seq<char>,
    date: Seq<char>,
    region: Seq<char>,
    service: Seq<char>,
) -> Seq<u8> {
    let k_date = hmac_sha256_tag(encode_utf8("AWS4"@ + secret), encode_utf8(date));
    let k_region = hmac_sha256_tag(k_date, encode_utf8(region));
    let k_service = hmac_sha256_tag(k_region, encode_utf8(service));
    hmac_sha256_tag(k_service, encode_utf8("aws4_request"@))
}

/// The string to sign for a canonical request.
pub open spec fn string_to_sign_spec(
    long_date: Seq<char>,
    short_date: Seq<char>,
    region: Seq<char>,
    canonical_request: Seq<char>,
) -> Seq<char> {
    "AWS4-HMAC-SHA256\n"@ + long_date + "\n"@ + scope_spec(short_date, region) + "\n"@
        + sha256_hex_spec(encode_utf8(canonical_request))
}

/// Hex signature of a canonical request under the configuration's secret.
pub open spec fn signature_spec(
    c: BackendConfig,
    long_date: Seq<char>,
    short_date: Seq<char>,
    canonical_request: Seq<char>,
) -> Seq<char> {
    let region = region_spec(c);
    hex_lower(
        hmac_sha256_tag(
            signing_key_spec(c.secret_access_key@, short_date, region, "s3"@),
            encode_utf8(string_to_sign_spec(long_date, short_date, region, canonical_request)),
        ),
    )
}

/// `name=value`, both percent-encoded.
pub open spec fn query_param_spec(p: (Seq<char>, Seq<char>)) -> Seq<char> {
    percent_encode_spec(EncodeSet::Unreserved, p.0) + "="@ + percent_encode_spec(
        EncodeSet::Unreserved,
        p.1,
    )
}

/// Encoded parameters joined with `&`.
pub open spec fn join_query_spec(ps: Seq<(Seq<char>, Seq<char>)>) -> Seq<char>
    decreases ps.len(),
{
    if ps.len() == 0 {
        Seq::empty()
    } else if ps.len() == 1 {
        query_param_spec(ps[0])
    } else {
        join_query_spec(ps.drop_last()) + "&"@ + query_param_spec(ps.last())
    }
}

/// The query parameters of a presigned URL, in ascending byte order of name.
pub open spec fn presign_params_spec(
    c: BackendConfig,
    secs: nat,
    content_type: Option<Seq<char>>,
    expires: u64,
    filename: Option<Seq<char>>,
) -> Seq<(Seq<char>, Seq<char>)> {
    let head: Seq<(Seq<char>, Seq<char>)> = match content_type {
        Some(ct) => seq![("Content-Type"@, ct)],
        None => Seq::empty(),
    };
    let amz: Seq<(Seq<char>, Seq<char>)> = seq![
        ("X-Amz-Algorithm"@, "AWS4-HMAC-SHA256"@),
        ("X-Amz-Credential"@, credential_spec(c, short_date_spec(secs))),
        ("X-Amz-Date"@, long_date_spec(secs)),
        ("X-Amz-Expires"@, decimal(expires as nat)),
        ("X-Amz-SignedHeaders"@, "host"@),
    ];
    let tail: Seq<(Seq<char>, Seq<char>)> = match filename {
        Some(f) => seq![
            (
                "response-content-disposition"@,
                "attachment; filename*=UTF-8''"@ + percent_encode_spec(EncodeSet::Rfc5987, f),
            ),
        ],
        None => Seq::empty(),
    };
    head + amz + tail
}

/// Whether `a` comes strictly before `b` in character (for ASCII, byte) order.
pub open spec fn name_before(a: Seq<char>, b: Seq<char>) -> bool
    decreases a.len(),
{
    if b.len() == 0 {
        false
    } else if a.len() == 0 {
        true
    } else if a[0] != b[0] {
        (a[0] as u32) < (b[0] as u32)
    } else {
        name_before(a.drop_first(), b.drop_first())
    }
}

/// The parameters of a presigned URL come in strictly ascending order of
/// name, the order a sort by name gives, which the signature requires.
pub proof fn law_presign_params_sorted(
    c: BackendConfig,
    secs: nat,
    content_type: Option<Seq<char>>,
    expires: u64,
    filename: Option<Seq<char>>,
)
    ensures
        forall|i: int|
            0 <= i < presign_params_spec(c, secs, content_type, expires, filename).len() - 1
                ==> name_before(
                #[trigger] presign_params_spec(c, secs, content_type, expires, filename)[i].0,
                presign_params_spec(c, secs, content_type, expires, filename)[i + 1].0,
            ),
{
    reveal_strlit("Content-Type");
    reveal_strlit("X-Amz-Algorithm");
    reveal_strlit("X-Amz-Credential");
    reveal_strlit("X-Amz-Date");
    reveal_strlit("X-Amz-Expires");
    reveal_strlit("X-Amz-SignedHeaders");
    reveal_strlit("response-content-disposition");
    reveal_with_fuel(name_before, 8);
    assert(name_before("Content-Type"@, "X-Amz-Algorithm"@));
    assert(name_before("X-Amz-Algorithm"@, "X-Amz-Credential"@));
    assert(name_before("X-Amz-Credential"@, "X-Amz-Date"@));
    assert(name_before("X-Amz-Date"@, "X-Amz-Expires"@));
    assert(name_before("X-Amz-Expires"@, "X-Amz-SignedHeaders"@));
    assert(name_before("X-Amz-SignedHeaders"@, "response-content-disposition"@));
    let ps = presign_params_spec(c, secs, content_type, expires, filename);
    let names: Seq<Seq<char>> = ps.map_values(|p: (Seq<char>, Seq<char>)| p.0);
    let amz = seq![
        "X-Amz-Algorithm"@,
        "X-Amz-Credential"@,
        "X-Amz-Date"@,
        "X-Amz-Expires"@,
        "X-Amz-SignedHeaders"@,
    ];
    let head = if content_type is Some {
        seq!["Content-Type"@]
    } else {
        Seq::<Seq<char>>::empty()
    };
    let tail = if filename is Some {
        seq!["response-content-disposition"@]
    } else {
        Seq::<Seq<char>>::empty()
    };
    assert(names =~= head + amz + tail);
    assert forall|i: int| 0 <= i < ps.len() - 1 implies name_before(
        #[trigger] ps[i].0,
        ps[i + 1].0,
    ) by {
        assert(names[i] == ps[i].0);
        assert(names[i + 1] == ps[i + 1].0);
    }
}

/// The canonical request of a presigned URL (only `host` is signed, the
/// payload is unsigned).
pub open spec fn presign_canonical_request_spec(
    c: BackendConfig,
    key: Seq<char>,
    method: Seq<char>,
    query: Seq<char>,
) -> Seq<char> {
    method + "\n"@ + canonical_uri_spec(key) + "\n"@ + query + "\n"@ + "host:"@
        + extract_host_spec(c.endpoint@) + "\n"@ + "\n"@ + "host"@ + "\n"@ + "UNSIGNED-PAYLOAD"@
}

/// The presigned URL for `method` on `key`, signed at `secs`.
pub open spec fn presign_url_spec(
    c: BackendConfig,
    key: Seq<char>,
    method: Seq<char>,
    content_type: Option<Seq<char>>,
    expires: u64,
    filename: Option<Seq<char>>,
    secs: nat,
) -> Seq<char> {
    let query = join_query_spec(presign_params_spec(c, secs, content_type, expires, filename));
    let cr = presign_canonical_request_spec(c, key, method, query);
    let sig = signature_spec(c, long_date_spec(secs), short_date_spec(secs), cr);
    trim_end_char(c.endpoint@, '/') + "/"@ + c.bucket@ + "/"@ + trim_start_char(key, '/') + "?"@
        + query + "&X-Amz-Signature="@ + sig
}

/// The headers signed in a direct request, in canonical form.
pub open spec fn auth_canonical_headers_spec(
    content_type: Seq<char>,
    host: Seq<char>,
    payload_hash: Seq<char>,
    long_date: Seq<char>,
) -> Seq<char> {
    "content-type:"@ + content_type + "\n"@ + "host:"@ + host + "\n"@ + "x-amz-content-sha256:"@
        + payload_hash + "\n"@ + "x-amz-date:"@ + long_date + "\n"@
}

/// Names of the headers signed in a direct request.
pub open spec fn auth_signed_headers() -> Seq<char> {
    "content-type;host;x-amz-content-sha256;x-amz-date"@
}

/// The canonical request of a direct (non-presigned) request.
pub open spec fn auth_canonical_request_spec(
    c: BackendConfig,
    method: Seq<char>,
    key: Seq<char>,
    content_type: Option<Seq<char>>,
    body: Seq<u8>,
    secs: nat,
) -> Seq<char> {
    let ct = match content_type {
        Some(t) => t,
        None => "application/octet-stream"@,
    };
    let hash = sha256_hex_spec(body);
    method + "\n"@ + canonical_uri_spec(key) + "\n"@ + "\n"@ + auth_canonical_headers_spec(
        ct,
        extract_host_spec(c.endpoint@),
        hash,
        long_date_spec(secs),
    ) + "\n"@ + auth_signed_headers() + "\n"@ + hash
}

/// The `Authorization` header of a direct request signed at `secs`.
pub open spec fn auth_header_spec(
    c: BackendConfig,
    method: Seq<char>,
    key: Seq<char>,
    content_type: Option<Seq<char>>,
    body: Seq<u8>,
    secs: nat,
) -> Seq<char> {
    let cr = auth_canonical_request_spec(c, method, key, content_type, body, secs);
    "AWS4-HMAC-SHA256 Credential="@ + credential_spec(c, short_date_spec(secs))
        + ",SignedHeaders="@ + auth_signed_headers() + ",Signature="@ + signature_spec(
        c,
        long_date_spec(secs),
        short_date_spec(secs),
        cr,
    )
}

/// `<endpoint without trailing />/<bucket>/<key without leading />`.
pub open spec fn object_url_spec(c: BackendConfig, key: Seq<char>) -> Seq<char> {
    trim_end_char(c.endpoint@, '/') + "/"@ + c.bucket@ + "/"@ + trim_start_char(key, '/')
}

// ───────────────────────── implementation ─────────────────────────

/// Host name of an endpoint URL: surrounding white space, any leading
/// `https://` and `http://`, the path and the port are removed.
pub fn extract_host(endpoint: &str) -> (res: String)
    ensures
        res@ == extract_host_spec(endpoint@),
{
    let v = chars_of(endpoint);
    let t = trim(v.as_slice());
    proof {
        reveal_strlit("https://");
        reveal_strlit("http://");
    }
    let https = chars_of("https://");
    let http = chars_of("http://");
    let a = strip_prefix_all_exec(t.as_slice(), https.as_slice());
    let b = strip_prefix_all_exec(a.as_slice(), http.as_slice());
    let c = before_char_exec(b.as_slice(), '/');
    let d = before_char_exec(c.as_slice(), ':');
    string_of(d.as_slice())
}

/// URL of an object (path style): `<endpoint>/<bucket>/<key>`.
pub fn build_object_url(config: &BackendConfig, key: &str) -> (res: String)
    ensures
        res@ == object_url_spec(*config, key@),
{
    let e = chars_of(config.endpoint.as_str());
    let base = trim_end_char_exec(e.as_slice(), '/');
    let k = chars_of(key);
    let key_part = trim_start_char_exec(k.as_slice(), '/');
    let mut s = string_of(base.as_slice());
    push_str(&mut s, "/");
    push_str(&mut s, config.bucket.as_str());
    push_str(&mut s, "/");
    crate::text::push_chars(&mut s, key_part.as_slice());
    assert(s@ =~= object_url_spec(*config, key@));
    s
}

fn region_of(config: &BackendConfig) -> (r: String)
    ensures
        r@ == region_spec(*config),
{
    if config.region.as_str().is_empty() {
        "us-east-1".to_owned()
    } else {
        config.region.clone()
    }
}

/// `/` followed by the percent-encoded key.
fn build_canonical_uri(key: &str) -> (res: String)
    ensures
        res@ == canonical_uri_spec(key@),
{
    let mut s = String::new();
    push_str(&mut s, "/");
    let enc = url_encode_except_slash(key);
    push_str(&mut s, enc.as_str());
    s
}

/// HMAC-SHA256 over the UTF-8 bytes of `data`.
fn hmac_str(key: &[u8], data: &str) -> (res: Vec<u8>)
    ensures
        res@ == hmac_sha256_tag(key@, encode_utf8(data@)),
{
    hmac_sha256(key, data.as_bytes())
}

/// The SigV4 signing key for `secret`, `date`, `region` and `service`.
pub fn derive_signing_key(secret: &str, date: &str, region: &str, service: &str) -> (res: Vec<u8>)
    ensures
        res@ == signing_key_spec(secret@, date@, region@, service@),
{
    let k = crate::text::concat2("AWS4", secret);
    let k_date = hmac_str(k.as_str().as_bytes(), date);
    let k_region = hmac_str(k_date.as_slice(), region);
    let k_service = hmac_str(k_region.as_slice(), service);
    hmac_str(k_service.as_slice(), "aws4_request")
}

/// Hex signature of `canonical_request`.
fn sign_request(
    config: &BackendConfig,
    long_date: &str,
    short_date: &str,
    canonical_request: &str,
) -> (res: String)
    ensures
        res@ == signature_spec(*config, long_date@, short_date@, canonical_request@),
{
    let region = region_of(config);
    let hash = sha256_hex(canonical_request.as_bytes());
    let mut sts = String::new();
    push_str(&mut sts, "AWS4-HMAC-SHA256\n");
    push_str(&mut sts, long_date);
    push_str(&mut sts, "\n");
    push_str(&mut sts, short_date);
    push_str(&mut sts, "/");
    push_str(&mut sts, region.as_str());
    push_str(&mut sts, "/s3/aws4_request");
    push_str(&mut sts, "\n");
    push_str(&mut sts, hash.as_str());
    assert(sts@ =~= string_to_sign_spec(long_date@, short_date@, region@, canonical_request@));
    let key = derive_signing_key(
        config.secret_access_key.as_str(),
        short_date,
        region.as_str(),
        "s3",
    );
    let mac = hmac_str(key.as_slice(), sts.as_str());
    hex_encode(mac.as_slice())
}

/// `<access key>/<date>/<region>/s3/aws4_request`.
fn build_credential(config: &BackendConfig, short_date: &str) -> (res: String)
    ensures
        res@ == credential_spec(*config, short_date@),
{
    let region = region_of(config);
    let mut s = config.access_key_id.clone();
    push_str(&mut s, "/");
    push_str(&mut s, short_date);
    push_str(&mut s, "/");
    push_str(&mut s, region.as_str());
    push_str(&mut s, "/s3/aws4_request");
    assert(s@ =~= credential_spec(*config, short_date@));
    s
}

/// The view of a list of string pairs.
pub open spec fn pairs_view(ps: Seq<(String, String)>) -> Seq<(Seq<char>, Seq<char>)> {
    ps.map_values(|p: (String, String)| (p.0@, p.1@))
}

/// Encodes each `name=value` and joins them with `&`.
fn canonical_query_string(pairs: &Vec<(String, String)>) -> (res: String)
    ensures
        res@ == join_query_spec(pairs_view(pairs@)),
{
    let mut s = String::new();
    let mut i: usize = 0;
    while i < pairs.len()
        invariant
            i <= pairs.len(),
            s@ == join_query_spec(pairs_view(pairs@.take(i as int))),
        decreases pairs.len() - i,
    {
        if i > 0 {
            push_str(&mut s, "&");
        }
        let k = url_encode_query(pairs[i].0.as_str());
        let v = url_encode_query(pairs[i].1.as_str());
        push_str(&mut s, k.as_str());
        push_str(&mut s, "=");
        push_str(&mut s, v.as_str());
        assert(pairs_view(pairs@.take(i + 1)).drop_last() =~= pairs_view(pairs@.take(i as int)));
        assert(pairs_view(pairs@.take(i + 1)).last() == (pairs@[i as int].0@, pairs@[i as int].1@));
        assert(s@ =~= join_query_spec(pairs_view(pairs@.take(i + 1))));
        i = i + 1;
    }
    assert(pairs@.take(pairs.len() as int) =~= pairs@);
    s
}

fn lit(s: &str) -> (r: String)
    ensures
        r@ == s@,
{
    s.to_owned()
}

/// The presigned URL for `method` on `key`, signed at `now` seconds.
pub fn presign_url_at(
    config: &BackendConfig,
    key: &str,
    method: &str,
    content_type: Option<&str>,
    expires_seconds: u64,
    filename: Option<&str>,
    now: u64,
) -> (res: String)
    ensures
        res@ == presign_url_spec(
            *config,
            key@,
            method@,
            opt_view(content_type),
            expires_seconds,
            opt_view(filename),
            now as nat,
        ),
{
    let (long_date, short_date) = amz_dates(now);
    let credential = build_credential(config, short_date.as_str());
    let mut pairs: Vec<(String, String)> = Vec::new();
    if let Some(ct) = content_type {
        pairs.push((lit("Content-Type"), lit(ct)));
    }
    pairs.push((lit("X-Amz-Algorithm"), lit("AWS4-HMAC-SHA256")));
    pairs.push((lit("X-Amz-Credential"), credential));
    pairs.push((lit("X-Amz-Date"), long_date.clone()));
    let mut expires = String::new();
    push_decimal(&mut expires, expires_seconds);
    pairs.push((lit("X-Amz-Expires"), expires));
    pairs.push((lit("X-Amz-SignedHeaders"), lit("host")));
    if let Some(fname) = filename {
        let mut v = lit("attachment; filename*=UTF-8''");
        let enc = url_encode_rfc5987(fname);
        push_str(&mut v, enc.as_str());
        pairs.push((lit("response-content-disposition"), v));
    }
    assert(pairs_view(pairs@) =~= presign_params_spec(
        *config,
        now as nat,
        opt_view(content_type),
        expires_seconds,
        opt_view(filename),
    ));
    let query = canonical_query_string(&pairs);
    let host = extract_host(config.endpoint.as_str());
    let uri = build_canonical_uri(key);
    let mut cr = String::new();
    push_str(&mut cr, method);
    push_str(&mut cr, "\n");
    push_str(&mut cr, uri.as_str());
    push_str(&mut cr, "\n");
    push_str(&mut cr, query.as_str());
    push_str(&mut cr, "\n");
    push_str(&mut cr, "host:");
    push_str(&mut cr, host.as_str());
    push_str(&mut cr, "\n");
    push_str(&mut cr, "\n");
    push_str(&mut cr, "host");
    push_str(&mut cr, "\n");
    push_str(&mut cr, "UNSIGNED-PAYLOAD");
    assert(cr@ =~= presign_canonical_request_spec(*config, key@, method@, query@));
    let signature = sign_request(config, long_date.as_str(), short_date.as_str(), cr.as_str());
    let e = chars_of(config.endpoint.as_str());
    let base = trim_end_char_exec(e.as_slice(), '/');
    let k = chars_of(key);
    let key_part = trim_start_char_exec(k.as_slice(), '/');
    let mut url = string_of(base.as_slice());
    push_str(&mut url, "/");
    push_str(&mut url, config.bucket.as_str());
    push_str(&mut url, "/");
    crate::text::push_chars(&mut url, key_part.as_slice());
    push_str(&mut url, "?");
    push_str(&mut url, query.as_str());
    push_str(&mut url, "&X-Amz-Signature=");
    push_str(&mut url, signature.as_str());
    assert(url@ =~= presign_url_spec(
        *config,
        key@,
        method@,
        opt_view(content_type),
        expires_seconds,
        opt_view(filename),
        now as nat,
    ));
    url
}


/// A presigned `PUT` (upload) URL for `key`, signed now.
pub fn presign_put(
    config: &BackendConfig,
    key: &str,
    content_type: &str,
    expires_seconds: u64,
) -> (res: String)
    ensures
        exists|secs: nat|
            res@ == presign_url_spec(
                *config,
                key@,
                "PUT"@,
                Some(content_type@),
                expires_seconds,
                None,
                secs,
            ),
{
    let now = now_secs();
    presign_url_at(config, key, "PUT", Some(content_type), expires_seconds, None, now)
}

/// A presigned `GET` (download) URL for `key`, signed now; with a filename,
/// the response is served as an attachment of that name.
pub fn presign_get(
    config: &BackendConfig,
    key: &str,
    expires_seconds: u64,
    filename: Option<&str>,
) -> (res: String)
    ensures
        exists|secs: nat|
            res@ == presign_url_spec(
                *config,
                key@,
                "GET"@,
                None,
                expires_seconds,
                opt_view(filename),
                secs,
            ),
{
    let now = now_secs();
    presign_url_at(config, key, "GET", None, expires_seconds, filename, now)
}

/// The `Authorization` header for a direct request, signed at `now` seconds.
pub fn build_auth_header_at(
    config: &BackendConfig,
    method: &str,
    key: &str,
    content_type: Option<&str>,
    body: &[u8],
    now: u64,
) -> (res: String)
    ensures
        res@ == auth_header_spec(*config, method@, key@, opt_view(content_type), body@, now as nat),
{
    let (long_date, short_date) = amz_dates(now);
    let credential = build_credential(config, short_date.as_str());
    let uri = build_canonical_uri(key);
    let host = extract_host(config.endpoint.as_str());
    let payload_hash = sha256_hex(body);
    let ct: &str = match content_type {
        Some(t) => t,
        None => "application/octet-stream",
    };
    let mut cr = String::new();
    push_str(&mut cr, method);
    push_str(&mut cr, "\n");
    push_str(&mut cr, uri.as_str());
    push_str(&mut cr, "\n");
    push_str(&mut cr, "\n");
    push_str(&mut cr, "content-type:");
    push_str(&mut cr, ct);
    push_str(&mut cr, "\n");
    push_str(&mut cr, "host:");
    push_str(&mut cr, host.as_str());
    push_str(&mut cr, "\n");
    push_str(&mut cr, "x-amz-content-sha256:");
    push_str(&mut cr, payload_hash.as_str());
    push_str(&mut cr, "\n");
    push_str(&mut cr, "x-amz-date:");
    push_str(&mut cr, long_date.as_str());
    push_str(&mut cr, "\n");
    push_str(&mut cr, "\n");
    push_str(&mut cr, "content-type;host;x-amz-content-sha256;x-amz-date");
    push_str(&mut cr, "\n");
    push_str(&mut cr, payload_hash.as_str());
    assert(cr@ =~= auth_canonical_request_spec(
        *config,
        method@,
        key@,
        opt_view(content_type),
        body@,
        now as nat,
    ));
    let signature = sign_request(config, long_date.as_str(), short_date.as_str(), cr.as_str());
    let mut h = String::new();
    push_str(&mut h, "AWS4-HMAC-SHA256 Credential=");
    push_str(&mut h, credential.as_str());
    push_str(&mut h, ",SignedHeaders=");
    push_str(&mut h, "content-type;host;x-amz-content-sha256;x-amz-date");
    push_str(&mut h, ",Signature=");
    push_str(&mut h, signature.as_str());
    assert(h@ =~= auth_header_spec(
        *config,
        method@,
        key@,
        opt_view(content_type),
        body@,
        now as nat,
    ));
    h
}

/// The `Authorization` header for a direct request, signed now.
pub fn build_auth_header(
    config: &BackendConfig,
    method: &str,
    key: &str,
    content_type: Option<&str>,
    body: &[u8],
) -> (res: String)
    ensures
        exists|secs: nat|
            res@ == auth_header_spec(*config, method@, key@, opt_view(content_type), body@, secs),
{
    let now = now_secs();
    build_auth_header_at(config, method, key, content_type, body, now)
}

} // verus!
