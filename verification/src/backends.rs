//! Requests to the storage backends (S3, Dufs, Redis over REST) and how their
//! answers are read. The library builds each request (method, URL, headers);
//! the caller sends it with the body and hands back the status and body text.

use vstd::prelude::*;
use vstd::utf8::encode_utf8;

use crate::dates::{amz_dates, long_date_spec, now_secs};
use crate::encoding::{sha256_hex, sha256_hex_spec};
use crate::jwt::{base64_encode, base64_encode_std};
use crate::sigv4::{
    auth_header_spec, build_auth_header_at, build_object_url, extract_host, extract_host_spec,
    object_url_spec, pairs_view,
};
use crate::text::{
    chars_of, decimal, push_chars, push_decimal, push_str, string_of, trim_end_char,
    trim_end_char_exec, trim_start_char, trim_start_char_exec,
};
use crate::types::{BackendConfig, BackendType, TestResult};

verus! {

// ───────────────────────── requests ─────────────────────────

/// The HTTP method of a request to a backend.
#[derive(Clone, Copy, Debug, PartialEq, Eq, Structural)]
pub enum HttpMethod {
    Get,
    Head,
    Put,
    Post,
    Delete,
}

/// The method's name on the wire.
pub open spec fn method_name(m: HttpMethod) -> Seq<char> {
    match m {
        HttpMethod::Get => "GET"@,
        HttpMethod::Head => "HEAD"@,
        HttpMethod::Put => "PUT"@,
        HttpMethod::Post => "POST"@,
        HttpMethod::Delete => "DELETE"@,
    }
}

impl HttpMethod {
    /// The method's name on the wire.
    pub fn as_str(&self) -> (r: &'static str)
        ensures
            r@ == method_name(*self),
    {
        proof {
            reveal_strlit("GET");
            reveal_strlit("HEAD");
            reveal_strlit("PUT");
            reveal_strlit("POST");
            reveal_strlit("DELETE");
        }
        match self {
            HttpMethod::Get => "GET",
            HttpMethod::Head => "HEAD",
            HttpMethod::Put => "PUT",
            HttpMethod::Post => "POST",
            HttpMethod::Delete => "DELETE",
        }
    }
}

/// A request for a backend: method, URL and headers in the order they are
/// set. The body, if any, travels beside it.
#[derive(Clone, Debug)]
pub struct OutgoingRequest {
    pub method: HttpMethod,
    pub url: String,
    pub headers: Vec<(String, String)>,
}

impl OutgoingRequest {
    /// The headers as pairs of names and values.
    pub open spec fn header_pairs(&self) -> Seq<(Seq<char>, Seq<char>)> {
        pairs_view(self.headers@)
    }
}

/// A header as a pair of owned strings.
fn header(name: &str, value: &str) -> (h: (String, String))
    ensures
        h.0@ == name@,
        h.1@ == value@,
{
    (name.to_owned(), value.to_owned())
}

/// `<base without trailing />/<path without leading />`.
pub open spec fn join_path_spec(base: Seq<char>, path: Seq<char>) -> Seq<char> {
    trim_end_char(base, '/') + "/"@ + trim_start_char(path, '/')
}

/// Joins an endpoint and a path with exactly the one `/` between them that
/// the two sides bring or lack.
pub fn join_path(base: &str, path: &str) -> (res: String)
    ensures
        res@ == join_path_spec(base@, path@),
{
    let b = chars_of(base);
    let p = chars_of(path);
    let bt = trim_end_char_exec(b.as_slice(), '/');
    let pt = trim_start_char_exec(p.as_slice(), '/');
    let mut s = string_of(bt.as_slice());
    push_str(&mut s, "/");
    push_chars(&mut s, pt.as_slice());
    s
}

// ───────────────────────── S3 ─────────────────────────

/// The headers of a signed S3 request made at `secs`: `Authorization`, the
/// `Content-Type` when one is given, `x-amz-content-sha256`, `x-amz-date`
/// and `Host`.
pub open spec fn s3_headers_spec(
    c: BackendConfig,
    method: HttpMethod,
    key: Seq<char>,
    content_type: Option<Seq<char>>,
    body: Seq<u8>,
    secs: nat,
) -> Seq<(Seq<char>, Seq<char>)> {
    let auth = seq![
        ("Authorization"@, auth_header_spec(c, method_name(method), key, content_type, body, secs)),
    ];
    let with_type = match content_type {
        Some(t) => auth.push(("Content-Type"@, t)),
        None => auth,
    };
    with_type + seq![
        ("x-amz-content-sha256"@, sha256_hex_spec(body)),
        ("x-amz-date"@, long_date_spec(secs)),
        ("Host"@, extract_host_spec(c.endpoint@)),
    ]
}

/// The signed headers of an S3 request, made at `now` seconds.
fn s3_headers_at(
    config: &BackendConfig,
    method: HttpMethod,
    key: &str,
    content_type: Option<&str>,
    body: &[u8],
    now: u64,
) -> (res: Vec<(String, String)>)
    ensures
        pairs_view(res@) == s3_headers_spec(
            *config,
            method,
            key@,
            crate::sigv4::opt_view(content_type),
            body@,
            now as nat,
        ),
{
    let auth = build_auth_header_at(config, method.as_str(), key, content_type, body, now);
    let (long_date, _) = amz_dates(now);
    let hash = sha256_hex(body);
    let host = extract_host(config.endpoint.as_str());
    let mut h: Vec<(String, String)> = Vec::new();
    h.push(header("Authorization", auth.as_str()));
    match content_type {
        Some(t) => h.push(header("Content-Type", t)),
        None => {},
    }
    h.push(header("x-amz-content-sha256", hash.as_str()));
    h.push(header("x-amz-date", long_date.as_str()));
    h.push(header("Host", host.as_str()));
    proof {
        reveal_strlit("Authorization");
        reveal_strlit("Content-Type");
        reveal_strlit("x-amz-content-sha256");
        reveal_strlit("x-amz-date");
        reveal_strlit("Host");
        assert(pairs_view(h@) =~= s3_headers_spec(
            *config,
            method,
            key@,
            crate::sigv4::opt_view(content_type),
            body@,
            now as nat,
        ));
    }
    h
}

/// A signed S3 request on the object `key`, made at `secs`.
pub open spec fn s3_object_request_spec(
    c: BackendConfig,
    method: HttpMethod,
    key: Seq<char>,
    content_type: Option<Seq<char>>,
    body: Seq<u8>,
    secs: nat,
    r: OutgoingRequest,
) -> bool {
    &&& r.method == method
    &&& r.url@ == object_url_spec(c, key)
    &&& r.header_pairs() == s3_headers_spec(c, method, key, content_type, body, secs)
}

/// A signed S3 request on the object `key`, made at `now` seconds.
pub fn s3_object_request_at(
    config: &BackendConfig,
    method: HttpMethod,
    key: &str,
    content_type: Option<&str>,
    body: &[u8],
    now: u64,
) -> (res: OutgoingRequest)
    ensures
        s3_object_request_spec(
            *config,
            method,
            key@,
            crate::sigv4::opt_view(content_type),
            body@,
            now as nat,
            res,
        ),
{
    let headers = s3_headers_at(config, method, key, content_type, body, now);
    OutgoingRequest { method, url: build_object_url(config, key), headers }
}

/// The URL probed to test an S3 configuration: the bucket under the endpoint.
pub open spec fn s3_bucket_url_spec(c: BackendConfig) -> Seq<char> {
    trim_end_char(c.endpoint@, '/') + "/"@ + c.bucket@
}

/// The signed `HEAD` on the bucket that tests an S3 configuration, made at `secs`.
pub open spec fn s3_probe_request_spec(c: BackendConfig, secs: nat, r: OutgoingRequest) -> bool {
    &&& r.method == HttpMethod::Head
    &&& r.url@ == s3_bucket_url_spec(c)
    &&& r.header_pairs() == s3_headers_spec(c, HttpMethod::Head, Seq::empty(), None, Seq::empty(), secs)
}

/// The signed `HEAD` on the bucket that tests an S3 configuration, made at `now`.
pub fn s3_probe_request_at(config: &BackendConfig, now: u64) -> (res: OutgoingRequest)
    ensures
        s3_probe_request_spec(*config, now as nat, res),
{
    let empty: [u8; 0] = [];
    proof {
        reveal_strlit("");
    }
    let headers = s3_headers_at(config, HttpMethod::Head, "", None, &empty, now);
    let e = chars_of(config.endpoint.as_str());
    let base = trim_end_char_exec(e.as_slice(), '/');
    let mut url = string_of(base.as_slice());
    push_str(&mut url, "/");
    push_str(&mut url, config.bucket.as_str());
    assert(empty@ =~= Seq::<u8>::empty());
    OutgoingRequest { method: HttpMethod::Head, url, headers }
}

// ───────────────────────── Dufs ─────────────────────────

/// `Basic <base64 of "user:password">` when the configuration has both.
pub open spec fn basic_auth_spec(c: BackendConfig) -> Option<Seq<char>> {
    match (c.username, c.password) {
        (Some(u), Some(p)) => Some("Basic "@ + base64_encode_std(encode_utf8(u@ + ":"@ + p@))),
        _ => None,
    }
}

/// Whether the base64 length of the credentials fits in a `usize` (the
/// encoder panics on longer input).
pub open spec fn basic_auth_fits(c: BackendConfig) -> bool {
    match (c.username, c.password) {
        (Some(u), Some(p)) => encode_utf8(u@ + ":"@ + p@).len() / 3 * 4 + 4 <= usize::MAX,
        _ => true,
    }
}

/// Whether the configuration's credentials can be base64-encoded (see
/// `basic_auth_fits`).
pub fn auth_fits(config: &BackendConfig) -> (r: bool)
    ensures
        r == basic_auth_fits(*config),
{
    match (&config.username, &config.password) {
        (Some(u), Some(p)) => {
            let mut creds = u.clone();
            push_str(&mut creds, ":");
            push_str(&mut creds, p.as_str());
            let n = creds.as_str().as_bytes().len();
            n / 3 <= (usize::MAX - 4) / 4
        },
        _ => true,
    }
}

/// The `Authorization` value for a Dufs server, when the configuration has
/// both a user name and a password.
pub fn build_auth_header_value(config: &BackendConfig) -> (res: Option<String>)
    requires
        basic_auth_fits(*config),
    ensures
        opt_string_view(res) == basic_auth_spec(*config),
{
    match (&config.username, &config.password) {
        (Some(u), Some(p)) => {
            let mut creds = u.clone();
            push_str(&mut creds, ":");
            push_str(&mut creds, p.as_str());
            let encoded = base64_encode(creds.as_str().as_bytes());
            let mut v = String::new();
            push_str(&mut v, "Basic ");
            push_str(&mut v, encoded.as_str());
            Some(v)
        },
        _ => None,
    }
}

/// The view of an optional string.
pub open spec fn opt_string_view(o: Option<String>) -> Option<Seq<char>> {
    match o {
        Some(s) => Some(s@),
        None => None,
    }
}

/// The headers of a Dufs request: `Content-Type: application/octet-stream`
/// for an upload, then the `Authorization` when there are credentials.
pub open spec fn dufs_headers_spec(c: BackendConfig, method: HttpMethod) -> Seq<(Seq<char>, Seq<char>)> {
    let typed = if method == HttpMethod::Put {
        seq![("Content-Type"@, "application/octet-stream"@)]
    } else {
        Seq::empty()
    };
    match basic_auth_spec(c) {
        Some(a) => typed.push(("Authorization"@, a)),
        None => typed,
    }
}

fn dufs_headers(config: &BackendConfig, method: HttpMethod) -> (res: Vec<(String, String)>)
    requires
        basic_auth_fits(*config),
    ensures
        pairs_view(res@) == dufs_headers_spec(*config, method),
{
    let mut h: Vec<(String, String)> = Vec::new();
    if method == HttpMethod::Put {
        h.push(header("Content-Type", "application/octet-stream"));
    }
    match build_auth_header_value(config) {
        Some(a) => h.push(header("Authorization", a.as_str())),
        None => {},
    }
    proof {
        reveal_strlit("Content-Type");
        reveal_strlit("application/octet-stream");
        reveal_strlit("Authorization");
        assert(pairs_view(h@) =~= dufs_headers_spec(*config, method));
    }
    h
}

/// A Dufs request on the file `key`: the file's URL under the endpoint.
pub open spec fn dufs_object_request_spec(
    c: BackendConfig,
    method: HttpMethod,
    key: Seq<char>,
    r: OutgoingRequest,
) -> bool {
    &&& r.method == method
    &&& r.url@ == join_path_spec(c.endpoint@, key)
    &&& r.header_pairs() == dufs_headers_spec(c, method)
}

/// A Dufs request on the file `key`.
pub fn dufs_object_request(config: &BackendConfig, method: HttpMethod, key: &str) -> (res:
    OutgoingRequest)
    requires
        basic_auth_fits(*config),
    ensures
        dufs_object_request_spec(*config, method, key@, res),
{
    OutgoingRequest {
        method,
        url: join_path(config.endpoint.as_str(), key),
        headers: dufs_headers(config, method),
    }
}

/// The `HEAD` on the endpoint that tests a Dufs configuration.
pub open spec fn dufs_probe_request_spec(c: BackendConfig, r: OutgoingRequest) -> bool {
    &&& r.method == HttpMethod::Head
    &&& r.url@ == trim_end_char(c.endpoint@, '/')
    &&& r.header_pairs() == dufs_headers_spec(c, HttpMethod::Head)
}

/// The `HEAD` on the endpoint that tests a Dufs configuration.
pub fn dufs_probe_request(config: &BackendConfig) -> (res: OutgoingRequest)
    requires
        basic_auth_fits(*config),
    ensures
        dufs_probe_request_spec(*config, res),
{
    let e = chars_of(config.endpoint.as_str());
    let base = trim_end_char_exec(e.as_slice(), '/');
    OutgoingRequest {
        method: HttpMethod::Head,
        url: string_of(base.as_slice()),
        headers: dufs_headers(config, HttpMethod::Head),
    }
}

// ───────────────────────── Redis ─────────────────────────

/// A command of the Redis REST interface.
#[derive(Clone, Copy, Debug, PartialEq, Eq, Structural)]
pub enum RedisCommand {
    Get,
    Store,
    Delete,
    Ping,
}

/// The path of a command: `get/<key>`, `set/<key>`, `del/<key>` or `ping`.
pub open spec fn redis_path_spec(cmd: RedisCommand, key: Seq<char>) -> Seq<char> {
    match cmd {
        RedisCommand::Get => "get/"@ + key,
        RedisCommand::Store => "set/"@ + key,
        RedisCommand::Delete => "del/"@ + key,
        RedisCommand::Ping => "ping"@,
    }
}

/// `GET` for reading and probing, `POST` for writing and deleting.
pub open spec fn redis_method_spec(cmd: RedisCommand) -> HttpMethod {
    match cmd {
        RedisCommand::Get | RedisCommand::Ping => HttpMethod::Get,
        RedisCommand::Store | RedisCommand::Delete => HttpMethod::Post,
    }
}

/// `Authorization: Bearer <password, or nothing>`, and for `SET` the
/// `Content-Type: application/octet-stream` of the value.
pub open spec fn redis_headers_spec(c: BackendConfig, cmd: RedisCommand) -> Seq<(Seq<char>, Seq<char>)> {
    let token = match c.redis_password {
        Some(p) => p@,
        None => Seq::empty(),
    };
    let auth = seq![("Authorization"@, "Bearer "@ + token)];
    if cmd == RedisCommand::Store {
        auth.push(("Content-Type"@, "application/octet-stream"@))
    } else {
        auth
    }
}

/// A request of the Redis REST interface.
pub open spec fn redis_request_spec(
    c: BackendConfig,
    cmd: RedisCommand,
    key: Seq<char>,
    r: OutgoingRequest,
) -> bool {
    &&& r.method == redis_method_spec(cmd)
    &&& r.url@ == join_path_spec(c.endpoint@, redis_path_spec(cmd, key))
    &&& r.header_pairs() == redis_headers_spec(c, cmd)
}

/// A request of the Redis REST interface (`key` is not used by `Ping`).
pub fn redis_request(config: &BackendConfig, cmd: RedisCommand, key: &str) -> (res: OutgoingRequest)
    ensures
        redis_request_spec(*config, cmd, key@, res),
{
    proof {
        reveal_strlit("get/");
        reveal_strlit("set/");
        reveal_strlit("del/");
        reveal_strlit("ping");
        reveal_strlit("Bearer ");
        reveal_strlit("Authorization");
        reveal_strlit("Content-Type");
        reveal_strlit("application/octet-stream");
    }
    let mut path = String::new();
    let method = match cmd {
        RedisCommand::Get => {
            push_str(&mut path, "get/");
            push_str(&mut path, key);
            HttpMethod::Get
        },
        RedisCommand::Store => {
            push_str(&mut path, "set/");
            push_str(&mut path, key);
            HttpMethod::Post
        },
        RedisCommand::Delete => {
            push_str(&mut path, "del/");
            push_str(&mut path, key);
            HttpMethod::Post
        },
        RedisCommand::Ping => {
            push_str(&mut path, "ping");
            HttpMethod::Get
        },
    };
    let mut bearer = String::new();
    push_str(&mut bearer, "Bearer ");
    match &config.redis_password {
        Some(p) => push_str(&mut bearer, p.as_str()),
        None => {},
    }
    let mut headers: Vec<(String, String)> = Vec::new();
    headers.push(header("Authorization", bearer.as_str()));
    if cmd == RedisCommand::Store {
        headers.push(header("Content-Type", "application/octet-stream"));
    }
    assert(pairs_view(headers@) =~= redis_headers_spec(*config, cmd));
    OutgoingRequest { method, url: join_path(config.endpoint.as_str(), path.as_str()), headers }
}

// ───────────────────────── answers ─────────────────────────

/// Whether a backend's status means success (2xx).
pub fn is_success_status(status: u16) -> (r: bool)
    ensures
        r == (200 <= status < 300),
{
    200 <= status && status < 300
}

/// Whether a probe's status shows the backend reachable: S3 answers 200, 403
/// or 404; Dufs 200, 401, 403 or 404; Redis only 200.
pub open spec fn probe_reachable(kind: BackendType, status: u16) -> bool {
    match kind {
        BackendType::S3 => status == 200 || status == 403 || status == 404,
        BackendType::Dufs => status == 200 || status == 401 || status == 403 || status == 404,
        BackendType::Redis => status == 200,
    }
}

/// The message reported for a probe that got an answer.
pub open spec fn probe_message(kind: BackendType, status: u16, body: Seq<char>) -> Seq<char> {
    let code = decimal(status as nat);
    match kind {
        BackendType::Redis => if probe_reachable(kind, status) {
            "Redis endpoint reachable: "@ + body
        } else {
            "Redis ping failed (HTTP "@ + code + "): "@ + body
        },
        _ => if probe_reachable(kind, status) {
            (if kind == BackendType::S3 {
                "S3"@
            } else {
                "Dufs"@
            }) + " endpoint reachable (HTTP "@ + code + ")"@
        } else {
            "Unexpected response (HTTP "@ + code + ")"@
        },
    }
}

/// A backend that answers a connection test with 200 is reachable, whatever
/// its kind, and one that answers with a server error (5xx) is not; S3 and
/// Dufs also count 403 and 404 (the endpoint answered) as reachable, Dufs
/// also 401, and Redis nothing but 200.
pub proof fn law_probe_status_classes(kind: BackendType, status: u16)
    ensures
        status == 200 ==> probe_reachable(kind, status),
        500 <= status < 600 ==> !probe_reachable(kind, status),
        kind != BackendType::Redis && (status == 403 || status == 404) ==> probe_reachable(
            kind,
            status,
        ),
        kind == BackendType::Dufs && status == 401 ==> probe_reachable(kind, status),
        kind == BackendType::Redis && probe_reachable(kind, status) ==> status == 200,
        probe_reachable(kind, status) ==> status == 200 || status == 401 || status == 403 || status
            == 404,
{
}

/// The outcome of a connection test that got an answer with `status` and
/// `body` (the body is only reported for Redis).
pub fn probe_result(kind: BackendType, status: u16, body: &str) -> (r: TestResult)
    ensures
        r.ok == probe_reachable(kind, status),
        r.message@ == probe_message(kind, status, body@),
{
    let ok = match kind {
        BackendType::S3 => status == 200 || status == 403 || status == 404,
        BackendType::Dufs => status == 200 || status == 401 || status == 403 || status == 404,
        BackendType::Redis => status == 200,
    };
    let mut m = String::new();
    match kind {
        BackendType::Redis => {
            if ok {
                push_str(&mut m, "Redis endpoint reachable: ");
                push_str(&mut m, body);
            } else {
                push_str(&mut m, "Redis ping failed (HTTP ");
                push_decimal(&mut m, status as u64);
                push_str(&mut m, "): ");
                push_str(&mut m, body);
            }
        },
        _ => {
            if ok {
                if kind == BackendType::S3 {
                    push_str(&mut m, "S3");
                } else {
                    push_str(&mut m, "Dufs");
                }
                push_str(&mut m, " endpoint reachable (HTTP ");
                push_decimal(&mut m, status as u64);
                push_str(&mut m, ")");
            } else {
                push_str(&mut m, "Unexpected response (HTTP ");
                push_decimal(&mut m, status as u64);
                push_str(&mut m, ")");
            }
        },
    }
    proof {
        assert(m@ =~= probe_message(kind, status, body@));
    }
    TestResult { ok, message: m }
}

/// The outcome of a connection test whose request could not be sent.
pub fn probe_failure(error: &str) -> (r: TestResult)
    ensures
        !r.ok,
        r.message@ == "Connection failed: "@ + error@,
{
    let mut m = String::new();
    push_str(&mut m, "Connection failed: ");
    push_str(&mut m, error);
    TestResult { ok: false, message: m }
}

/// A backend call that can fail with a status of its own.
#[derive(Clone, Copy, Debug, PartialEq, Eq, Structural)]
pub enum BackendCall {
    S3Upload,
    S3Download,
    S3Delete,
    DufsUpload,
    DufsDownload,
    DufsDelete,
    RedisGet,
    RedisStore,
    RedisDelete,
    OssPreview,
}

/// How a failed call is named in its message.
pub open spec fn call_label(call: BackendCall) -> Seq<char> {
    match call {
        BackendCall::S3Upload => "S3 upload"@,
        BackendCall::S3Download => "S3 download"@,
        BackendCall::S3Delete => "S3 delete"@,
        BackendCall::DufsUpload => "Dufs upload"@,
        BackendCall::DufsDownload => "Dufs download"@,
        BackendCall::DufsDelete => "Dufs delete"@,
        BackendCall::RedisGet => "Redis GET"@,
        BackendCall::RedisStore => "Redis SET"@,
        BackendCall::RedisDelete => "Redis DEL"@,
        BackendCall::OssPreview => "OSS preview"@,
    }
}

/// The error code reported for a failed call.
pub open spec fn call_code(call: BackendCall) -> Seq<char> {
    match call {
        BackendCall::S3Upload => "S3_UPLOAD_FAILED"@,
        BackendCall::S3Download => "S3_DOWNLOAD_FAILED"@,
        BackendCall::S3Delete => "S3_DELETE_FAILED"@,
        BackendCall::DufsUpload => "DUFS_UPLOAD_FAILED"@,
        BackendCall::DufsDownload => "DUFS_DOWNLOAD_FAILED"@,
        BackendCall::DufsDelete => "DUFS_DELETE_FAILED"@,
        BackendCall::RedisGet => "REDIS_GET_FAILED"@,
        BackendCall::RedisStore => "REDIS_SET_FAILED"@,
        BackendCall::RedisDelete => "REDIS_DEL_FAILED"@,
        BackendCall::OssPreview => "OSS_PREVIEW_FAILED"@,
    }
}

/// `<label> failed (<status>): <body>`.
pub open spec fn call_failure_message(call: BackendCall, status: u16, body: Seq<char>) -> Seq<char> {
    call_label(call) + " failed ("@ + decimal(status as nat) + "): "@ + body
}

fn call_label_str(call: BackendCall) -> (r: &'static str)
    ensures
        r@ == call_label(call),
{
    match call {
        BackendCall::S3Upload => "S3 upload",
        BackendCall::S3Download => "S3 download",
        BackendCall::S3Delete => "S3 delete",
        BackendCall::DufsUpload => "Dufs upload",
        BackendCall::DufsDownload => "Dufs download",
        BackendCall::DufsDelete => "Dufs delete",
        BackendCall::RedisGet => "Redis GET",
        BackendCall::RedisStore => "Redis SET",
        BackendCall::RedisDelete => "Redis DEL",
        BackendCall::OssPreview => "OSS preview",
    }
}

fn call_code_str(call: BackendCall) -> (r: &'static str)
    ensures
        r@ == call_code(call),
{
    match call {
        BackendCall::S3Upload => "S3_UPLOAD_FAILED",
        BackendCall::S3Download => "S3_DOWNLOAD_FAILED",
        BackendCall::S3Delete => "S3_DELETE_FAILED",
        BackendCall::DufsUpload => "DUFS_UPLOAD_FAILED",
        BackendCall::DufsDownload => "DUFS_DOWNLOAD_FAILED",
        BackendCall::DufsDelete => "DUFS_DELETE_FAILED",
        BackendCall::RedisGet => "REDIS_GET_FAILED",
        BackendCall::RedisStore => "REDIS_SET_FAILED",
        BackendCall::RedisDelete => "REDIS_DEL_FAILED",
        BackendCall::OssPreview => "OSS_PREVIEW_FAILED",
    }
}

/// The error message and code reported when a backend call answers with a
/// failing `status` and `body`.
pub fn call_failure(call: BackendCall, status: u16, body: &str) -> (r: (String, String))
    ensures
        r.0@ == call_failure_message(call, status, body@),
        r.1@ == call_code(call),
{
    let mut m = String::new();
    push_str(&mut m, call_label_str(call));
    push_str(&mut m, " failed (");
    push_decimal(&mut m, status as u64);
    push_str(&mut m, "): ");
    push_str(&mut m, body);
    (m, call_code_str(call).to_owned())
}

/// The headers of a proxied download: the backend's `Content-Type` (or
/// `application/octet-stream`) and a year-long public cache.
pub open spec fn download_headers_spec(content_type: Option<Seq<char>>) -> Seq<(Seq<char>, Seq<char>)> {
    seq![
        ("Content-Type"@, match content_type {
            Some(t) => t,
            None => "application/octet-stream"@,
        }),
        ("Cache-Control"@, "public, max-age=31536000"@),
    ]
}

/// The headers of a proxied download.
pub fn download_headers(content_type: Option<&str>) -> (res: Vec<(String, String)>)
    ensures
        pairs_view(res@) == download_headers_spec(crate::sigv4::opt_view(content_type)),
{
    let ct: &str = match content_type {
        Some(t) => t,
        None => "application/octet-stream",
    };
    let mut h: Vec<(String, String)> = Vec::new();
    h.push(header("Content-Type", ct));
    h.push(header("Cache-Control", "public, max-age=31536000"));
    proof {
        reveal_strlit("Content-Type");
        reveal_strlit("Cache-Control");
        reveal_strlit("public, max-age=31536000");
        reveal_strlit("application/octet-stream");
        assert(pairs_view(h@) =~= download_headers_spec(crate::sigv4::opt_view(content_type)));
    }
    h
}

// ───────────────────────── dispatch by backend ─────────────────────────

/// The upload of `body` as `key` on the configured backend, made at `secs`:
/// a signed S3 `PUT` with the given content type, a Dufs `PUT`, or nothing
/// for Redis, which takes no uploads.
pub open spec fn upload_request_spec(
    c: BackendConfig,
    key: Seq<char>,
    content_type: Seq<char>,
    body: Seq<u8>,
    secs: nat,
    r: Option<OutgoingRequest>,
) -> bool {
    match c.backend_type {
        BackendType::S3 => r matches Some(q) && s3_object_request_spec(
            c,
            HttpMethod::Put,
            key,
            Some(content_type),
            body,
            secs,
            q,
        ),
        BackendType::Dufs => r matches Some(q) && dufs_object_request_spec(c, HttpMethod::Put, key, q),
        BackendType::Redis => r is None,
    }
}

/// The upload request for `key`, made at `now` seconds.
pub fn upload_request_at(
    config: &BackendConfig,
    key: &str,
    content_type: &str,
    body: &[u8],
    now: u64,
) -> (res: Option<OutgoingRequest>)
    requires
        basic_auth_fits(*config),
    ensures
        upload_request_spec(*config, key@, content_type@, body@, now as nat, res),
{
    match config.backend_type {
        BackendType::S3 => Some(
            s3_object_request_at(config, HttpMethod::Put, key, Some(content_type), body, now),
        ),
        BackendType::Dufs => Some(dufs_object_request(config, HttpMethod::Put, key)),
        BackendType::Redis => None,
    }
}

/// The upload request for `key`, made now.
pub fn upload_request(config: &BackendConfig, key: &str, content_type: &str, body: &[u8]) -> (res:
    Option<OutgoingRequest>)
    requires
        basic_auth_fits(*config),
    ensures
        exists|secs: nat| upload_request_spec(*config, key@, content_type@, body@, secs, res),
{
    upload_request_at(config, key, content_type, body, now_secs())
}

/// Reading `key` from the configured backend, made at `secs`: a signed S3
/// `GET` with no body, a Dufs `GET`, or a Redis `get/<key>`.
pub open spec fn download_request_spec(c: BackendConfig, key: Seq<char>, secs: nat, r: OutgoingRequest) -> bool {
    match c.backend_type {
        BackendType::S3 => s3_object_request_spec(c, HttpMethod::Get, key, None, Seq::empty(), secs, r),
        BackendType::Dufs => dufs_object_request_spec(c, HttpMethod::Get, key, r),
        BackendType::Redis => redis_request_spec(c, RedisCommand::Get, key, r),
    }
}

/// Deleting `key` from the configured backend, made at `secs`: a signed S3
/// `DELETE` with no body, a Dufs `DELETE`, or a Redis `del/<key>`.
pub open spec fn delete_request_spec(c: BackendConfig, key: Seq<char>, secs: nat, r: OutgoingRequest) -> bool {
    match c.backend_type {
        BackendType::S3 => s3_object_request_spec(c, HttpMethod::Delete, key, None, Seq::empty(), secs, r),
        BackendType::Dufs => dufs_object_request_spec(c, HttpMethod::Delete, key, r),
        BackendType::Redis => redis_request_spec(c, RedisCommand::Delete, key, r),
    }
}

/// A delete removes the object: on every backend the request is a delete of
/// that key. S3 gets a `DELETE` of the object's URL, signed for `DELETE` and
/// an empty body; Dufs a `DELETE` of the file's URL; Redis a `POST` of the
/// key's `del/` path.
pub proof fn law_delete_request_deletes(c: BackendConfig, key: Seq<char>, secs: nat, r: OutgoingRequest)
    requires
        delete_request_spec(c, key, secs, r),
    ensures
        c.backend_type == BackendType::S3 ==> {
            &&& r.method == HttpMethod::Delete
            &&& r.url@ == trim_end_char(c.endpoint@, '/') + "/"@ + c.bucket@ + "/"@ + trim_start_char(
                key,
                '/',
            )
            &&& r.header_pairs()[0] == ("Authorization"@, auth_header_spec(
                c,
                "DELETE"@,
                key,
                None,
                Seq::empty(),
                secs,
            ))
        },
        c.backend_type == BackendType::Dufs ==> r.method == HttpMethod::Delete && r.url@
            == trim_end_char(c.endpoint@, '/') + "/"@ + trim_start_char(key, '/'),
        c.backend_type == BackendType::Redis ==> r.method == HttpMethod::Post && r.url@
            == trim_end_char(c.endpoint@, '/') + "/"@ + trim_start_char("del/"@ + key, '/'),
{
    reveal_strlit("DELETE");
    if c.backend_type == BackendType::S3 {
        assert(r.header_pairs()[0] == s3_headers_spec(c, HttpMethod::Delete, key, None, Seq::empty(), secs)[0]);
    }
}

/// The read request for `key`, made at `now` seconds.
pub fn download_request_at(config: &BackendConfig, key: &str, now: u64) -> (res: OutgoingRequest)
    requires
        basic_auth_fits(*config),
    ensures
        download_request_spec(*config, key@, now as nat, res),
{
    let empty: Vec<u8> = Vec::new();
    match config.backend_type {
        BackendType::S3 => s3_object_request_at(config, HttpMethod::Get, key, None, empty.as_slice(), now),
        BackendType::Dufs => dufs_object_request(config, HttpMethod::Get, key),
        BackendType::Redis => redis_request(config, RedisCommand::Get, key),
    }
}

/// The read request for `key`, made now.
pub fn download_request(config: &BackendConfig, key: &str) -> (res: OutgoingRequest)
    requires
        basic_auth_fits(*config),
    ensures
        exists|secs: nat| download_request_spec(*config, key@, secs, res),
{
    download_request_at(config, key, now_secs())
}

/// The delete request for `key`, made at `now` seconds.
pub fn delete_request_at(config: &BackendConfig, key: &str, now: u64) -> (res: OutgoingRequest)
    requires
        basic_auth_fits(*config),
    ensures
        delete_request_spec(*config, key@, now as nat, res),
{
    let empty: Vec<u8> = Vec::new();
    match config.backend_type {
        BackendType::S3 => s3_object_request_at(config, HttpMethod::Delete, key, None, empty.as_slice(), now),
        BackendType::Dufs => dufs_object_request(config, HttpMethod::Delete, key),
        BackendType::Redis => redis_request(config, RedisCommand::Delete, key),
    }
}

/// The delete request for `key`, made now.
pub fn delete_request(config: &BackendConfig, key: &str) -> (res: OutgoingRequest)
    requires
        basic_auth_fits(*config),
    ensures
        exists|secs: nat| delete_request_spec(*config, key@, secs, res),
{
    delete_request_at(config, key, now_secs())
}

/// The connection test of the configured backend, made at `secs`.
pub open spec fn probe_request_spec(c: BackendConfig, secs: nat, r: OutgoingRequest) -> bool {
    match c.backend_type {
        BackendType::S3 => s3_probe_request_spec(c, secs, r),
        BackendType::Dufs => dufs_probe_request_spec(c, r),
        BackendType::Redis => redis_request_spec(c, RedisCommand::Ping, Seq::empty(), r),
    }
}

/// The connection test of the configured backend, made now.
pub fn probe_request(config: &BackendConfig) -> (res: OutgoingRequest)
    requires
        basic_auth_fits(*config),
    ensures
        exists|secs: nat| probe_request_spec(*config, secs, res),
{
    let now = now_secs();
    proof {
        reveal_strlit("");
    }
    let r = match config.backend_type {
        BackendType::S3 => s3_probe_request_at(config, now),
        BackendType::Dufs => dufs_probe_request(config),
        BackendType::Redis => redis_request(config, RedisCommand::Ping, ""),
    };
    assert(probe_request_spec(*config, now as nat, r));
    r
}

/// An operation on a stored object.
#[derive(Clone, Copy, Debug, PartialEq, Eq, Structural)]
pub enum ObjectOp {
    Upload,
    Download,
    Delete,
}

/// Which call a failed upload, read or delete on the configured backend was.
pub open spec fn object_call_spec(kind: BackendType, op: ObjectOp) -> BackendCall {
    match (kind, op) {
        (BackendType::S3, ObjectOp::Upload) => BackendCall::S3Upload,
        (BackendType::S3, ObjectOp::Download) => BackendCall::S3Download,
        (BackendType::S3, ObjectOp::Delete) => BackendCall::S3Delete,
        (BackendType::Dufs, ObjectOp::Upload) => BackendCall::DufsUpload,
        (BackendType::Dufs, ObjectOp::Download) => BackendCall::DufsDownload,
        (BackendType::Dufs, ObjectOp::Delete) => BackendCall::DufsDelete,
        (BackendType::Redis, ObjectOp::Upload) => BackendCall::RedisStore,
        (BackendType::Redis, ObjectOp::Download) => BackendCall::RedisGet,
        (BackendType::Redis, ObjectOp::Delete) => BackendCall::RedisDelete,
    }
}

/// Which call a failed upload, read or delete on the configured backend was.
pub fn object_call(kind: BackendType, op: ObjectOp) -> (r: BackendCall)
    ensures
        r == object_call_spec(kind, op),
{
    match (kind, op) {
        (BackendType::S3, ObjectOp::Upload) => BackendCall::S3Upload,
        (BackendType::S3, ObjectOp::Download) => BackendCall::S3Download,
        (BackendType::S3, ObjectOp::Delete) => BackendCall::S3Delete,
        (BackendType::Dufs, ObjectOp::Upload) => BackendCall::DufsUpload,
        (BackendType::Dufs, ObjectOp::Download) => BackendCall::DufsDownload,
        (BackendType::Dufs, ObjectOp::Delete) => BackendCall::DufsDelete,
        (BackendType::Redis, ObjectOp::Upload) => BackendCall::RedisStore,
        (BackendType::Redis, ObjectOp::Download) => BackendCall::RedisGet,
        (BackendType::Redis, ObjectOp::Delete) => BackendCall::RedisDelete,
    }
}

/// `Expected <expected> backend, got <actual>`: the refusal of a route that
/// serves other kinds of backend.
pub fn backend_mismatch_message(expected: &str, actual: BackendType) -> (r: String)
    ensures
        r@ == "Expected "@ + expected@ + " backend, got "@ + crate::types::backend_name(actual),
{
    let mut m = String::new();
    push_str(&mut m, "Expected ");
    push_str(&mut m, expected);
    push_str(&mut m, " backend, got ");
    push_str(&mut m, actual.as_str());
    m
}

} // verus!
