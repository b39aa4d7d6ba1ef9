//! The decisions of the HTTP routes: query parameters and pages, presigned
//! URL requests, audit entries, health summaries and CORS headers.

use vstd::prelude::*;

use crate::backends::{
    opt_string_view, redis_request, redis_request_spec, OutgoingRequest, RedisCommand,
};
use crate::ids::{is_uuid_text, new_uuid};
use crate::sigv4::{opt_view, pairs_view, presign_get, presign_put, presign_url_spec};
use crate::text::{parse_i64, parse_i64_spec, parse_usize, parse_usize_spec, push_str, str_eq};
use crate::types::{
    backend_name, ApiResponse, AuditLog, BackendConfig, BackendType, HealthProbeResult, TestResult,
};

verus! {

// ───────────────────────── query parameters ─────────────────────────

/// The value of the first query pair named `name`.
pub open spec fn first_value(pairs: Seq<(Seq<char>, Seq<char>)>, name: Seq<char>) -> Option<Seq<char>>
    decreases pairs.len(),
{
    if pairs.len() == 0 {
        None
    } else if pairs[0].0 == name {
        Some(pairs[0].1)
    } else {
        first_value(pairs.drop_first(), name)
    }
}

/// The value of the first query pair named `name`, if any.
pub fn query_value(pairs: &Vec<(String, String)>, name: &str) -> (res: Option<String>)
    ensures
        opt_string_view(res) == first_value(pairs_view(pairs@), name@),
{
    let ghost ps = pairs_view(pairs@);
    let mut i: usize = 0;
    assert(ps.skip(0) =~= ps);
    while i < pairs.len()
        invariant
            i <= pairs@.len(),
            ps == pairs_view(pairs@),
            first_value(ps, name@) == first_value(ps.skip(i as int), name@),
        decreases pairs@.len() - i,
    {
        assert(ps.skip(i as int).drop_first() =~= ps.skip(i + 1));
        assert(ps.skip(i as int)[0] == ps[i as int]);
        if str_eq(pairs[i].0.as_str(), name) {
            return Some(pairs[i].1.clone());
        }
        i = i + 1;
    }
    None
}

/// A signed query parameter: the first pair named `name`, when its value
/// parses; `default` when there is no such pair or it does not parse.
pub open spec fn query_i64_spec(pairs: Seq<(Seq<char>, Seq<char>)>, name: Seq<char>, default: i64) -> i64 {
    match first_value(pairs, name) {
        Some(v) => match parse_i64_spec(v) {
            Some(n) => n,
            None => default,
        },
        None => default,
    }
}

/// An unsigned query parameter, read as `query_i64_spec` reads a signed one.
pub open spec fn query_usize_spec(pairs: Seq<(Seq<char>, Seq<char>)>, name: Seq<char>, default: usize) -> usize {
    match first_value(pairs, name) {
        Some(v) => match parse_usize_spec(v) {
            Some(n) => n,
            None => default,
        },
        None => default,
    }
}

/// A signed query parameter, or `default`.
pub fn query_i64(pairs: &Vec<(String, String)>, name: &str, default: i64) -> (res: i64)
    ensures
        res == query_i64_spec(pairs_view(pairs@), name@, default),
{
    match query_value(pairs, name) {
        Some(v) => match parse_i64(v.as_str()) {
            Some(n) => n,
            None => default,
        },
        None => default,
    }
}

/// An unsigned query parameter, or `default`.
pub fn query_usize(pairs: &Vec<(String, String)>, name: &str, default: usize) -> (res: usize)
    ensures
        res == query_usize_spec(pairs_view(pairs@), name@, default),
{
    match query_value(pairs, name) {
        Some(v) => match parse_usize(v.as_str()) {
            Some(n) => n,
            None => default,
        },
        None => default,
    }
}

/// The `offset` and `limit` of a listing (offset 0 and `default_limit` when
/// absent or unreadable).
pub fn page_i64(pairs: &Vec<(String, String)>, default_limit: i64) -> (res: (i64, i64))
    ensures
        res.0 == query_i64_spec(pairs_view(pairs@), "offset"@, 0),
        res.1 == query_i64_spec(pairs_view(pairs@), "limit"@, default_limit),
{
    (query_i64(pairs, "offset", 0), query_i64(pairs, "limit", default_limit))
}

/// The `offset` and `limit` of the configuration listing (offset 0 and
/// limit 20 when absent or unreadable).
pub fn config_page(pairs: &Vec<(String, String)>) -> (res: (usize, usize))
    ensures
        res.0 == query_usize_spec(pairs_view(pairs@), "offset"@, 0),
        res.1 == query_usize_spec(pairs_view(pairs@), "limit"@, 20),
{
    (query_usize(pairs, "offset", 0), query_usize(pairs, "limit", 20))
}

/// Default page size of the tenant and admin file listings and the audit log.
pub const FILE_PAGE_LIMIT: i64 = 50;

/// Default page size of the tenant listing.
pub const TENANT_PAGE_LIMIT: i64 = 20;

// ───────────────────────── presigned URLs ─────────────────────────

/// Why a presigned URL was refused: the configuration is not S3.
pub fn presign_refusal() -> (r: ApiResponse<()>)
    ensures
        !r.success,
        r.error matches Some(e) && e@ == "Presigned URLs are only available for S3 backends"@,
        r.code matches Some(c) && c@ == "UNSUPPORTED_BACKEND"@,
{
    ApiResponse::err("Presigned URLs are only available for S3 backends", "UNSUPPORTED_BACKEND")
}

/// Validity of a presigned URL when the request names none: one hour.
pub const DEFAULT_PRESIGN_EXPIRY_SECS: u64 = 3600;

/// The content type of a presigned upload: the requested one, or
/// `application/octet-stream`.
pub open spec fn upload_type_or_default(t: Option<Seq<char>>) -> Seq<char> {
    match t {
        Some(t) => t,
        None => "application/octet-stream"@,
    }
}

/// The validity of a presigned URL: the requested one, or one hour.
pub open spec fn expiry_or_default(e: Option<u64>) -> u64 {
    match e {
        Some(e) => e,
        None => DEFAULT_PRESIGN_EXPIRY_SECS,
    }
}

/// A presigned upload URL for an S3 configuration, with the requested
/// content type and expiry or their defaults, signed now, and the expiry;
/// `None` for other backends.
pub fn presign_upload_for(
    config: &BackendConfig,
    key: &str,
    content_type: Option<&str>,
    expires_in_seconds: Option<u64>,
) -> (res: Option<(String, u64)>)
    ensures
        (config.backend_type == BackendType::S3) == res is Some,
        res matches Some(p) ==> p.1 == expiry_or_default(expires_in_seconds) && exists|secs: nat|
            p.0@ == #[trigger] presign_url_spec(
                *config,
                key@,
                "PUT"@,
                Some(upload_type_or_default(opt_view(content_type))),
                expiry_or_default(expires_in_seconds),
                None,
                secs,
            ),
{
    if config.backend_type != BackendType::S3 {
        return None;
    }
    let expires = match expires_in_seconds {
        Some(e) => e,
        None => DEFAULT_PRESIGN_EXPIRY_SECS,
    };
    let ct: &str = match content_type {
        Some(t) => t,
        None => "application/octet-stream",
    };
    assert(ct@ == upload_type_or_default(opt_view(content_type)));
    let url = presign_put(config, key, ct, expires);
    Some((url, expires))
}

/// A presigned download URL for an S3 configuration, with the requested
/// expiry (or one hour) and download name, signed now, and the expiry;
/// `None` for other backends.
pub fn presign_download_for(
    config: &BackendConfig,
    key: &str,
    filename: Option<&str>,
    expires_in_seconds: Option<u64>,
) -> (res: Option<(String, u64)>)
    ensures
        (config.backend_type == BackendType::S3) == res is Some,
        res matches Some(p) ==> p.1 == expiry_or_default(expires_in_seconds) && exists|secs: nat|
            p.0@ == #[trigger] presign_url_spec(
                *config,
                key@,
                "GET"@,
                None,
                expiry_or_default(expires_in_seconds),
                opt_view(filename),
                secs,
            ),
{
    if config.backend_type != BackendType::S3 {
        return None;
    }
    let expires = match expires_in_seconds {
        Some(e) => e,
        None => DEFAULT_PRESIGN_EXPIRY_SECS,
    };
    let url = presign_get(config, key, expires, filename);
    proof {
        let secs = choose|secs: nat|
            url@ == presign_url_spec(*config, key@, "GET"@, None, expires, opt_view(filename), secs);
        assert(expires == expiry_or_default(expires_in_seconds));
        assert(url@ == presign_url_spec(
            *config,
            key@,
            "GET"@,
            None,
            expiry_or_default(expires_in_seconds),
            opt_view(filename),
            secs,
        ));
    }
    Some((url, expires))
}

// ───────────────────────── Redis SET ─────────────────────────

/// Why a Redis `SET` was refused before reaching the backend.
#[derive(Clone, Copy, Debug, PartialEq, Eq, Structural)]
pub enum RedisSetError {
    /// The configuration is not a Redis one (answered with status 400).
    NotRedis,
    /// The request names no key.
    MissingKey,
}

/// The `SET` of `value` (empty when absent) under `key` on a Redis
/// configuration: the request and its body.
pub fn redis_set_request(
    config: &BackendConfig,
    key: Option<&str>,
    value: Option<&str>,
) -> (res: Result<(OutgoingRequest, String), RedisSetError>)
    ensures
        config.backend_type != BackendType::Redis ==> res == Err::<(OutgoingRequest, String), RedisSetError>(
            RedisSetError::NotRedis,
        ),
        config.backend_type == BackendType::Redis && key is None ==> res == Err::<
            (OutgoingRequest, String),
            RedisSetError,
        >(RedisSetError::MissingKey),
        res matches Ok(p) ==> key matches Some(k) && redis_request_spec(
            *config,
            RedisCommand::Store,
            k@,
            p.0,
        ) && p.1@ == match value {
            Some(v) => v@,
            None => Seq::<char>::empty(),
        },
        config.backend_type == BackendType::Redis && key is Some ==> res is Ok,
{
    if config.backend_type != BackendType::Redis {
        return Err(RedisSetError::NotRedis);
    }
    let k = match key {
        Some(k) => k,
        None => return Err(RedisSetError::MissingKey),
    };
    let body = match value {
        Some(v) => v.to_owned(),
        None => String::new(),
    };
    Ok((redis_request(config, RedisCommand::Store, k), body))
}

// ───────────────────────── audit entries ─────────────────────────

/// What an audit entry records.
#[derive(Clone, Copy, Debug, PartialEq, Eq, Structural)]
pub enum AuditAction {
    Create,
    Update,
    Delete,
    Test,
    Login,
    LoginFailure,
}

/// The action's name in the audit log.
pub open spec fn action_name(a: AuditAction) -> Seq<char> {
    match a {
        AuditAction::Create => "create"@,
        AuditAction::Update => "update"@,
        AuditAction::Delete => "delete"@,
        AuditAction::Test => "test"@,
        AuditAction::Login => "login"@,
        AuditAction::LoginFailure => "login_failure"@,
    }
}

impl AuditAction {
    /// The action's name in the audit log.
    pub fn as_str(&self) -> (r: &'static str)
        ensures
            r@ == action_name(*self),
    {
        match self {
            AuditAction::Create => "create",
            AuditAction::Update => "update",
            AuditAction::Delete => "delete",
            AuditAction::Test => "test",
            AuditAction::Login => "login",
            AuditAction::LoginFailure => "login_failure",
        }
    }
}

/// What an audited change was made to.
#[derive(Clone, Copy, Debug, PartialEq, Eq, Structural)]
pub enum AuditSubject {
    Config,
    Tenant,
}

/// `Created config 'name'`, `Updated tenant 'name'` and the like.
pub open spec fn change_detail_spec(action: AuditAction, subject: AuditSubject, name: Seq<char>) -> Seq<char> {
    let verb = match action {
        AuditAction::Create => "Created"@,
        AuditAction::Update => "Updated"@,
        AuditAction::Delete => "Deleted"@,
        _ => "Tested"@,
    };
    let noun = match subject {
        AuditSubject::Config => "config"@,
        AuditSubject::Tenant => "tenant"@,
    };
    verb + " "@ + noun + " '"@ + name + "'"@
}

/// The detail of an audited change to a configuration or tenant; any action
/// other than create, update and delete is a test.
pub fn change_detail(action: AuditAction, subject: AuditSubject, name: &str) -> (r: String)
    ensures
        r@ == change_detail_spec(action, subject, name@),
{
    let mut s = String::new();
    match action {
        AuditAction::Create => push_str(&mut s, "Created"),
        AuditAction::Update => push_str(&mut s, "Updated"),
        AuditAction::Delete => push_str(&mut s, "Deleted"),
        _ => push_str(&mut s, "Tested"),
    }
    push_str(&mut s, " ");
    match subject {
        AuditSubject::Config => push_str(&mut s, "config"),
        AuditSubject::Tenant => push_str(&mut s, "tenant"),
    }
    push_str(&mut s, " '");
    push_str(&mut s, name);
    push_str(&mut s, "'");
    s
}

/// The detail recorded for a refused sign-in.
pub fn login_refused_detail() -> (r: String)
    ensures
        r@ == "Not in admin whitelist"@,
{
    "Not in admin whitelist".to_owned()
}

/// The detail recorded for an admitted sign-in.
pub fn login_detail() -> (r: String)
    ensures
        r@ == "Admin logged in via GitHub OAuth"@,
{
    "Admin logged in via GitHub OAuth".to_owned()
}

/// An audit entry made at `now`, with a fresh random id.
pub fn audit_log_entry(username: &str, action: AuditAction, detail: &str, now: u64) -> (r: AuditLog)
    ensures
        is_uuid_text(r.id@),
        r.action@ == action_name(action),
        r.username@ == username@,
        r.detail@ == detail@,
        r.created_at == now,
{
    AuditLog {
        id: new_uuid(),
        action: action.as_str().to_owned(),
        username: username.to_owned(),
        detail: detail.to_owned(),
        created_at: now,
    }
}

// ───────────────────────── health ─────────────────────────

/// What probing one backend gave.
#[derive(Clone, Debug)]
pub enum ProbeOutcome {
    /// The probe ran and reported this result.
    Answered(TestResult),
    /// The probe's report could not be read.
    Unreadable,
    /// The probe could not run, for this reason.
    Failed(String),
}

/// The health entry of a configuration: `ok` with no error when the probe
/// reported success, otherwise `error` with the probe's message, the
/// unreadable-report message or the failure's reason.
pub open spec fn health_entry_spec(c: BackendConfig, outcome: ProbeOutcome, latency_ms: u64, r: HealthProbeResult) -> bool {
    &&& r.config_id@ == c.id@
    &&& r.config_name@ == c.name@
    &&& r.backend_type@ == backend_name(c.backend_type)
    &&& r.latency_ms == latency_ms
    &&& match outcome {
        ProbeOutcome::Answered(t) => if t.ok {
            r.status@ == "ok"@ && r.error is None
        } else {
            r.status@ == "error"@ && opt_string_view(r.error) == Some(t.message@)
        },
        ProbeOutcome::Unreadable => r.status@ == "error"@ && opt_string_view(r.error) == Some(
            "Failed to parse response"@,
        ),
        ProbeOutcome::Failed(e) => r.status@ == "error"@ && opt_string_view(r.error) == Some(e@),
    }
}

/// The health entry of a configuration probed in `latency_ms` milliseconds.
pub fn health_entry(config: &BackendConfig, outcome: ProbeOutcome, latency_ms: u64) -> (r: HealthProbeResult)
    ensures
        health_entry_spec(*config, outcome, latency_ms, r),
{
    let (ok, error): (bool, Option<String>) = match outcome {
        ProbeOutcome::Answered(t) => if t.ok {
            (true, None)
        } else {
            (false, Some(t.message))
        },
        ProbeOutcome::Unreadable => (false, Some("Failed to parse response".to_owned())),
        ProbeOutcome::Failed(e) => (false, Some(e)),
    };
    HealthProbeResult {
        config_id: config.id.clone(),
        config_name: config.name.clone(),
        backend_type: config.backend_type.as_str().to_owned(),
        status: if ok {
            "ok".to_owned()
        } else {
            "error".to_owned()
        },
        latency_ms,
        error,
    }
}

/// How many entries report `ok`.
pub open spec fn ok_count_spec(rs: Seq<HealthProbeResult>) -> nat
    decreases rs.len(),
{
    if rs.len() == 0 {
        0
    } else {
        ok_count_spec(rs.drop_last()) + if rs.last().status@ == "ok"@ {
            1nat
        } else {
            0nat
        }
    }
}

proof fn lemma_ok_count_le(rs: Seq<HealthProbeResult>)
    ensures
        ok_count_spec(rs) <= rs.len(),
    decreases rs.len(),
{
    if rs.len() > 0 {
        lemma_ok_count_le(rs.drop_last());
    }
}

/// The number of healthy and failing backends; together they are all of them.
pub fn health_counts(results: &Vec<HealthProbeResult>) -> (r: (i64, i64))
    requires
        results@.len() <= i64::MAX,
    ensures
        r.0 == ok_count_spec(results@),
        r.1 == results@.len() - ok_count_spec(results@),
        r.0 + r.1 == results@.len(),
        0 <= r.0,
        0 <= r.1,
{
    let mut ok: i64 = 0;
    let mut i: usize = 0;
    while i < results.len()
        invariant
            i <= results@.len() <= i64::MAX,
            ok == ok_count_spec(results@.take(i as int)),
            ok <= i,
        decreases results@.len() - i,
    {
        assert(results@.take(i + 1).drop_last() =~= results@.take(i as int));
        if str_eq(results[i].status.as_str(), "ok") {
            ok = ok + 1;
        }
        i = i + 1;
    }
    assert(results@.take(results@.len() as int) =~= results@);
    proof {
        lemma_ok_count_le(results@);
    }
    (ok, results.len() as i64 - ok)
}

// ───────────────────────── CORS ─────────────────────────

/// The headers answering a CORS preflight: any origin, the five methods,
/// the two request headers, and a day's caching.
pub open spec fn cors_preflight_spec() -> Seq<(Seq<char>, Seq<char>)> {
    cors_spec().push(("Access-Control-Max-Age"@, "86400"@))
}

/// The CORS headers added to API responses.
pub open spec fn cors_spec() -> Seq<(Seq<char>, Seq<char>)> {
    seq![
        ("Access-Control-Allow-Origin"@, "*"@),
        ("Access-Control-Allow-Methods"@, "GET, POST, PUT, DELETE, OPTIONS"@),
        ("Access-Control-Allow-Headers"@, "Authorization, Content-Type"@),
    ]
}

/// The CORS headers added to API responses.
pub fn cors_headers() -> (r: Vec<(String, String)>)
    ensures
        pairs_view(r@) == cors_spec(),
{
    let mut h: Vec<(String, String)> = Vec::new();
    h.push(("Access-Control-Allow-Origin".to_owned(), "*".to_owned()));
    h.push(("Access-Control-Allow-Methods".to_owned(), "GET, POST, PUT, DELETE, OPTIONS".to_owned()));
    h.push(("Access-Control-Allow-Headers".to_owned(), "Authorization, Content-Type".to_owned()));
    assert(pairs_view(h@) =~= cors_spec());
    h
}

/// The headers answering a CORS preflight.
pub fn cors_response() -> (r: Vec<(String, String)>)
    ensures
        pairs_view(r@) == cors_preflight_spec(),
{
    let mut h = cors_headers();
    let ghost before = h@;
    h.push(("Access-Control-Max-Age".to_owned(), "86400".to_owned()));
    assert(pairs_view(h@) =~= pairs_view(before).push(("Access-Control-Max-Age"@, "86400"@)));
    h
}

} // verus!
