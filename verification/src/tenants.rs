//! Tenants: credential checks, daily request and storage quotas, creating
//! and updating tenants, and what an upload records.

use vstd::prelude::*;
use vstd::utf8::encode_utf8;

use crate::backends::{HttpMethod, OutgoingRequest};
use crate::config::given_or;
use crate::jwt::{
    check_not_expired, json_quote, json_string, jwt_check_spec, jwt_sign_spec, tenant_claims_spec,
    tenant_token_at, verify_jwt_signature, JwtError, TENANT_TOKEN_TTL_SECS,
};
use crate::session::{bearer_token_spec, extract_token};
use crate::sigv4::{opt_view, pairs_view, presign_get, presign_url_spec};
use crate::ids::{generate_api_key, generate_api_secret, is_uuid_text, new_uuid};
use crate::text::{
    chars_of, has_prefix, has_prefix_at, push_i64, push_str, signed_decimal, str_eq,
    string_of, trim_end_char, trim_end_char_exec,
};
use crate::types::{
    BackendConfig, BackendType, CreateTenantInput, FileRecord, Tenant, TenantAuthOutput,
    TenantClaims, TenantOssPreviewInput, UpdateTenantInput,
};

verus! {

/// Why a tenant request was refused.
#[derive(Clone, Copy, Debug, PartialEq, Eq, Structural)]
pub enum TenantError {
    TenantNotFound,
    TenantDisabled,
    InvalidApiKey,
    InvalidApiSecret,
    DailyQuotaExceeded,
    /// The upload would bring storage to `new_total`, above `max`.
    StorageQuotaExceeded { new_total: i64, max: i64 },
}

/// The message reported for a refusal.
pub open spec fn tenant_error_message(e: TenantError) -> Seq<char> {
    match e {
        TenantError::TenantNotFound => "Tenant not found"@,
        TenantError::TenantDisabled => "Tenant is disabled"@,
        TenantError::InvalidApiKey => "Invalid API key"@,
        TenantError::InvalidApiSecret => "Invalid API secret"@,
        TenantError::DailyQuotaExceeded => "Daily request quota exceeded"@,
        TenantError::StorageQuotaExceeded { new_total, max } => "Storage quota exceeded ("@
            + signed_decimal(new_total as int) + " / "@ + signed_decimal(max as int) + " bytes)"@,
    }
}

impl TenantError {
    /// The message reported for this refusal.
    pub fn message(&self) -> (r: String)
        ensures
            r@ == tenant_error_message(*self),
    {
        match self {
            TenantError::TenantNotFound => "Tenant not found".to_owned(),
            TenantError::TenantDisabled => "Tenant is disabled".to_owned(),
            TenantError::InvalidApiKey => "Invalid API key".to_owned(),
            TenantError::InvalidApiSecret => "Invalid API secret".to_owned(),
            TenantError::DailyQuotaExceeded => "Daily request quota exceeded".to_owned(),
            TenantError::StorageQuotaExceeded { new_total, max } => {
                let mut s = String::new();
                push_str(&mut s, "Storage quota exceeded (");
                push_i64(&mut s, *new_total);
                push_str(&mut s, " / ");
                push_i64(&mut s, *max);
                push_str(&mut s, " bytes)");
                s
            },
        }
    }
}

// ───────────────────────── credentials ─────────────────────────

/// Outcome of logging in with an API key and secret, given the tenant found
/// by the key.
pub open spec fn credentials_spec(found: Option<Tenant>, api_secret: Seq<char>) -> Result<
    Tenant,
    TenantError,
> {
    match found {
        None => Err(TenantError::InvalidApiKey),
        Some(t) => if !t.is_active {
            Err(TenantError::TenantDisabled)
        } else if t.api_secret@ != api_secret {
            Err(TenantError::InvalidApiSecret)
        } else {
            Ok(t)
        },
    }
}

/// Checks a login: the key must name a tenant, the tenant must be active and
/// the secret must match.
pub fn verify_tenant_credentials(found: Option<Tenant>, api_secret: &str) -> (res: Result<
    Tenant,
    TenantError,
>)
    ensures
        res == credentials_spec(found, api_secret@),
{
    match found {
        None => Err(TenantError::InvalidApiKey),
        Some(t) => {
            if !t.is_active {
                Err(TenantError::TenantDisabled)
            } else if !str_eq(t.api_secret.as_str(), api_secret) {
                Err(TenantError::InvalidApiSecret)
            } else {
                Ok(t)
            }
        },
    }
}

/// The tenant's id and default backend configuration id, for an active tenant.
pub open spec fn backend_of_spec(found: Option<Tenant>) -> Result<(String, String), TenantError> {
    match found {
        None => Err(TenantError::TenantNotFound),
        Some(t) => if !t.is_active {
            Err(TenantError::TenantDisabled)
        } else {
            Ok((t.id, t.default_backend_config_id))
        },
    }
}

/// The tenant's id and default backend configuration id, for an active tenant.
pub fn resolve_tenant_backend(found: Option<Tenant>) -> (res: Result<(String, String), TenantError>)
    ensures
        res == backend_of_spec(found),
{
    match found {
        None => Err(TenantError::TenantNotFound),
        Some(t) => {
            if !t.is_active {
                Err(TenantError::TenantDisabled)
            } else {
                Ok((t.id, t.default_backend_config_id))
            }
        },
    }
}

/// Whether files of this tenant may be downloaded without a token: the
/// tenant is active and serves its files publicly.
pub open spec fn public_download_spec(t: Tenant) -> bool {
    t.is_active && t.public_files
}

/// Whether files of this tenant may be downloaded without a token.
pub fn public_download_allowed(t: &Tenant) -> (r: bool)
    ensures
        r == public_download_spec(*t),
{
    t.is_active && t.public_files
}

// ───────────────────────── quotas ─────────────────────────

/// How the daily request counter is changed.
#[derive(Clone, Copy, Debug, PartialEq, Eq, Structural)]
pub enum CounterUpdate {
    /// A new day: the counter becomes 1 and the day is recorded.
    StartNewDay,
    /// The same day: the counter grows by one.
    Increment,
}

/// What a quota check does: the counter change it makes (if any) and its verdict.
#[derive(Clone, Copy, Debug)]
pub struct QuotaDecision {
    pub counter: Option<CounterUpdate>,
    pub verdict: Result<(), TenantError>,
}

/// The storage verdict for adding `size` bytes to what the tenant stores.
pub open spec fn storage_verdict(t: Tenant, size: i64) -> Result<(), TenantError> {
    if size > 0 && t.storage_used_bytes + size > t.max_storage_bytes {
        Err(
            TenantError::StorageQuotaExceeded {
                new_total: (t.storage_used_bytes + size) as i64,
                max: t.max_storage_bytes,
            },
        )
    } else {
        Ok(())
    }
}

/// Whether adding `size` bytes to the tenant's storage fits in an `i64`.
pub open spec fn storage_sum_fits(found: Option<Tenant>, size: i64) -> bool {
    match found {
        Some(t) => size > 0 ==> t.storage_used_bytes + size <= i64::MAX,
        None => true,
    }
}

/// The quota check for a request of `size` bytes on `today`: refused for an
/// unknown or disabled tenant or when today's requests are used up (counter
/// untouched); otherwise the request is counted (a new day restarts the count
/// at one), and then refused if storing `size` more bytes would pass the
/// storage quota.
pub open spec fn quota_spec(found: Option<Tenant>, today: Seq<char>, size: i64) -> QuotaDecision {
    match found {
        None => QuotaDecision { counter: None, verdict: Err(TenantError::TenantNotFound) },
        Some(t) => {
            let same_day = t.last_request_date@ == today;
            if !t.is_active {
                QuotaDecision { counter: None, verdict: Err(TenantError::TenantDisabled) }
            } else if same_day && t.requests_used_today >= t.max_requests_per_day {
                QuotaDecision { counter: None, verdict: Err(TenantError::DailyQuotaExceeded) }
            } else {
                QuotaDecision {
                    counter: Some(
                        if same_day {
                            CounterUpdate::Increment
                        } else {
                            CounterUpdate::StartNewDay
                        },
                    ),
                    verdict: storage_verdict(t, size),
                }
            }
        },
    }
}

/// Decides a quota check (the counter change is carried out by the caller).
pub fn check_and_update_quota(found: &Option<Tenant>, today: &str, size: i64) -> (res: QuotaDecision)
    requires
        storage_sum_fits(*found, size),
    ensures
        res == quota_spec(*found, today@, size),
{
    match found {
        None => QuotaDecision { counter: None, verdict: Err(TenantError::TenantNotFound) },
        Some(t) => {
            if !t.is_active {
                return QuotaDecision { counter: None, verdict: Err(TenantError::TenantDisabled) };
            }
            let same_day = str_eq(t.last_request_date.as_str(), today);
            let counter = if !same_day {
                CounterUpdate::StartNewDay
            } else {
                if t.requests_used_today >= t.max_requests_per_day {
                    return QuotaDecision {
                        counter: None,
                        verdict: Err(TenantError::DailyQuotaExceeded),
                    };
                }
                CounterUpdate::Increment
            };
            if size > 0 {
                let new_total = t.storage_used_bytes + size;
                if new_total > t.max_storage_bytes {
                    return QuotaDecision {
                        counter: Some(counter),
                        verdict: Err(
                            TenantError::StorageQuotaExceeded {
                                new_total,
                                max: t.max_storage_bytes,
                            },
                        ),
                    };
                }
            }
            QuotaDecision { counter: Some(counter), verdict: Ok(()) }
        },
    }
}

/// Today's request count after a quota check.
pub open spec fn requests_after(t: Tenant, today: Seq<char>, d: QuotaDecision) -> int {
    match d.counter {
        None => if t.last_request_date@ == today {
            t.requests_used_today as int
        } else {
            0
        },
        Some(CounterUpdate::StartNewDay) => 1,
        Some(CounterUpdate::Increment) => t.requests_used_today + 1,
    }
}

/// Today's request count never passes the daily quota: if it is within the
/// quota before a check, it is within the quota after it (for a quota of at
/// least one request).
pub proof fn law_daily_quota_respected(t: Tenant, today: Seq<char>, size: i64)
    requires
        t.max_requests_per_day >= 1,
        t.last_request_date@ == today ==> 0 <= t.requests_used_today <= t.max_requests_per_day,
    ensures
        0 <= requests_after(t, today, quota_spec(Some(t), today, size)) <= t.max_requests_per_day,
{
}

/// A request admitted with storage to spare keeps the tenant within its
/// storage quota: an accepted upload of `size` bytes fits.
pub proof fn law_accepted_upload_fits(t: Tenant, today: Seq<char>, size: i64)
    requires
        quota_spec(Some(t), today, size).verdict is Ok,
        size > 0,
    ensures
        t.storage_used_bytes + size <= t.max_storage_bytes,
{
}

/// A disabled tenant is locked out: its logins, its quota checks and its
/// file routes are all refused as disabled, and its files are not public.
pub proof fn law_disabled_tenant_locked_out(t: Tenant, secret: Seq<char>, today: Seq<char>, size: i64)
    requires
        !t.is_active,
    ensures
        credentials_spec(Some(t), secret) == Err::<Tenant, TenantError>(TenantError::TenantDisabled),
        quota_spec(Some(t), today, size).verdict == Err::<(), TenantError>(
            TenantError::TenantDisabled,
        ),
        quota_spec(Some(t), today, size).counter is None,
        backend_of_spec(Some(t)) == Err::<(String, String), TenantError>(TenantError::TenantDisabled),
        !public_download_spec(t),
{
}

/// A refused daily quota or an unknown or disabled tenant leaves the counter
/// as it was; every other check counts the request exactly once.
pub proof fn law_counted_iff_admitted_today(found: Option<Tenant>, today: Seq<char>, size: i64)
    ensures
        (quota_spec(found, today, size).counter is Some) <==> match found {
            Some(t) => t.is_active && !(t.last_request_date@ == today && t.requests_used_today
                >= t.max_requests_per_day),
            None => false,
        },
{
}

// ───────────────────────── creating and updating ─────────────────────────

/// A new tenant: active, nothing used yet, no request day recorded.
pub fn tenant_from_input(
    input: CreateTenantInput,
    id: String,
    api_key: String,
    api_secret: String,
    now: u64,
) -> (res: Tenant)
    ensures
        res.id == id,
        res.name == input.name,
        res.api_key == api_key,
        res.api_secret == api_secret,
        res.default_backend_config_id == input.default_backend_config_id,
        res.max_requests_per_day == input.max_requests_per_day,
        res.max_storage_bytes == input.max_storage_bytes,
        res.requests_used_today == 0,
        res.storage_used_bytes == 0,
        res.last_request_date@.len() == 0,
        res.is_active,
        !res.public_files,
        res.created_at == now,
        res.updated_at == now,
{
    Tenant {
        id,
        name: input.name,
        api_key,
        api_secret,
        default_backend_config_id: input.default_backend_config_id,
        max_requests_per_day: input.max_requests_per_day,
        max_storage_bytes: input.max_storage_bytes,
        requests_used_today: 0,
        storage_used_bytes: 0,
        last_request_date: String::new(),
        is_active: true,
        public_files: false,
        created_at: now,
        updated_at: now,
    }
}

/// A new tenant with a random id, API key and secret, created now.
pub fn create_tenant_record(input: CreateTenantInput) -> (res: Tenant)
    ensures
        is_uuid_text(res.id@),
        res.api_key@.len() == 37 && res.api_key@.take(5) == "bndy_"@,
        res.api_secret@.len() == 32,
        res.name == input.name,
        res.default_backend_config_id == input.default_backend_config_id,
        res.max_requests_per_day == input.max_requests_per_day,
        res.max_storage_bytes == input.max_storage_bytes,
        res.requests_used_today == 0,
        res.storage_used_bytes == 0,
        res.is_active,
        res.created_at == res.updated_at,
{
    let id = new_uuid();
    let key = generate_api_key();
    let secret = generate_api_secret();
    let now = crate::dates::now_secs();
    tenant_from_input(input, id, key, secret, now)
}

/// A tenant with the submitted changes applied at `now`: each field given
/// replaces the stored one and the update time becomes `now`; the id,
/// credentials, usage, public-files setting and creation time never change.
pub open spec fn tenant_update_spec(existing: Tenant, input: UpdateTenantInput, now: u64) -> Tenant {
    Tenant {
        name: given_or(input.name, existing.name),
        default_backend_config_id: given_or(
            input.default_backend_config_id,
            existing.default_backend_config_id,
        ),
        max_requests_per_day: given_or(input.max_requests_per_day, existing.max_requests_per_day),
        max_storage_bytes: given_or(input.max_storage_bytes, existing.max_storage_bytes),
        is_active: given_or(input.is_active, existing.is_active),
        updated_at: now,
        ..existing
    }
}

/// Every field a tenant update gives appears in the result, every field it
/// leaves out keeps its value, and the update time becomes `now`.
pub proof fn law_tenant_update_applies_given(existing: Tenant, input: UpdateTenantInput, now: u64)
    ensures
        ({
            let r = tenant_update_spec(existing, input, now);
            &&& match input.name {
                Some(v) => r.name == v,
                None => r.name == existing.name,
            }
            &&& match input.default_backend_config_id {
                Some(v) => r.default_backend_config_id == v,
                None => r.default_backend_config_id == existing.default_backend_config_id,
            }
            &&& match input.max_requests_per_day {
                Some(v) => r.max_requests_per_day == v,
                None => r.max_requests_per_day == existing.max_requests_per_day,
            }
            &&& match input.max_storage_bytes {
                Some(v) => r.max_storage_bytes == v,
                None => r.max_storage_bytes == existing.max_storage_bytes,
            }
            &&& match input.is_active {
                Some(v) => r.is_active == v,
                None => r.is_active == existing.is_active,
            }
            &&& r.updated_at == now
            &&& r.id == existing.id
            &&& r.api_key == existing.api_key
            &&& r.api_secret == existing.api_secret
            &&& r.requests_used_today == existing.requests_used_today
            &&& r.storage_used_bytes == existing.storage_used_bytes
            &&& r.last_request_date == existing.last_request_date
            &&& r.public_files == existing.public_files
            &&& r.created_at == existing.created_at
        }),
{
}

/// Applying the same tenant update twice at one time is the same as
/// applying it once.
pub proof fn law_tenant_update_idempotent(existing: Tenant, input: UpdateTenantInput, now: u64)
    ensures
        tenant_update_spec(tenant_update_spec(existing, input, now), input, now)
            == tenant_update_spec(existing, input, now),
{
}

/// A tenant with the submitted changes applied at `now`.
pub fn apply_tenant_update(existing: Tenant, input: UpdateTenantInput, now: u64) -> (res: Tenant)
    ensures
        res == tenant_update_spec(existing, input, now),
{
    Tenant {
        name: match input.name {
            Some(v) => v,
            None => existing.name,
        },
        default_backend_config_id: match input.default_backend_config_id {
            Some(v) => v,
            None => existing.default_backend_config_id,
        },
        max_requests_per_day: match input.max_requests_per_day {
            Some(v) => v,
            None => existing.max_requests_per_day,
        },
        max_storage_bytes: match input.max_storage_bytes {
            Some(v) => v,
            None => existing.max_storage_bytes,
        },
        is_active: match input.is_active {
            Some(v) => v,
            None => existing.is_active,
        },
        updated_at: now,
        ..existing
    }
}

// ───────────────────────── tenant tokens ─────────────────────────

/// The tenant a valid token names.
#[derive(Clone, Debug)]
pub struct VerifiedTenant {
    pub tenant_id: String,
    pub name: String,
}

/// Why a tenant token was refused.
#[derive(Clone, Copy, Debug, PartialEq, Eq, Structural)]
pub enum TenantTokenError {
    MissingBearer,
    Token(JwtError),
    InvalidClaims,
}

/// The message reported for a tenant token refusal.
pub open spec fn tenant_token_error_message(e: TenantTokenError) -> Seq<char> {
    match e {
        TenantTokenError::MissingBearer => "Missing Authorization: Bearer <token> header"@,
        TenantTokenError::Token(JwtError::InvalidFormat) => "Invalid JWT format"@,
        TenantTokenError::Token(JwtError::InvalidSignature) => "Invalid JWT signature"@,
        TenantTokenError::Token(JwtError::InvalidPayload) => "Invalid JWT payload"@,
        TenantTokenError::Token(JwtError::Expired) => "Token expired"@,
        TenantTokenError::InvalidClaims => "Invalid JWT claims"@,
    }
}

impl TenantTokenError {
    /// The message reported for this refusal.
    pub fn message(&self) -> (r: &'static str)
        ensures
            r@ == tenant_token_error_message(*self),
    {
        match self {
            TenantTokenError::MissingBearer => "Missing Authorization: Bearer <token> header",
            TenantTokenError::Token(JwtError::InvalidFormat) => "Invalid JWT format",
            TenantTokenError::Token(JwtError::InvalidSignature) => "Invalid JWT signature",
            TenantTokenError::Token(JwtError::InvalidPayload) => "Invalid JWT payload",
            TenantTokenError::Token(JwtError::Expired) => "Token expired",
            TenantTokenError::InvalidClaims => "Invalid JWT claims",
        }
    }
}

/// The first step of a tenant token check: the payload of the bearer token,
/// or why there is none.
pub open spec fn tenant_payload_spec(authorization: Option<Seq<char>>, secret: Seq<char>) -> Result<
    Seq<u8>,
    TenantTokenError,
> {
    match bearer_token_spec(authorization) {
        None => Err(TenantTokenError::MissingBearer),
        Some(t) => match jwt_check_spec(t, secret) {
            Ok(b) => Ok(b),
            Err(e) => Err(TenantTokenError::Token(e)),
        },
    }
}

/// Takes the bearer token from the `Authorization` header and checks its
/// signature; the claims in the payload are read by the caller and passed to
/// `verify_tenant_token`.
pub fn tenant_token_payload(authorization: Option<&str>, secret: &str) -> (res: Result<
    Vec<u8>,
    TenantTokenError,
>)
    ensures
        match res {
            Ok(b) => tenant_payload_spec(opt_view(authorization), secret@) == Ok::<
                Seq<u8>,
                TenantTokenError,
            >(b@),
            Err(e) => tenant_payload_spec(opt_view(authorization), secret@) == Err::<
                Seq<u8>,
                TenantTokenError,
            >(e),
        },
{
    match extract_token(authorization) {
        None => Err(TenantTokenError::MissingBearer),
        Some(t) => match verify_jwt_signature(t.as_str(), secret) {
            Ok(b) => Ok(b),
            Err(e) => Err(TenantTokenError::Token(e)),
        },
    }
}

/// The tenant id and name a token's claims give at `now`: refused when the
/// claims could not be read (`None`) or have expired.
pub open spec fn tenant_claims_check(claims: Option<TenantClaims>, now: u64) -> Result<
    (Seq<char>, Seq<char>),
    TenantTokenError,
> {
    match claims {
        None => Err(TenantTokenError::InvalidClaims),
        Some(c) => if c.exp < now {
            Err(TenantTokenError::Token(JwtError::Expired))
        } else {
            Ok((c.tenant_id@, c.name@))
        },
    }
}

/// A tenant token is accepted exactly until its expiry, which a login sets
/// `TENANT_TOKEN_TTL_SECS` (one hour) after issuing it.
pub proof fn law_tenant_token_lifetime(claims: TenantClaims, issued: u64, now: u64)
    requires
        issued <= u64::MAX - TENANT_TOKEN_TTL_SECS,
        claims.exp == issued + TENANT_TOKEN_TTL_SECS,
    ensures
        (tenant_claims_check(Some(claims), now) is Ok) <==> now <= issued + 3600,
{
}

/// The tenant named by a token's claims at `now`.
pub fn verify_tenant_token(claims: Option<TenantClaims>, now: u64) -> (res: Result<
    VerifiedTenant,
    TenantTokenError,
>)
    ensures
        match res {
            Ok(v) => tenant_claims_check(claims, now) == Ok::<
                (Seq<char>, Seq<char>),
                TenantTokenError,
            >((v.tenant_id@, v.name@)),
            Err(e) => tenant_claims_check(claims, now) == Err::<
                (Seq<char>, Seq<char>),
                TenantTokenError,
            >(e),
        },
{
    match claims {
        None => Err(TenantTokenError::InvalidClaims),
        Some(c) => match check_not_expired(c.exp, now) {
            Err(e) => Err(TenantTokenError::Token(e)),
            Ok(()) => Ok(VerifiedTenant { tenant_id: c.tenant_id, name: c.name }),
        },
    }
}

/// What a successful tenant login answers at `now`: a token for the
/// tenant's id and name and its lifetime; presented back as a bearer token,
/// it passes the token check with those claims.
pub fn tenant_auth_output(tenant: &Tenant, jwt_secret: &str, now: u64) -> (res: TenantAuthOutput)
    requires
        now <= u64::MAX - TENANT_TOKEN_TTL_SECS,
        tenant.id@.len() + tenant.name@.len() <= usize::MAX / 64,
    ensures
        res.access_token@ == jwt_sign_spec(
            tenant_claims_spec(
                tenant.id@,
                tenant.name@,
                now,
                (now + TENANT_TOKEN_TTL_SECS) as u64,
            ),
            jwt_secret@,
        ),
        res.expires_in == TENANT_TOKEN_TTL_SECS,
        tenant_payload_spec(Some("Bearer "@ + res.access_token@), jwt_secret@) == Ok::<
            Seq<u8>,
            TenantTokenError,
        >(
            encode_utf8(
                tenant_claims_spec(
                    tenant.id@,
                    tenant.name@,
                    now,
                    (now + TENANT_TOKEN_TTL_SECS) as u64,
                ),
            ),
        ),
{
    let token = tenant_token_at(jwt_secret, tenant.id.as_str(), tenant.name.as_str(), now);
    proof {
        reveal_strlit("Bearer ");
        let h = "Bearer "@ + token@;
        assert(h.take(7) =~= "Bearer "@);
        assert(h.skip(7) =~= token@);
        assert(bearer_token_spec(Some(h)) == Some(token@));
    }
    TenantAuthOutput { access_token: token, expires_in: TENANT_TOKEN_TTL_SECS }
}

// ───────────────────────── uploads ─────────────────────────

/// How long a preview link of an uploaded image stays valid: seven days.
pub const PREVIEW_URL_TTL_SECS: u64 = 604800;

/// Whether an upload gets a preview link: an image stored on S3.
pub open spec fn gets_preview(kind: BackendType, mime_type: Seq<char>) -> bool {
    kind == BackendType::S3 && has_prefix(mime_type, "image/"@)
}

/// Every image stored on S3 gets a preview, whatever its subtype; nothing
/// stored elsewhere does, and nothing whose type is not `image/…` does.
pub proof fn law_images_on_s3_get_previews(kind: BackendType, subtype: Seq<char>, mime_type: Seq<char>)
    ensures
        gets_preview(BackendType::S3, "image/"@ + subtype),
        kind != BackendType::S3 ==> !gets_preview(kind, mime_type),
        gets_preview(kind, mime_type) ==> mime_type.len() >= 6 && mime_type.take(6) == "image/"@,
{
    reveal_strlit("image/");
    assert(("image/"@ + subtype).take(6) =~= "image/"@);
}

/// The preview link of an upload: for an image on S3, a presigned `GET`
/// valid for seven days, signed now; otherwise none.
pub fn preview_url_for(config: &BackendConfig, key: &str, mime_type: &str) -> (res: Option<String>)
    ensures
        res is Some == gets_preview(config.backend_type, mime_type@),
        res matches Some(u) ==> exists|secs: nat|
            u@ == #[trigger] presign_url_spec(
                *config,
                key@,
                "GET"@,
                None,
                PREVIEW_URL_TTL_SECS,
                None,
                secs,
            ),
{
    let m = chars_of(mime_type);
    let p = chars_of("image/");
    assert(m@.skip(0) =~= m@);
    if config.backend_type == BackendType::S3 && has_prefix_at(m.as_slice(), 0, p.as_slice()) {
        let u = presign_get(config, key, PREVIEW_URL_TTL_SECS, None);
        assert(opt_view(None) == None::<Seq<char>>);
        Some(u)
    } else {
        None
    }
}

/// The public link of an uploaded file, `/files/<tenant id>/<key>`, when the
/// tenant serves its files publicly.
pub fn public_url_for(public_files: bool, tenant_id: &str, key: &str) -> (res: Option<String>)
    ensures
        res is Some == public_files,
        res matches Some(u) ==> u@ == "/files/"@ + tenant_id@ + "/"@ + key@,
{
    if public_files {
        let mut s = String::new();
        push_str(&mut s, "/files/");
        push_str(&mut s, tenant_id);
        push_str(&mut s, "/");
        push_str(&mut s, key);
        Some(s)
    } else {
        None
    }
}

/// The record of a stored upload, made at `now` with a fresh random id.
pub fn upload_record(
    tenant_id: &str,
    config: &BackendConfig,
    key: &str,
    original_name: &str,
    mime_type: &str,
    size_bytes: i64,
    preview_url: Option<String>,
    now: u64,
) -> (r: FileRecord)
    ensures
        is_uuid_text(r.id@),
        r.tenant_id@ == tenant_id@,
        r.file_key@ == key@,
        r.original_name@ == original_name@,
        r.mime_type@ == mime_type@,
        r.size_bytes == size_bytes,
        r.backend_type@ == crate::types::backend_name(config.backend_type),
        r.backend_config_id@ == config.id@,
        r.preview_url == preview_url,
        r.created_at == now,
{
    FileRecord {
        id: new_uuid(),
        tenant_id: tenant_id.to_owned(),
        file_key: key.to_owned(),
        original_name: original_name.to_owned(),
        mime_type: mime_type.to_owned(),
        size_bytes,
        backend_type: config.backend_type.as_str().to_owned(),
        backend_config_id: config.id.clone(),
        preview_url,
        created_at: now,
    }
}

/// The refusal of an upload to a Redis configuration.
pub fn redis_upload_refusal() -> (r: String)
    ensures
        r@ == "Upload not supported for Redis backends"@,
{
    "Upload not supported for Redis backends".to_owned()
}

/// A file record with its preview link replaced.
pub fn record_with_preview(existing: FileRecord, url: &str) -> (r: FileRecord)
    ensures
        r.preview_url matches Some(u) && u@ == url@,
        r.id == existing.id,
        r.tenant_id == existing.tenant_id,
        r.file_key == existing.file_key,
        r.original_name == existing.original_name,
        r.mime_type == existing.mime_type,
        r.size_bytes == existing.size_bytes,
        r.backend_type == existing.backend_type,
        r.backend_config_id == existing.backend_config_id,
        r.created_at == existing.created_at,
{
    FileRecord { preview_url: Some(url.to_owned()), ..existing }
}

// ───────────────────────── previews ─────────────────────────

/// The preview service of a configuration: its own URL, or the JSON-RPC
/// path under the endpoint when none is set.
pub open spec fn oss_rpc_url_spec(c: BackendConfig) -> Seq<char> {
    if c.oss_preview_rpc_url@.len() == 0 {
        trim_end_char(c.endpoint@, '/') + "/api/oss/rpc/json-rpc"@
    } else {
        c.oss_preview_rpc_url@
    }
}

/// The preview request: a JSON `POST` to the preview service, with the
/// configured cookie when there is one.
pub open spec fn oss_request_spec(c: BackendConfig, r: OutgoingRequest) -> bool {
    &&& r.method == HttpMethod::Post
    &&& r.url@ == oss_rpc_url_spec(c)
    &&& r.header_pairs() == if c.oss_preview_cookie@.len() == 0 {
        seq![("Content-Type"@, "application/json"@)]
    } else {
        seq![("Content-Type"@, "application/json"@), ("Cookie"@, c.oss_preview_cookie@)]
    }
}

/// The preview request of a configuration.
pub fn oss_preview_request(config: &BackendConfig) -> (res: OutgoingRequest)
    ensures
        oss_request_spec(*config, res),
{
    let custom = chars_of(config.oss_preview_rpc_url.as_str());
    let url = if custom.len() == 0 {
        let e = chars_of(config.endpoint.as_str());
        let base = trim_end_char_exec(e.as_slice(), '/');
        let mut u = string_of(base.as_slice());
        push_str(&mut u, "/api/oss/rpc/json-rpc");
        u
    } else {
        config.oss_preview_rpc_url.clone()
    };
    let mut headers: Vec<(String, String)> = Vec::new();
    headers.push(("Content-Type".to_owned(), "application/json".to_owned()));
    let cookie = chars_of(config.oss_preview_cookie.as_str());
    if cookie.len() > 0 {
        headers.push(("Cookie".to_owned(), config.oss_preview_cookie.clone()));
    }
    proof {
        if config.oss_preview_cookie@.len() == 0 {
            assert(pairs_view(headers@) =~= seq![("Content-Type"@, "application/json"@)]);
        } else {
            assert(pairs_view(headers@) =~= seq![
                ("Content-Type"@, "application/json"@),
                ("Cookie"@, config.oss_preview_cookie@),
            ]);
        }
    }
    OutgoingRequest { method: HttpMethod::Post, url, headers }
}

/// The JSON-RPC call asking for a preview, as `serde_json` writes it (keys
/// in order): `{"id":1,"jsonrpc":"2.0","method":"preview","params":{…}}`.
pub open spec fn oss_rpc_body_spec(input: TenantOssPreviewInput) -> Seq<char> {
    "{\"id\":1,\"jsonrpc\":\"2.0\",\"method\":\"preview\",\"params\":{\"fileName\":"@
        + json_string(input.file_name@) + ",\"key\":"@ + json_string(input.key@)
        + ",\"mimeType\":"@ + json_string(input.mime_type@) + ",\"sizeBytes\":"@
        + signed_decimal(input.size_bytes as int) + "}}"@
}

/// The body of the preview request.
pub fn oss_rpc_body(input: &TenantOssPreviewInput) -> (res: String)
    ensures
        res@ == oss_rpc_body_spec(*input),
{
    let mut s = String::new();
    push_str(&mut s, "{\"id\":1,\"jsonrpc\":\"2.0\",\"method\":\"preview\",\"params\":{\"fileName\":");
    push_str(&mut s, json_quote(input.file_name.as_str()).as_str());
    push_str(&mut s, ",\"key\":");
    push_str(&mut s, json_quote(input.key.as_str()).as_str());
    push_str(&mut s, ",\"mimeType\":");
    push_str(&mut s, json_quote(input.mime_type.as_str()).as_str());
    push_str(&mut s, ",\"sizeBytes\":");
    push_i64(&mut s, input.size_bytes);
    push_str(&mut s, "}}");
    s
}

} // verus!
