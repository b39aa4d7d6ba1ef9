use bendy_fs::jwt::{verify_jwt_signature, JwtError};
use bendy_fs::tenants::{
    apply_tenant_update, check_and_update_quota, create_tenant_record, oss_preview_request,
    oss_rpc_body, preview_url_for, public_download_allowed, public_url_for, record_with_preview,
    redis_upload_refusal, resolve_tenant_backend, tenant_auth_output, tenant_from_input,
    tenant_token_payload, upload_record, verify_tenant_credentials, verify_tenant_token,
    CounterUpdate, TenantError, TenantTokenError,
};
use bendy_fs::backends::HttpMethod;
use bendy_fs::types::{
    default_max_requests, default_max_storage, BackendConfig, BackendType, CreateTenantInput,
    Tenant, TenantClaims, TenantOssPreviewInput, UpdateTenantInput,
};

fn tenant() -> Tenant {
    Tenant {
        id: "t-1".to_string(),
        name: "Acme".to_string(),
        api_key: "bndy_key".to_string(),
        api_secret: "secret".to_string(),
        default_backend_config_id: "cfg-1".to_string(),
        max_requests_per_day: 3,
        max_storage_bytes: 100,
        requests_used_today: 2,
        storage_used_bytes: 40,
        last_request_date: "2024-05-01".to_string(),
        is_active: true,
        public_files: false,
        created_at: 10,
        updated_at: 20,
    }
}

fn config(kind: BackendType) -> BackendConfig {
    BackendConfig {
        id: "cfg-1".to_string(),
        name: "store".to_string(),
        backend_type: kind,
        endpoint: "https://store.example.com/".to_string(),
        created_at: 0,
        region: "us-east-1".to_string(),
        bucket: "files".to_string(),
        access_key_id: "AK".to_string(),
        secret_access_key: "SK".to_string(),
        force_path_style: true,
        username: None,
        password: None,
        redis_password: None,
        db_index: None,
        oss_preview_rpc_url: String::new(),
        oss_preview_cookie: String::new(),
    }
}

#[test]
fn credentials_are_checked_in_order() {
    assert_eq!(verify_tenant_credentials(None, "x").err(), Some(TenantError::InvalidApiKey));
    let mut off = tenant();
    off.is_active = false;
    assert_eq!(verify_tenant_credentials(Some(off), "secret").err(), Some(TenantError::TenantDisabled));
    assert_eq!(verify_tenant_credentials(Some(tenant()), "nope").err(), Some(TenantError::InvalidApiSecret));
    assert_eq!(verify_tenant_credentials(Some(tenant()), "secret").unwrap().id, "t-1");
}

#[test]
fn error_messages() {
    assert_eq!(TenantError::InvalidApiKey.message(), "Invalid API key");
    assert_eq!(TenantError::DailyQuotaExceeded.message(), "Daily request quota exceeded");
    assert_eq!(
        TenantError::StorageQuotaExceeded { new_total: 150, max: 100 }.message(),
        "Storage quota exceeded (150 / 100 bytes)"
    );
    assert_eq!(TenantError::TenantNotFound.message(), "Tenant not found");
    assert_eq!(TenantError::TenantDisabled.message(), "Tenant is disabled");
}

#[test]
fn backend_of_active_tenant() {
    assert_eq!(resolve_tenant_backend(None).err(), Some(TenantError::TenantNotFound));
    let mut off = tenant();
    off.is_active = false;
    assert_eq!(resolve_tenant_backend(Some(off)).err(), Some(TenantError::TenantDisabled));
    assert_eq!(resolve_tenant_backend(Some(tenant())).unwrap(), ("t-1".to_string(), "cfg-1".to_string()));
}

#[test]
fn quota_same_day_counts_up() {
    let d = check_and_update_quota(&Some(tenant()), "2024-05-01", 0);
    assert_eq!(d.counter, Some(CounterUpdate::Increment));
    assert_eq!(d.verdict, Ok(()));
}

#[test]
fn quota_new_day_restarts() {
    let mut t = tenant();
    t.requests_used_today = 3;
    let d = check_and_update_quota(&Some(t), "2024-05-02", 10);
    assert_eq!(d.counter, Some(CounterUpdate::StartNewDay));
    assert_eq!(d.verdict, Ok(()));
}

#[test]
fn quota_exhausted_day_refuses_without_counting() {
    let mut t = tenant();
    t.requests_used_today = 3;
    let d = check_and_update_quota(&Some(t), "2024-05-01", 0);
    assert_eq!(d.counter, None);
    assert_eq!(d.verdict, Err(TenantError::DailyQuotaExceeded));
}

#[test]
fn quota_storage_overflow_is_counted_then_refused() {
    let d = check_and_update_quota(&Some(tenant()), "2024-05-01", 61);
    assert_eq!(d.counter, Some(CounterUpdate::Increment));
    assert_eq!(d.verdict, Err(TenantError::StorageQuotaExceeded { new_total: 101, max: 100 }));
    let exact = check_and_update_quota(&Some(tenant()), "2024-05-01", 60);
    assert_eq!(exact.verdict, Ok(()));
}

#[test]
fn quota_unknown_or_disabled() {
    let d = check_and_update_quota(&None, "2024-05-01", 0);
    assert_eq!(d.counter, None);
    assert_eq!(d.verdict, Err(TenantError::TenantNotFound));
    let mut off = tenant();
    off.is_active = false;
    let d = check_and_update_quota(&Some(off), "2024-05-01", 0);
    assert_eq!(d.verdict, Err(TenantError::TenantDisabled));
}

#[test]
fn quota_law_on_concrete_days() {
    let mut t = tenant();
    t.max_requests_per_day = 1;
    t.requests_used_today = 1;
    let refused = check_and_update_quota(&Some(t.clone()), "2024-05-01", 0);
    assert_eq!(refused.counter, None);
    let next_day = check_and_update_quota(&Some(t), "2024-05-02", 0);
    assert_eq!(next_day.counter, Some(CounterUpdate::StartNewDay));
}

#[test]
fn new_tenants_start_empty() {
    let input = CreateTenantInput {
        name: "Acme".to_string(),
        default_backend_config_id: "cfg-9".to_string(),
        max_requests_per_day: default_max_requests(),
        max_storage_bytes: default_max_storage(),
    };
    let t = tenant_from_input(input, "id".to_string(), "k".to_string(), "s".to_string(), 77);
    assert_eq!(t.max_requests_per_day, 10000);
    assert_eq!(t.max_storage_bytes, 10737418240);
    assert_eq!(t.requests_used_today, 0);
    assert_eq!(t.storage_used_bytes, 0);
    assert_eq!(t.last_request_date, "");
    assert!(t.is_active);
    assert_eq!((t.created_at, t.updated_at), (77, 77));
}

#[test]
fn created_tenant_has_fresh_credentials() {
    let input = CreateTenantInput {
        name: "Acme".to_string(),
        default_backend_config_id: "cfg-9".to_string(),
        max_requests_per_day: 5,
        max_storage_bytes: 6,
    };
    let t = create_tenant_record(input);
    assert_eq!(t.id.len(), 36);
    assert!(t.api_key.starts_with("bndy_"));
    assert_eq!(t.api_key.len(), 37);
    assert_eq!(t.api_secret.len(), 32);
    assert!(t.api_secret.chars().all(|c| c.is_ascii_hexdigit() && !c.is_ascii_uppercase()));
}

#[test]
fn tenant_update_keeps_identity() {
    let input = UpdateTenantInput {
        name: Some("New".to_string()),
        default_backend_config_id: None,
        max_requests_per_day: Some(9),
        max_storage_bytes: None,
        is_active: Some(false),
    };
    let t = apply_tenant_update(tenant(), input, 999);
    assert_eq!(t.name, "New");
    assert_eq!(t.default_backend_config_id, "cfg-1");
    assert_eq!(t.max_requests_per_day, 9);
    assert_eq!(t.max_storage_bytes, 100);
    assert!(!t.is_active);
    assert_eq!(t.id, "t-1");
    assert_eq!(t.api_secret, "secret");
    assert_eq!(t.created_at, 10);
    assert_eq!(t.updated_at, 999);
}

#[test]
fn public_downloads() {
    let mut t = tenant();
    assert!(!public_download_allowed(&t));
    t.public_files = true;
    assert!(public_download_allowed(&t));
    t.is_active = false;
    assert!(!public_download_allowed(&t));
    assert_eq!(public_url_for(true, "t-1", "a/b.png"), Some("/files/t-1/a/b.png".to_string()));
    assert_eq!(public_url_for(false, "t-1", "a/b.png"), None);
}

#[test]
fn previews_only_for_s3_images() {
    assert_eq!(preview_url_for(&config(BackendType::S3), "doc.pdf", "application/pdf"), None);
    assert_eq!(preview_url_for(&config(BackendType::Dufs), "a.png", "image/png"), None);
    let u = preview_url_for(&config(BackendType::S3), "a.png", "image/png").unwrap();
    assert!(u.starts_with("https://store.example.com/files/a.png?X-Amz-Algorithm=AWS4-HMAC-SHA256&"));
    assert!(u.contains("&X-Amz-Expires=604800&"));
}

#[test]
fn upload_records() {
    let r = upload_record("t-1", &config(BackendType::Dufs), "k", "orig.txt", "text/plain", 12, None, 5);
    assert_eq!(r.id.len(), 36);
    assert_eq!(r.backend_type, "dufs");
    assert_eq!(r.backend_config_id, "cfg-1");
    assert_eq!(r.size_bytes, 12);
    let p = record_with_preview(r.clone(), "https://preview/1");
    assert_eq!(p.preview_url, Some("https://preview/1".to_string()));
    assert_eq!(p.id, r.id);
    assert_eq!(redis_upload_refusal(), "Upload not supported for Redis backends");
}

#[test]
fn preview_service_request() {
    let c = config(BackendType::S3);
    let r = oss_preview_request(&c);
    assert_eq!(r.method, HttpMethod::Post);
    assert_eq!(r.url, "https://store.example.com/api/oss/rpc/json-rpc");
    assert_eq!(r.headers, vec![("Content-Type".to_string(), "application/json".to_string())]);
    let mut c2 = c.clone();
    c2.oss_preview_rpc_url = "https://preview.example.com/rpc".to_string();
    c2.oss_preview_cookie = "sid=1".to_string();
    let r2 = oss_preview_request(&c2);
    assert_eq!(r2.url, "https://preview.example.com/rpc");
    assert_eq!(r2.headers[1], ("Cookie".to_string(), "sid=1".to_string()));
}

#[test]
fn preview_rpc_body() {
    let input = TenantOssPreviewInput {
        key: "a/b.docx".to_string(),
        file_name: "b \"x\".docx".to_string(),
        mime_type: "application/msword".to_string(),
        size_bytes: -1,
    };
    assert_eq!(
        oss_rpc_body(&input),
        "{\"id\":1,\"jsonrpc\":\"2.0\",\"method\":\"preview\",\"params\":{\"fileName\":\"b \\\"x\\\".docx\",\"key\":\"a/b.docx\",\"mimeType\":\"application/msword\",\"sizeBytes\":-1}}"
    );
}

#[test]
fn tenant_login_and_token_check() {
    let out = tenant_auth_output(&tenant(), "jwt-secret", 1000);
    assert_eq!(out.expires_in, 3600);
    let header = format!("Bearer {}", out.access_token);
    let payload = tenant_token_payload(Some(&header), "jwt-secret").unwrap();
    assert_eq!(payload, verify_jwt_signature(&out.access_token, "jwt-secret").unwrap());
    assert_eq!(
        String::from_utf8(payload).unwrap(),
        "{\"tenant_id\":\"t-1\",\"name\":\"Acme\",\"iat\":1000,\"exp\":4600}"
    );
    assert_eq!(tenant_token_payload(None, "jwt-secret").err(), Some(TenantTokenError::MissingBearer));
    assert_eq!(
        tenant_token_payload(Some("Token abc"), "jwt-secret").err(),
        Some(TenantTokenError::MissingBearer)
    );
    assert_eq!(
        tenant_token_payload(Some(&header), "other").err(),
        Some(TenantTokenError::Token(JwtError::InvalidSignature))
    );
}

#[test]
fn tenant_claims_expiry() {
    let claims = TenantClaims { tenant_id: "t-1".to_string(), name: "Acme".to_string(), iat: 0, exp: 100 };
    let v = verify_tenant_token(Some(claims.clone()), 100).unwrap();
    assert_eq!((v.tenant_id.as_str(), v.name.as_str()), ("t-1", "Acme"));
    assert_eq!(
        verify_tenant_token(Some(claims), 101).err(),
        Some(TenantTokenError::Token(JwtError::Expired))
    );
    assert_eq!(verify_tenant_token(None, 0).err(), Some(TenantTokenError::InvalidClaims));
    assert_eq!(TenantTokenError::Token(JwtError::Expired).message(), "Token expired");
}
