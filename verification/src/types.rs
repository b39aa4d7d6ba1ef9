//! The records the service stores and exchanges: backend configurations,
//! tenants, file records and audit entries.

use vstd::prelude::*;

verus! {

/// Kind of storage behind a configuration.
#[derive(Clone, Copy, Debug, PartialEq, Eq, Structural)]
pub enum BackendType {
    S3,
    Dufs,
    Redis,
}

/// Lower-case name of a backend type, as stored and serialized.
pub open spec fn backend_name(t: BackendType) -> Seq<char> {
    match t {
        BackendType::S3 => "s3"@,
        BackendType::Dufs => "dufs"@,
        BackendType::Redis => "redis"@,
    }
}

impl BackendType {
    /// The backend's lower-case name.
    pub fn as_str(&self) -> (r: &'static str)
        ensures
            r@ == backend_name(*self),
    {
        match self {
            BackendType::S3 => "s3",
            BackendType::Dufs => "dufs",
            BackendType::Redis => "redis",
        }
    }
}

/// Connection settings of one storage backend.
#[derive(Clone, Debug)]
pub struct BackendConfig {
    pub id: String,
    pub name: String,
    pub backend_type: BackendType,
    pub endpoint: String,
    pub created_at: u64,
    // S3
    pub region: String,
    pub bucket: String,
    pub access_key_id: String,
    pub secret_access_key: String,
    pub force_path_style: bool,
    // Dufs
    pub username: Option<String>,
    pub password: Option<String>,
    // Redis
    pub redis_password: Option<String>,
    pub db_index: Option<u32>,
    // OSS preview
    pub oss_preview_rpc_url: String,
    pub oss_preview_cookie: String,
}


/// Fields of a new backend configuration, as submitted.
#[derive(Clone, Debug)]
pub struct CreateBackendConfigInput {
    pub name: String,
    pub backend_type: BackendType,
    pub endpoint: String,
    pub region: String,
    pub bucket: String,
    pub access_key_id: String,
    pub secret_access_key: String,
    pub force_path_style: bool,
    pub username: Option<String>,
    pub password: Option<String>,
    pub redis_password: Option<String>,
    pub db_index: Option<u32>,
    pub oss_preview_rpc_url: String,
    pub oss_preview_cookie: String,
}

/// Changes to a backend configuration; absent fields stay as they are.
#[derive(Clone, Debug)]
pub struct UpdateBackendConfigInput {
    pub name: Option<String>,
    pub backend_type: Option<BackendType>,
    pub endpoint: Option<String>,
    pub region: Option<String>,
    pub bucket: Option<String>,
    pub access_key_id: Option<String>,
    pub secret_access_key: Option<String>,
    pub force_path_style: Option<bool>,
    pub username: Option<String>,
    pub password: Option<String>,
    pub redis_password: Option<String>,
    pub db_index: Option<u32>,
    pub oss_preview_rpc_url: Option<String>,
    pub oss_preview_cookie: Option<String>,
}

/// Request for a presigned upload URL.
#[derive(Clone, Debug)]
pub struct PresignedUrlInput {
    pub key: String,
    pub content_type: Option<String>,
    pub expires_in_seconds: Option<u64>,
}

/// Request for a presigned download URL.
#[derive(Clone, Debug)]
pub struct PresignedDownloadInput {
    pub key: String,
    pub expires_in_seconds: Option<u64>,
    pub filename: Option<String>,
}

/// A presigned URL and the key it is for.
#[derive(Clone, Debug)]
pub struct PresignedUrlOutput {
    pub url: String,
    pub key: String,
}

/// Request to delete an object.
#[derive(Clone, Debug)]
pub struct DeleteObjectInput {
    pub key: String,
}

/// The uniform response envelope: `success`, and either `data` or an error
/// message with a code.
#[derive(Clone, Debug)]
pub struct ApiResponse<T> {
    pub success: bool,
    pub data: Option<T>,
    pub error: Option<String>,
    pub code: Option<String>,
}

impl<T> ApiResponse<T> {
    /// A successful response carrying `data`.
    pub fn ok(data: T) -> (r: Self)
        ensures
            r.success,
            r.data == Some(data),
            r.error is None,
            r.code is None,
    {
        ApiResponse { success: true, data: Some(data), error: None, code: None }
    }

    /// A failed response with an error message and a code.
    pub fn err(error: &str, code: &str) -> (r: Self)
        ensures
            !r.success,
            r.data is None,
            r.error matches Some(e) && e@ == error@,
            r.code matches Some(c) && c@ == code@,
    {
        ApiResponse {
            success: false,
            data: None,
            error: Some(error.to_owned()),
            code: Some(code.to_owned()),
        }
    }
}

/// A page of configurations.
#[derive(Clone, Debug)]
pub struct ConfigListData {
    pub configs: Vec<ConfigListItem>,
}

/// A configuration as listed: without credentials.
#[derive(Clone, Debug)]
pub struct ConfigListItem {
    pub id: String,
    pub name: String,
    pub backend_type: BackendType,
    pub endpoint: String,
    pub region: String,
    pub bucket: String,
    pub force_path_style: bool,
    pub created_at: u64,
}

impl ConfigListItem {
    /// The listed form of a configuration.
    pub fn from_config(c: &BackendConfig) -> (r: Self)
        ensures
            r.id@ == c.id@,
            r.name@ == c.name@,
            r.backend_type == c.backend_type,
            r.endpoint@ == c.endpoint@,
            r.region@ == c.region@,
            r.bucket@ == c.bucket@,
            r.force_path_style == c.force_path_style,
            r.created_at == c.created_at,
    {
        ConfigListItem {
            id: c.id.clone(),
            name: c.name.clone(),
            backend_type: c.backend_type,
            endpoint: c.endpoint.clone(),
            region: c.region.clone(),
            bucket: c.bucket.clone(),
            force_path_style: c.force_path_style,
            created_at: c.created_at,
        }
    }
}

/// Outcome of a backend connection test.
#[derive(Clone, Debug)]
pub struct TestResult {
    pub ok: bool,
    pub message: String,
}

/// A tenant: its credentials, quotas and usage.
#[derive(Clone, Debug)]
pub struct Tenant {
    pub id: String,
    pub name: String,
    pub api_key: String,
    pub api_secret: String,
    pub default_backend_config_id: String,
    pub max_requests_per_day: i64,
    pub max_storage_bytes: i64,
    pub requests_used_today: i64,
    pub storage_used_bytes: i64,
    pub last_request_date: String,
    pub is_active: bool,
    pub public_files: bool,
    pub created_at: u64,
    pub updated_at: u64,
}

/// A stored file, as recorded for its tenant.
#[derive(Clone, Debug)]
pub struct FileRecord {
    pub id: String,
    pub tenant_id: String,
    pub file_key: String,
    pub original_name: String,
    pub mime_type: String,
    pub size_bytes: i64,
    pub backend_type: String,
    pub backend_config_id: String,
    pub preview_url: Option<String>,
    pub created_at: u64,
}

/// The claims of a tenant token.
#[derive(Clone, Debug)]
pub struct TenantClaims {
    pub tenant_id: String,
    pub name: String,
    pub iat: u64,
    pub exp: u64,
}

/// Fields of a new tenant, as submitted.
#[derive(Clone, Debug)]
pub struct CreateTenantInput {
    pub name: String,
    pub default_backend_config_id: String,
    pub max_requests_per_day: i64,
    pub max_storage_bytes: i64,
}

/// Default daily request quota of a new tenant.
pub fn default_max_requests() -> (r: i64)
    ensures
        r == 10000,
{
    10000
}

/// Default storage quota of a new tenant: 10 GiB.
pub fn default_max_storage() -> (r: i64)
    ensures
        r == 10737418240,
{
    10737418240
}

/// Changes to a tenant; absent fields stay as they are.
#[derive(Clone, Debug)]
pub struct UpdateTenantInput {
    pub name: Option<String>,
    pub default_backend_config_id: Option<String>,
    pub max_requests_per_day: Option<i64>,
    pub max_storage_bytes: Option<i64>,
    pub is_active: Option<bool>,
}

/// A tenant's API credentials.
#[derive(Clone, Debug)]
pub struct TenantAuthInput {
    pub api_key: String,
    pub api_secret: String,
}

/// A tenant token and its lifetime in seconds.
#[derive(Clone, Debug)]
pub struct TenantAuthOutput {
    pub access_token: String,
    pub expires_in: u64,
}

/// A stored flag written as an integer: any non-zero value is set.
pub fn flag_from_integer(v: i64) -> (r: bool)
    ensures
        r == (v != 0),
{
    v != 0
}

/// A stored flag written as an unsigned integer: any non-zero value is set.
pub fn flag_from_unsigned(v: u64) -> (r: bool)
    ensures
        r == (v != 0),
{
    v != 0
}

/// A file record as shown to its tenant.
#[derive(Clone, Debug)]
pub struct FileRecordData {
    pub id: String,
    pub file_key: String,
    pub original_name: String,
    pub mime_type: String,
    pub size_bytes: i64,
    pub backend_type: String,
    pub preview_url: Option<String>,
    pub created_at: u64,
}

impl FileRecordData {
    /// The tenant-facing form of a file record.
    pub fn from_record(r: &FileRecord) -> (d: Self)
        ensures
            d.id@ == r.id@,
            d.file_key@ == r.file_key@,
            d.original_name@ == r.original_name@,
            d.mime_type@ == r.mime_type@,
            d.size_bytes == r.size_bytes,
            d.backend_type@ == r.backend_type@,
            d.preview_url == r.preview_url,
            d.created_at == r.created_at,
    {
        FileRecordData {
            id: r.id.clone(),
            file_key: r.file_key.clone(),
            original_name: r.original_name.clone(),
            mime_type: r.mime_type.clone(),
            size_bytes: r.size_bytes,
            backend_type: r.backend_type.clone(),
            preview_url: r.preview_url.clone(),
            created_at: r.created_at,
        }
    }
}

/// Fields of a tenant upload.
#[derive(Clone, Debug)]
pub struct TenantUploadInput {
    pub key: String,
    pub content_type: Option<String>,
    pub filename: Option<String>,
}

/// Request for a presigned URL by a tenant.
#[derive(Clone, Debug)]
pub struct TenantPresignInput {
    pub key: String,
    pub content_type: Option<String>,
    pub filename: Option<String>,
    pub expires_in_seconds: Option<u64>,
}

/// Request for a preview link.
#[derive(Clone, Debug)]
pub struct TenantOssPreviewInput {
    pub key: String,
    pub file_name: String,
    pub mime_type: String,
    pub size_bytes: i64,
}

/// Dashboard totals.
#[derive(Clone, Debug)]
pub struct AdminStats {
    pub total_configs: usize,
    pub total_tenants: i64,
    pub active_tenants: i64,
    pub total_files: i64,
    pub total_storage_used_bytes: i64,
}

/// Outcome of probing one backend.
#[derive(Clone, Debug)]
pub struct HealthProbeResult {
    pub config_id: String,
    pub config_name: String,
    pub backend_type: String,
    pub status: String,
    pub latency_ms: u64,
    pub error: Option<String>,
}

/// One administrative action.
#[derive(Clone, Debug)]
pub struct AuditLog {
    pub id: String,
    pub action: String,
    pub username: String,
    pub detail: String,
    pub created_at: u64,
}

} // verus!
