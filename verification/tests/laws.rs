use bendy_fs::config::{apply_config_update, index_with, index_without};
use bendy_fs::sigv4::presign_url_at;
use bendy_fs::tenants::{
    apply_tenant_update, check_and_update_quota, public_download_allowed, resolve_tenant_backend,
    verify_tenant_credentials, TenantError,
};
use bendy_fs::types::{BackendConfig, BackendType, Tenant, UpdateBackendConfigInput, UpdateTenantInput};

fn tenant(active: bool) -> Tenant {
    Tenant {
        id: "t".to_string(),
        name: "n".to_string(),
        api_key: "k".to_string(),
        api_secret: "s".to_string(),
        default_backend_config_id: "c".to_string(),
        max_requests_per_day: 10,
        max_storage_bytes: 1000,
        requests_used_today: 0,
        storage_used_bytes: 900,
        last_request_date: "2024-01-01".to_string(),
        is_active: active,
        public_files: true,
        created_at: 1,
        updated_at: 2,
    }
}

fn config() -> BackendConfig {
    BackendConfig {
        id: "c".to_string(),
        name: "n".to_string(),
        backend_type: BackendType::S3,
        endpoint: "https://e".to_string(),
        created_at: 3,
        region: "r".to_string(),
        bucket: "b".to_string(),
        access_key_id: "a".to_string(),
        secret_access_key: "s".to_string(),
        force_path_style: false,
        username: None,
        password: None,
        redis_password: Some("p".to_string()),
        db_index: Some(1),
        oss_preview_rpc_url: String::new(),
        oss_preview_cookie: "x".to_string(),
    }
}

fn empty_config_update() -> UpdateBackendConfigInput {
    UpdateBackendConfigInput {
        name: None,
        backend_type: None,
        endpoint: None,
        region: None,
        bucket: None,
        access_key_id: None,
        secret_access_key: None,
        force_path_style: None,
        username: None,
        password: None,
        redis_password: None,
        db_index: None,
        oss_preview_rpc_url: None,
        oss_preview_cookie: None,
    }
}

fn same_config(a: &BackendConfig, b: &BackendConfig) -> bool {
    format!("{:?}", a) == format!("{:?}", b)
}

#[test]
fn accepted_upload_fits_the_storage_quota() {
    let fits = check_and_update_quota(&Some(tenant(true)), "2024-01-01", 100);
    assert_eq!(fits.verdict, Ok(()));
    let over = check_and_update_quota(&Some(tenant(true)), "2024-01-01", 101);
    assert_eq!(over.verdict, Err(TenantError::StorageQuotaExceeded { new_total: 1001, max: 1000 }));
}

#[test]
fn disabled_tenant_is_locked_out() {
    let t = tenant(false);
    assert_eq!(verify_tenant_credentials(Some(t.clone()), "s").err(), Some(TenantError::TenantDisabled));
    let d = check_and_update_quota(&Some(t.clone()), "2024-01-01", 1);
    assert_eq!((d.counter, d.verdict), (None, Err(TenantError::TenantDisabled)));
    assert_eq!(resolve_tenant_backend(Some(t.clone())).err(), Some(TenantError::TenantDisabled));
    assert!(!public_download_allowed(&t));
}

#[test]
fn empty_config_update_changes_nothing() {
    let c = config();
    let u = apply_config_update(c.clone(), empty_config_update());
    assert!(same_config(&u, &c));
}

#[test]
fn config_update_twice_is_once() {
    let mk = || UpdateBackendConfigInput {
        name: Some("m".to_string()),
        redis_password: Some("q".to_string()),
        force_path_style: Some(true),
        ..empty_config_update()
    };
    let once = apply_config_update(config(), mk());
    let twice = apply_config_update(once.clone(), mk());
    assert!(same_config(&once, &twice));
    assert_eq!(once.name, "m");
    assert_eq!(once.redis_password, Some("q".to_string()));
    assert_eq!(once.db_index, Some(1));
}

#[test]
fn tenant_update_twice_is_once() {
    let mk = || UpdateTenantInput {
        name: None,
        default_backend_config_id: Some("d".to_string()),
        max_requests_per_day: None,
        max_storage_bytes: Some(5),
        is_active: Some(false),
    };
    let once = apply_tenant_update(tenant(true), mk(), 50);
    let twice = apply_tenant_update(once.clone(), mk(), 50);
    assert_eq!(format!("{:?}", once), format!("{:?}", twice));
    assert_eq!(once.updated_at, 50);
    assert_eq!(once.storage_used_bytes, 900);
}

#[test]
fn presigned_parameters_are_sorted_by_name() {
    let url = presign_url_at(&config(), "k", "PUT", Some("text/plain"), 9, Some("f"), 0);
    let query = url.split('?').nth(1).unwrap();
    let names: Vec<&str> = query.split('&').map(|p| p.split('=').next().unwrap()).collect();
    let signed: Vec<&str> = names[..names.len() - 1].to_vec();
    let mut sorted = signed.clone();
    sorted.sort();
    assert_eq!(signed, sorted);
    assert_eq!(signed.len(), 7);
    assert_eq!(names.last(), Some(&"X-Amz-Signature"));
}

#[test]
fn index_add_then_remove_restores() {
    let ids = vec!["a".to_string(), "b".to_string()];
    let added = index_with(ids.clone(), "c");
    assert_eq!(index_without(added, "c"), ids);
    assert!(!index_without(vec!["x".to_string(), "x".to_string()], "x").contains(&"x".to_string()));
}
