use bendy_fs::backends::{
    backend_mismatch_message, build_auth_header_value, call_failure, delete_request,
    download_headers, download_request, is_success_status, join_path, object_call,
    probe_failure, probe_request, probe_result, redis_request, s3_object_request_at,
    s3_probe_request_at, upload_request, upload_request_at, BackendCall, HttpMethod, ObjectOp,
    RedisCommand,
};
use bendy_fs::config::{
    apply_config_update, config_from_input, index_with, index_without, load_index,
    page_of_configs, save_index, sort_newest_first,
};
use bendy_fs::handlers::{presign_download_for, presign_refusal, presign_upload_for, redis_set_request, RedisSetError};
use bendy_fs::types::{
    flag_from_integer, flag_from_unsigned, ApiResponse, BackendConfig, BackendType,
    ConfigListItem, CreateBackendConfigInput, UpdateBackendConfigInput,
};

fn config(kind: BackendType) -> BackendConfig {
    BackendConfig {
        id: "c1".to_string(),
        name: "Main".to_string(),
        backend_type: kind,
        endpoint: "https://store.example.com/".to_string(),
        created_at: 5,
        region: "auto".to_string(),
        bucket: "bkt".to_string(),
        access_key_id: "AK".to_string(),
        secret_access_key: "SK".to_string(),
        force_path_style: true,
        username: Some("admin".to_string()),
        password: Some("secret".to_string()),
        redis_password: Some("upstash".to_string()),
        db_index: Some(0),
        oss_preview_rpc_url: String::new(),
        oss_preview_cookie: String::new(),
    }
}

fn header_names(h: &[(String, String)]) -> Vec<&str> {
    h.iter().map(|(n, _)| n.as_str()).collect()
}

#[test]
fn paths_join_with_one_slash() {
    assert_eq!(join_path("https://a.com//", "//k/x"), "https://a.com/k/x");
    assert_eq!(join_path("https://a.com", "k"), "https://a.com/k");
    assert_eq!(join_path("", ""), "/");
}

#[test]
fn dufs_basic_auth() {
    let c = config(BackendType::Dufs);
    assert_eq!(build_auth_header_value(&c), Some("Basic YWRtaW46c2VjcmV0".to_string()));
    let mut anon = c.clone();
    anon.password = None;
    assert_eq!(build_auth_header_value(&anon), None);
}

#[test]
fn dufs_requests() {
    let c = config(BackendType::Dufs);
    let up = upload_request(&c, "/dir/a.txt", "text/plain", b"x").unwrap();
    assert_eq!(up.method, HttpMethod::Put);
    assert_eq!(up.url, "https://store.example.com/dir/a.txt");
    assert_eq!(
        up.headers,
        vec![
            ("Content-Type".to_string(), "application/octet-stream".to_string()),
            ("Authorization".to_string(), "Basic YWRtaW46c2VjcmV0".to_string()),
        ]
    );
    let get = download_request(&c, "dir/a.txt");
    assert_eq!(get.method, HttpMethod::Get);
    assert_eq!(header_names(&get.headers), vec!["Authorization"]);
    let del = delete_request(&c, "dir/a.txt");
    assert_eq!(del.method, HttpMethod::Delete);
    let probe = probe_request(&c);
    assert_eq!(probe.method, HttpMethod::Head);
    assert_eq!(probe.url, "https://store.example.com");
}

#[test]
fn redis_requests() {
    let c = config(BackendType::Redis);
    let get = redis_request(&c, RedisCommand::Get, "k1");
    assert_eq!((get.method, get.url.as_str()), (HttpMethod::Get, "https://store.example.com/get/k1"));
    assert_eq!(get.headers, vec![("Authorization".to_string(), "Bearer upstash".to_string())]);
    let set = redis_request(&c, RedisCommand::Store, "k1");
    assert_eq!((set.method, set.url.as_str()), (HttpMethod::Post, "https://store.example.com/set/k1"));
    assert_eq!(header_names(&set.headers), vec!["Authorization", "Content-Type"]);
    let del = delete_request(&c, "k1");
    assert_eq!((del.method, del.url.as_str()), (HttpMethod::Post, "https://store.example.com/del/k1"));
    let ping = probe_request(&c);
    assert_eq!(ping.url, "https://store.example.com/ping");
    let mut open = c.clone();
    open.redis_password = None;
    assert_eq!(redis_request(&open, RedisCommand::Ping, "").headers[0].1, "Bearer ");
    assert!(upload_request(&c, "k", "text/plain", b"v").is_none());
}

#[test]
fn s3_requests() {
    let c = config(BackendType::S3);
    let put = s3_object_request_at(&c, HttpMethod::Put, "a b.txt", Some("text/plain"), b"hi", 1369353600);
    assert_eq!(put.url, "https://store.example.com/bkt/a b.txt");
    assert_eq!(
        header_names(&put.headers),
        vec!["Authorization", "Content-Type", "x-amz-content-sha256", "x-amz-date", "Host"]
    );
    assert_eq!(put.headers[3].1, "20130524T000000Z");
    assert_eq!(put.headers[4].1, "store.example.com");
    assert_eq!(put.headers[2].1, bendy_fs::encoding::sha256_hex(b"hi"));
    let get = download_request(&c, "a.txt");
    assert_eq!(header_names(&get.headers), vec!["Authorization", "x-amz-content-sha256", "x-amz-date", "Host"]);
    let probe = s3_probe_request_at(&c, 0);
    assert_eq!((probe.method, probe.url.as_str()), (HttpMethod::Head, "https://store.example.com/bkt"));
    let up = upload_request_at(&c, "k", "image/png", b"", 0).unwrap();
    assert_eq!(up.headers[1], ("Content-Type".to_string(), "image/png".to_string()));
}

#[test]
fn statuses_and_probes() {
    assert!(is_success_status(200));
    assert!(is_success_status(204));
    assert!(!is_success_status(300));
    assert!(!is_success_status(199));
    let s3 = probe_result(BackendType::S3, 403, "");
    assert!(s3.ok);
    assert_eq!(s3.message, "S3 endpoint reachable (HTTP 403)");
    let s3_bad = probe_result(BackendType::S3, 401, "");
    assert!(!s3_bad.ok);
    assert_eq!(s3_bad.message, "Unexpected response (HTTP 401)");
    let dufs = probe_result(BackendType::Dufs, 401, "");
    assert!(dufs.ok);
    assert_eq!(dufs.message, "Dufs endpoint reachable (HTTP 401)");
    let redis = probe_result(BackendType::Redis, 200, "{\"result\":\"PONG\"}");
    assert_eq!(redis.message, "Redis endpoint reachable: {\"result\":\"PONG\"}");
    let redis_bad = probe_result(BackendType::Redis, 401, "nope");
    assert!(!redis_bad.ok);
    assert_eq!(redis_bad.message, "Redis ping failed (HTTP 401): nope");
    let f = probe_failure("dns");
    assert!(!f.ok);
    assert_eq!(f.message, "Connection failed: dns");
}

#[test]
fn failures() {
    assert_eq!(
        call_failure(BackendCall::S3Upload, 500, "boom"),
        ("S3 upload failed (500): boom".to_string(), "S3_UPLOAD_FAILED".to_string())
    );
    assert_eq!(
        call_failure(object_call(BackendType::Redis, ObjectOp::Delete), 404, ""),
        ("Redis DEL failed (404): ".to_string(), "REDIS_DEL_FAILED".to_string())
    );
    assert_eq!(object_call(BackendType::Dufs, ObjectOp::Download), BackendCall::DufsDownload);
    assert_eq!(call_failure(BackendCall::OssPreview, 502, "x").1, "OSS_PREVIEW_FAILED");
    assert_eq!(backend_mismatch_message("S3 or Dufs", BackendType::Redis), "Expected S3 or Dufs backend, got redis");
}

#[test]
fn download_response_headers() {
    assert_eq!(
        download_headers(None),
        vec![
            ("Content-Type".to_string(), "application/octet-stream".to_string()),
            ("Cache-Control".to_string(), "public, max-age=31536000".to_string()),
        ]
    );
    assert_eq!(download_headers(Some("image/png"))[0].1, "image/png");
}

#[test]
fn presign_requests() {
    let s3 = config(BackendType::S3);
    let (url, exp) = presign_upload_for(&s3, "k", None, None).unwrap();
    assert_eq!(exp, 3600);
    assert!(url.contains("Content-Type=application%2Foctet-stream"));
    let (url, exp) = presign_download_for(&s3, "k", Some("a.txt"), Some(60)).unwrap();
    assert_eq!(exp, 60);
    assert!(url.contains("response-content-disposition="));
    assert!(presign_upload_for(&config(BackendType::Dufs), "k", None, None).is_none());
    assert!(presign_download_for(&config(BackendType::Redis), "k", None, None).is_none());
    let r: ApiResponse<()> = presign_refusal();
    assert!(!r.success);
    assert_eq!(r.code, Some("UNSUPPORTED_BACKEND".to_string()));
}

#[test]
fn redis_set() {
    let c = config(BackendType::Redis);
    let (req, body) = redis_set_request(&c, Some("k"), None).unwrap();
    assert_eq!(req.url, "https://store.example.com/set/k");
    assert_eq!(body, "");
    assert_eq!(redis_set_request(&c, None, Some("v")).err(), Some(RedisSetError::MissingKey));
    assert_eq!(
        redis_set_request(&config(BackendType::S3), Some("k"), Some("v")).err(),
        Some(RedisSetError::NotRedis)
    );
}

#[test]
fn config_index() {
    let ids = vec!["a".to_string(), "b".to_string(), "a".to_string()];
    assert_eq!(index_without(ids.clone(), "a"), vec!["b".to_string()]);
    assert_eq!(index_with(vec!["a".to_string()], "c"), vec!["a".to_string(), "c".to_string()]);
    let saved = save_index(&ids);
    assert_eq!(saved, "[\"a\",\"b\",\"a\"]");
    assert_eq!(load_index(Some(&saved)), ids);
    assert!(load_index(None).is_empty());
    assert!(load_index(Some("")).is_empty());
    assert!(load_index(Some("not json")).is_empty());
    assert_eq!(save_index(&Vec::new()), "[]");
}

#[test]
fn config_listing_order_and_pages() {
    let mut a = config(BackendType::S3);
    a.id = "a".to_string();
    a.created_at = 1;
    let mut b = a.clone();
    b.id = "b".to_string();
    b.created_at = 3;
    let mut c = a.clone();
    c.id = "c".to_string();
    c.created_at = 3;
    let sorted = sort_newest_first(vec![a, b, c]);
    let order: Vec<&str> = sorted.iter().map(|x| x.id.as_str()).collect();
    assert_eq!(order, vec!["b", "c", "a"]);
    let page = page_of_configs(sorted.clone(), 1, 5);
    assert_eq!(page.len(), 2);
    assert_eq!(page[0].id, "c");
    assert!(page_of_configs(sorted.clone(), 9, 5).is_empty());
    assert_eq!(page_of_configs(sorted, 0, 1).len(), 1);
}

#[test]
fn config_create_and_update() {
    let input = CreateBackendConfigInput {
        name: "R2".to_string(),
        backend_type: BackendType::S3,
        endpoint: "https://r2".to_string(),
        region: "auto".to_string(),
        bucket: "b".to_string(),
        access_key_id: "k".to_string(),
        secret_access_key: "s".to_string(),
        force_path_style: true,
        username: None,
        password: None,
        redis_password: None,
        db_index: None,
        oss_preview_rpc_url: String::new(),
        oss_preview_cookie: String::new(),
    };
    let c = config_from_input(input, "id-1".to_string(), 9);
    assert_eq!((c.id.as_str(), c.name.as_str(), c.created_at), ("id-1", "R2", 9));
    let update = UpdateBackendConfigInput {
        name: Some("R2b".to_string()),
        backend_type: None,
        endpoint: None,
        region: None,
        bucket: Some("b2".to_string()),
        access_key_id: None,
        secret_access_key: None,
        force_path_style: Some(false),
        username: Some("u".to_string()),
        password: None,
        redis_password: None,
        db_index: None,
        oss_preview_rpc_url: None,
        oss_preview_cookie: None,
    };
    let u = apply_config_update(c, update);
    assert_eq!((u.id.as_str(), u.name.as_str(), u.bucket.as_str()), ("id-1", "R2b", "b2"));
    assert_eq!(u.created_at, 9);
    assert!(!u.force_path_style);
    assert_eq!(u.username, Some("u".to_string()));
    assert_eq!(u.endpoint, "https://r2");
    let item = ConfigListItem::from_config(&u);
    assert_eq!(item.bucket, "b2");
}

#[test]
fn integer_flags() {
    assert!(flag_from_integer(1));
    assert!(flag_from_integer(-1));
    assert!(!flag_from_integer(0));
    assert!(flag_from_unsigned(2));
    assert!(!flag_from_unsigned(0));
}
