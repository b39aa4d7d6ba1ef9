use hmac::{Hmac, Mac};
use sha2::{Digest, Sha256};
use bendy_fs::dates::{amz_dates, civil_date, is_leap, iso_date};
use bendy_fs::encoding::{
    sha256_hex, url_encode, url_encode_except_slash, url_encode_query, url_encode_rfc5987,
};
use bendy_fs::sigv4::{
    build_auth_header_at, build_object_url, derive_signing_key, extract_host, presign_get,
    presign_put, presign_url_at,
};
use bendy_fs::types::{BackendConfig, BackendType};

fn s3_config(endpoint: &str, bucket: &str, region: &str) -> BackendConfig {
    BackendConfig {
        id: "cfg-1".to_string(),
        name: "bucket".to_string(),
        backend_type: BackendType::S3,
        endpoint: endpoint.to_string(),
        created_at: 0,
        region: region.to_string(),
        bucket: bucket.to_string(),
        access_key_id: "EXAMPLEKEYID".to_string(),
        secret_access_key: "example/secret+key".to_string(),
        force_path_style: true,
        username: None,
        password: None,
        redis_password: None,
        db_index: None,
        oss_preview_rpc_url: String::new(),
        oss_preview_cookie: String::new(),
    }
}

fn hex(bytes: &[u8]) -> String {
    bytes.iter().map(|b| format!("{:02x}", b)).collect()
}

#[test]
fn test_extract_host() {
    assert_eq!(extract_host("https://s3.amazonaws.com"), "s3.amazonaws.com");
    assert_eq!(extract_host("http://localhost:9000"), "localhost");
    assert_eq!(extract_host("https://s3.hi168.com/path"), "s3.hi168.com");
}

#[test]
fn test_sha256() {
    let hash = sha256_hex(b"hello");
    assert_eq!(hash.len(), 64);
}

#[test]
fn sha256_known_digests() {
    assert_eq!(
        sha256_hex(b"hello"),
        "2cf24dba5fb0a30e26e83b2ac5b9e29e1b161e5c1fa7425e73043362938b9824"
    );
    assert_eq!(
        sha256_hex(b""),
        "e3b0c44298fc1c149afbf4c8996fb92427ae41e4649b934ca495991b7852b855"
    );
}

#[test]
fn extract_host_trims_and_strips() {
    assert_eq!(extract_host("  https://a.example.com:8443/x/y  "), "a.example.com");
    assert_eq!(extract_host("minio.local"), "minio.local");
    assert_eq!(extract_host(""), "");
}

#[test]
fn signing_key_matches_published_example() {
    let key = derive_signing_key(
        "wJalrXUtnFEMI/K7MDENG+bPxRfiCYEXAMPLEKEY",
        "20120215",
        "us-east-1",
        "iam",
    );
    assert_eq!(hex(&key), "f4780e2d9f65fa895f9c67b32ce1baf0b0d8a43505a000a1a9e090d414db404d");
}

fn hmac_tag(key: &[u8], data: &[u8]) -> Vec<u8> {
    let mut mac = Hmac::<Sha256>::new_from_slice(key).unwrap();
    mac.update(data);
    mac.finalize().into_bytes().to_vec()
}

#[test]
fn presigned_get_follows_the_sigv4_steps() {
    let config = s3_config("https://examplebucket.s3.amazonaws.com", "examplebucket", "us-east-1");
    let url = presign_url_at(&config, "test.txt", "GET", None, 86400, None, 1369353600);
    let expected_query = [
        "X-Amz-Algorithm=AWS4-HMAC-SHA256",
        "&X-Amz-Credential=EXAMPLEKEYID%2F20130524%2Fus-east-1%2Fs3%2Faws4_request",
        "&X-Amz-Date=20130524T000000Z",
        "&X-Amz-Expires=86400",
        "&X-Amz-SignedHeaders=host",
    ]
    .concat();
    let canonical_request = [
        "GET\n/test.txt\n",
        expected_query.as_str(),
        "\nhost:examplebucket.s3.amazonaws.com\n\nhost\nUNSIGNED-PAYLOAD",
    ]
    .concat();
    let string_to_sign = [
        "AWS4-HMAC-SHA256\n20130524T000000Z\n20130524/us-east-1/s3/aws4_request\n",
        hex(&Sha256::digest(canonical_request.as_bytes())).as_str(),
    ]
    .concat();
    let k_date = hmac_tag(b"AWS4example/secret+key", b"20130524");
    let k_region = hmac_tag(&k_date, b"us-east-1");
    let k_service = hmac_tag(&k_region, b"s3");
    let k_signing = hmac_tag(&k_service, b"aws4_request");
    let expected_signature = hex(&hmac_tag(&k_signing, string_to_sign.as_bytes()));

    let (base, rest) = url.split_once('?').expect("a presigned URL has a query");
    assert_eq!(base, "https://examplebucket.s3.amazonaws.com/examplebucket/test.txt");
    let (query, signature) = rest.rsplit_once("&X-Amz-Signature=").expect("the signature comes last");
    assert_eq!(query, expected_query);
    assert_eq!(signature, expected_signature);
}

#[test]
fn presigned_put_lists_content_type_first() {
    let config = s3_config("https://r2.example.com/", "files", "");
    let url = presign_url_at(
        &config,
        "/docs/a b.txt",
        "PUT",
        Some("text/plain"),
        600,
        None,
        0,
    );
    let expected_prefix = [
        "https://r2.example.com/files/docs/a b.txt?Content-Type=text%2Fplain",
        "&X-Amz-Algorithm=AWS4-HMAC-SHA256",
        "&X-Amz-Credential=EXAMPLEKEYID%2F19700101%2Fus-east-1%2Fs3%2Faws4_request",
        "&X-Amz-Date=19700101T000000Z&X-Amz-Expires=600&X-Amz-SignedHeaders=host&X-Amz-Signature=",
    ]
    .concat();
    assert!(url.starts_with(&expected_prefix));
    let sig = url.rsplit("X-Amz-Signature=").next().unwrap();
    assert_eq!(sig.len(), 64);
}

#[test]
fn presigned_get_with_filename_adds_disposition_last() {
    let config = s3_config("https://s3.example.com", "b", "eu-west-1");
    let url = presign_url_at(&config, "k", "GET", None, 60, Some("naïve file.txt"), 86399);
    assert!(url.contains(
        "X-Amz-SignedHeaders=host&response-content-disposition=attachment%3B%20filename%2A%3DUTF-8%27%27na%25C3%25AFve%2520file.txt&X-Amz-Signature="
    ));
    assert!(url.contains("X-Amz-Date=19700101T235959Z"));
}

#[test]
fn presign_now_differs_only_by_time() {
    let config = s3_config("https://s3.example.com", "b", "us-east-1");
    let put = presign_put(&config, "k", "image/png", 3600);
    assert!(put.starts_with("https://s3.example.com/b/k?Content-Type=image%2Fpng&X-Amz-Algorithm="));
    let get = presign_get(&config, "k", 3600, None);
    assert!(get.starts_with("https://s3.example.com/b/k?X-Amz-Algorithm=AWS4-HMAC-SHA256&"));
}

#[test]
fn auth_header_shape() {
    let config = s3_config("https://s3.example.com", "b", "us-east-1");
    let h = build_auth_header_at(&config, "PUT", "dir/file.bin", Some("application/pdf"), b"data", 1369353600);
    assert!(h.starts_with(
        "AWS4-HMAC-SHA256 Credential=EXAMPLEKEYID/20130524/us-east-1/s3/aws4_request,SignedHeaders=content-type;host;x-amz-content-sha256;x-amz-date,Signature="
    ));
    let sig = h.rsplit("Signature=").next().unwrap();
    assert_eq!(sig.len(), 64);
    let again = build_auth_header_at(&config, "PUT", "dir/file.bin", Some("application/pdf"), b"data", 1369353600);
    assert_eq!(h, again);
    let other = build_auth_header_at(&config, "PUT", "dir/file.bin", Some("application/pdf"), b"datb", 1369353600);
    assert_ne!(h, other);
}

#[test]
fn object_url_joins_with_single_slashes() {
    let config = s3_config("https://s3.example.com///", "bucket", "");
    assert_eq!(build_object_url(&config, "//a/b.txt"), "https://s3.example.com/bucket/a/b.txt");
}

#[test]
fn percent_encodings() {
    assert_eq!(url_encode("a b&c=d~._-"), "a%20b%26c%3Dd~._-");
    assert_eq!(url_encode_except_slash("a b/c"), "a%20b/c");
    assert_eq!(url_encode_query("x=y/z"), "x%3Dy%2Fz");
    assert_eq!(url_encode_rfc5987("naïve file.txt"), "na%C3%AFve%20file.txt");
    assert_eq!(url_encode_rfc5987("a!#$&+^`|"), "a!#$&+^`|");
}

#[test]
fn calendar_dates() {
    assert_eq!(civil_date(0), (1970, 1, 1));
    assert_eq!(civil_date(59), (1970, 3, 1));
    assert_eq!(amz_dates(1369353600), ("20130524T000000Z".to_string(), "20130524".to_string()));
    assert_eq!(amz_dates(1700000000), ("20231114T221320Z".to_string(), "20231114".to_string()));
    assert_eq!(iso_date(951782400), "2000-02-29");
    assert_eq!(iso_date(978220800), "2000-12-31");
}

#[test]
fn leap_years() {
    assert!(is_leap(2000));
    assert!(!is_leap(1900));
    assert!(is_leap(2024));
    assert!(!is_leap(2023));
}
