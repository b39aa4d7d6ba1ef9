use bendy_fs::jwt::JwtError;
use bendy_fs::oauth::{
    access_token_from, github_authorize_url, github_login_from, github_token_request,
    github_user_request, login_outcome, logout_cookie, redirect_admin_error, session_cookie,
    LoginOutcome, OAuthError, TokenReply,
};
use bendy_fs::backends::HttpMethod;
use bendy_fs::session::{
    extract_session_cookie, extract_token, get_admin_usernames, is_admin_user, session_payload,
    verify_admin, verify_session, AdminAuthError, AdminIdentity, SessionClaims, SessionError,
};
use bendy_fs::handlers::{
    audit_log_entry, change_detail, config_page, cors_headers, cors_response, health_counts,
    health_entry, login_detail, login_refused_detail, page_i64, query_i64, query_usize,
    query_value, AuditAction, AuditSubject, ProbeOutcome,
};
use bendy_fs::types::{BackendConfig, BackendType, HealthProbeResult, TestResult};

fn pairs(items: &[(&str, &str)]) -> Vec<(String, String)> {
    items.iter().map(|(k, v)| (k.to_string(), v.to_string())).collect()
}

fn admins() -> Vec<String> {
    get_admin_usernames(" Alice, ,BOB ,carol,")
}

#[test]
fn admin_list_is_trimmed_and_lowercased() {
    assert_eq!(admins(), vec!["alice".to_string(), "bob".to_string(), "carol".to_string()]);
    assert!(get_admin_usernames("").is_empty());
    assert!(get_admin_usernames(" , ,").is_empty());
}

#[test]
fn admin_membership_ignores_case() {
    assert!(is_admin_user(&admins(), "ALICE"));
    assert!(is_admin_user(&admins(), "Bob"));
    assert!(!is_admin_user(&admins(), "mallory"));
    assert!(!is_admin_user(&admins(), " alice"));
}

#[test]
fn bearer_tokens() {
    assert_eq!(extract_token(Some("Bearer abc.def")), Some("abc.def".to_string()));
    assert_eq!(extract_token(Some("Bearer ")), Some(String::new()));
    assert_eq!(extract_token(Some("bearer abc")), None);
    assert_eq!(extract_token(None), None);
}

#[test]
fn session_cookie_is_found_among_others() {
    assert_eq!(
        extract_session_cookie(Some("theme=dark;  bendy_fs_session = tok.en ; other=1")),
        Some("tok.en".to_string())
    );
    assert_eq!(extract_session_cookie(Some("bendy_fs_session=a=b")), Some("a=b".to_string()));
    assert_eq!(extract_session_cookie(Some("bendy_fs_session")), None);
    assert_eq!(extract_session_cookie(Some("x=1")), None);
    assert_eq!(extract_session_cookie(None), None);
}

#[test]
fn session_cookie_round_trip() {
    let list = admins();
    match login_outcome("Alice", &list, "jwt", 100) {
        LoginOutcome::Admitted { username, cookie } => {
            assert_eq!(username, "Alice");
            assert!(cookie.ends_with("; Path=/; HttpOnly; SameSite=Lax; Max-Age=86400"));
            let sent = cookie.split(';').next().unwrap().to_string();
            let payload = session_payload(Some(&sent), "jwt").unwrap();
            assert_eq!(
                String::from_utf8(payload).unwrap(),
                "{\"username\":\"Alice\",\"iat\":100,\"exp\":86500}"
            );
            let claims = SessionClaims { username: "Alice".to_string(), iat: 100, exp: 86500 };
            assert_eq!(verify_session(Some(claims), 200, &list).unwrap(), "Alice");
        }
        LoginOutcome::Refused { .. } => panic!("an admin must be admitted"),
    }
}

#[test]
fn refused_login_names_the_user() {
    match login_outcome("Mallory", &admins(), "jwt", 100) {
        LoginOutcome::Refused { username } => assert_eq!(username, "mallory"),
        LoginOutcome::Admitted { .. } => panic!("not an admin"),
    }
}

#[test]
fn session_refusals() {
    assert_eq!(session_payload(None, "k").err(), Some(SessionError::NoCookie));
    assert_eq!(
        session_payload(Some("bendy_fs_session=x.y"), "k").err(),
        Some(SessionError::Token(JwtError::InvalidFormat))
    );
    let old = SessionClaims { username: "alice".to_string(), iat: 0, exp: 10 };
    assert_eq!(
        verify_session(Some(old), 11, &admins()).err(),
        Some(SessionError::Token(JwtError::Expired))
    );
    let stranger = SessionClaims { username: "eve".to_string(), iat: 0, exp: 10 };
    assert_eq!(verify_session(Some(stranger), 1, &admins()).err(), Some(SessionError::NotAdmin));
    assert_eq!(verify_session(None, 1, &admins()).err(), Some(SessionError::InvalidClaims));
    assert_eq!(SessionError::Token(JwtError::Expired).message(), "Session expired");
    assert_eq!(SessionError::NotAdmin.message(), "Not an admin user");
}

#[test]
fn admin_access() {
    match verify_admin(Some("alice".to_string()), None, None) {
        Ok(AdminIdentity::Session(u)) => assert_eq!(u, "alice"),
        _ => panic!("a session lets the admin in"),
    }
    assert!(matches!(verify_admin(None, Some("t0k"), Some("Bearer t0k")), Ok(AdminIdentity::Token)));
    assert_eq!(verify_admin(None, Some("t0k"), Some("Bearer bad")).err(), Some(AdminAuthError::InvalidToken));
    assert_eq!(verify_admin(None, Some("t0k"), None).err(), Some(AdminAuthError::MissingBearer));
    assert_eq!(verify_admin(None, Some(""), Some("Bearer ")).err(), Some(AdminAuthError::TokenNotSet));
    assert_eq!(verify_admin(None, None, Some("Bearer x")).err(), Some(AdminAuthError::TokenUnavailable));
    assert_eq!(AdminIdentity::Token.actor_name(), "admin");
    assert_eq!(AdminIdentity::Session("bob".to_string()).actor_name(), "bob");
    assert_eq!(AdminAuthError::InvalidToken.message(), "Invalid admin token");
}

#[test]
fn github_requests() {
    assert_eq!(
        github_authorize_url("id 1", "https://w.dev/api/github/callback"),
        "https://github.com/login/oauth/authorize?client_id=id%201&redirect_uri=https%3A%2F%2Fw.dev%2Fapi%2Fgithub%2Fcallback&scope=read:user"
    );
    let (req, body) = github_token_request("cid", "sec/ret", "c0de", "https://w.dev/cb");
    assert_eq!(req.method, HttpMethod::Post);
    assert_eq!(req.url, "https://github.com/login/oauth/access_token");
    assert_eq!(
        req.headers,
        vec![
            ("Content-Type".to_string(), "application/x-www-form-urlencoded".to_string()),
            ("Accept".to_string(), "application/json".to_string()),
        ]
    );
    assert_eq!(body, "client_id=cid&client_secret=sec%2Fret&code=c0de&redirect_uri=https%3A%2F%2Fw.dev%2Fcb");
    let user = github_user_request("gho_1");
    assert_eq!(user.url, "https://api.github.com/user");
    assert_eq!(user.headers[0], ("Authorization".to_string(), "Bearer gho_1".to_string()));
    assert_eq!(user.headers[1], ("User-Agent".to_string(), "bendy-fs-server".to_string()));
}

#[test]
fn github_replies() {
    let good = TokenReply { access_token: Some("gho_1".to_string()), error: None, error_description: None };
    assert_eq!(access_token_from(200, Some(good.clone())).unwrap(), "gho_1");
    assert_eq!(access_token_from(401, Some(good)).err(), Some(OAuthError::TokenExchangeFailed));
    assert_eq!(access_token_from(200, None).err(), Some(OAuthError::UnreadableTokenReply));
    let refused = TokenReply {
        access_token: Some("x".to_string()),
        error: Some("bad_verification_code".to_string()),
        error_description: None,
    };
    assert_eq!(access_token_from(200, Some(refused)).err(), Some(OAuthError::GitHubRefused));
    let empty = TokenReply { access_token: None, error: None, error_description: None };
    assert_eq!(access_token_from(200, Some(empty)).err(), Some(OAuthError::NoAccessToken));
    assert_eq!(github_login_from(200, Some("octo".to_string())).unwrap(), "octo");
    assert_eq!(github_login_from(404, Some("octo".to_string())).err(), Some(OAuthError::UserFetchFailed));
    assert_eq!(github_login_from(200, None).err(), Some(OAuthError::UnreadableUser));
}

#[test]
fn cookies_and_redirects() {
    assert_eq!(session_cookie("abc"), "bendy_fs_session=abc; Path=/; HttpOnly; SameSite=Lax; Max-Age=86400");
    assert_eq!(logout_cookie(), "bendy_fs_session=; Path=/; HttpOnly; SameSite=Lax; Max-Age=0");
    assert_eq!(redirect_admin_error("unauthorized"), "/admin?error=unauthorized");
}

#[test]
fn query_parameters() {
    let q = pairs(&[("limit", "abc"), ("offset", "-5"), ("limit", "7"), ("page", "+3")]);
    assert_eq!(query_value(&q, "limit"), Some("abc".to_string()));
    assert_eq!(query_value(&q, "missing"), None);
    assert_eq!(query_i64(&q, "offset", 0), -5);
    assert_eq!(query_i64(&q, "limit", 50), 50);
    assert_eq!(query_i64(&q, "page", 0), 3);
    assert_eq!(query_usize(&q, "offset", 9), 9);
    assert_eq!(query_i64(&pairs(&[("n", "9223372036854775808")]), "n", 1), 1);
    assert_eq!(query_i64(&pairs(&[("n", "-9223372036854775808")]), "n", 1), i64::MIN);
    assert_eq!(page_i64(&pairs(&[]), 50), (0, 50));
    assert_eq!(page_i64(&pairs(&[("offset", "10"), ("limit", "5")]), 20), (10, 5));
    assert_eq!(config_page(&pairs(&[("limit", "3")])), (0, 3));
    assert_eq!(config_page(&pairs(&[])), (0, 20));
}

#[test]
fn audit_entries() {
    assert_eq!(change_detail(AuditAction::Create, AuditSubject::Config, "R2"), "Created config 'R2'");
    assert_eq!(change_detail(AuditAction::Delete, AuditSubject::Tenant, "Acme"), "Deleted tenant 'Acme'");
    assert_eq!(change_detail(AuditAction::Test, AuditSubject::Config, "x"), "Tested config 'x'");
    assert_eq!(login_refused_detail(), "Not in admin whitelist");
    assert_eq!(login_detail(), "Admin logged in via GitHub OAuth");
    let e = audit_log_entry("alice", AuditAction::LoginFailure, "d", 42);
    assert_eq!(e.action, "login_failure");
    assert_eq!(e.username, "alice");
    assert_eq!(e.created_at, 42);
    assert_eq!(e.id.len(), 36);
}

fn cfg() -> BackendConfig {
    BackendConfig {
        id: "c1".to_string(),
        name: "Main".to_string(),
        backend_type: BackendType::Redis,
        endpoint: "https://r.example.com".to_string(),
        created_at: 0,
        region: String::new(),
        bucket: String::new(),
        access_key_id: String::new(),
        secret_access_key: String::new(),
        force_path_style: false,
        username: None,
        password: None,
        redis_password: None,
        db_index: None,
        oss_preview_rpc_url: String::new(),
        oss_preview_cookie: String::new(),
    }
}

#[test]
fn health_entries_and_counts() {
    let ok = health_entry(&cfg(), ProbeOutcome::Answered(TestResult { ok: true, message: "fine".to_string() }), 12);
    assert_eq!((ok.status.as_str(), ok.error.clone(), ok.backend_type.as_str()), ("ok", None, "redis"));
    let bad = health_entry(&cfg(), ProbeOutcome::Answered(TestResult { ok: false, message: "down".to_string() }), 3);
    assert_eq!((bad.status.as_str(), bad.error.clone()), ("error", Some("down".to_string())));
    let unread = health_entry(&cfg(), ProbeOutcome::Unreadable, 1);
    assert_eq!(unread.error, Some("Failed to parse response".to_string()));
    let failed = health_entry(&cfg(), ProbeOutcome::Failed("boom".to_string()), 1);
    assert_eq!(failed.error, Some("boom".to_string()));
    let all: Vec<HealthProbeResult> = vec![ok, bad, unread, failed];
    assert_eq!(health_counts(&all), (1, 3));
    assert_eq!(health_counts(&Vec::new()), (0, 0));
}

#[test]
fn cors() {
    let h = cors_headers();
    assert_eq!(h.len(), 3);
    assert_eq!(h[0], ("Access-Control-Allow-Origin".to_string(), "*".to_string()));
    let p = cors_response();
    assert_eq!(p.len(), 4);
    assert_eq!(p[3], ("Access-Control-Max-Age".to_string(), "86400".to_string()));
    assert_eq!(p[1].1, "GET, POST, PUT, DELETE, OPTIONS");
}
