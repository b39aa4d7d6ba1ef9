//! Signing in with GitHub: the authorize redirect, the code exchange, the
//! user lookup and the session cookie an admin receives.

use vstd::prelude::*;
use vstd::utf8::encode_utf8;

use crate::backends::{HttpMethod, OutgoingRequest};
use crate::config::strings_view;
use crate::encoding::{percent_encode_spec, url_encode, EncodeSet};
use crate::jwt::{
    is_b64_url_char, jwt_sign_spec, session_claims_spec, session_token_at, SESSION_TTL_SECS,
};
use crate::session::{
    is_admin_user, law_session_cookie_read_back, session_cookie_name, session_payload_spec,
    SessionError,
};
use crate::sigv4::pairs_view;
use crate::text::{decimal, is_white_space, lowercase, push_decimal, push_str, to_lowercase};

verus! {

/// A form or query component, percent-encoded.
pub open spec fn enc(s: Seq<char>) -> Seq<char> {
    percent_encode_spec(EncodeSet::Unreserved, s)
}

/// GitHub's authorize page with the client id, the redirect URI and the
/// `read:user` scope.
pub open spec fn authorize_url_spec(client_id: Seq<char>, redirect_uri: Seq<char>) -> Seq<char> {
    "https://github.com/login/oauth/authorize?client_id="@ + enc(client_id) + "&redirect_uri="@
        + enc(redirect_uri) + "&scope=read:user"@
}

/// Where the sign-in route redirects the browser.
pub fn github_authorize_url(client_id: &str, redirect_uri: &str) -> (res: String)
    ensures
        res@ == authorize_url_spec(client_id@, redirect_uri@),
{
    let mut s = String::new();
    push_str(&mut s, "https://github.com/login/oauth/authorize?client_id=");
    push_str(&mut s, url_encode(client_id).as_str());
    push_str(&mut s, "&redirect_uri=");
    push_str(&mut s, url_encode(redirect_uri).as_str());
    push_str(&mut s, "&scope=read:user");
    s
}

/// The form body that exchanges a code for an access token.
pub open spec fn token_body_spec(
    client_id: Seq<char>,
    client_secret: Seq<char>,
    code: Seq<char>,
    redirect_uri: Seq<char>,
) -> Seq<char> {
    "client_id="@ + enc(client_id) + "&client_secret="@ + enc(client_secret) + "&code="@ + enc(code)
        + "&redirect_uri="@ + enc(redirect_uri)
}

/// The request that exchanges a code for an access token: a form `POST` to
/// GitHub's token endpoint asking for JSON.
pub open spec fn token_request_spec(r: OutgoingRequest) -> bool {
    &&& r.method == HttpMethod::Post
    &&& r.url@ == "https://github.com/login/oauth/access_token"@
    &&& r.header_pairs() == seq![
        ("Content-Type"@, "application/x-www-form-urlencoded"@),
        ("Accept"@, "application/json"@),
    ]
}

/// The code exchange: the request and its form body.
pub fn github_token_request(
    client_id: &str,
    client_secret: &str,
    code: &str,
    redirect_uri: &str,
) -> (res: (OutgoingRequest, String))
    ensures
        token_request_spec(res.0),
        res.1@ == token_body_spec(client_id@, client_secret@, code@, redirect_uri@),
{
    let mut body = String::new();
    push_str(&mut body, "client_id=");
    push_str(&mut body, url_encode(client_id).as_str());
    push_str(&mut body, "&client_secret=");
    push_str(&mut body, url_encode(client_secret).as_str());
    push_str(&mut body, "&code=");
    push_str(&mut body, url_encode(code).as_str());
    push_str(&mut body, "&redirect_uri=");
    push_str(&mut body, url_encode(redirect_uri).as_str());
    let mut headers: Vec<(String, String)> = Vec::new();
    headers.push(("Content-Type".to_owned(), "application/x-www-form-urlencoded".to_owned()));
    headers.push(("Accept".to_owned(), "application/json".to_owned()));
    assert(pairs_view(headers@) =~= seq![
        ("Content-Type"@, "application/x-www-form-urlencoded"@),
        ("Accept"@, "application/json"@),
    ]);
    let req = OutgoingRequest {
        method: HttpMethod::Post,
        url: "https://github.com/login/oauth/access_token".to_owned(),
        headers,
    };
    (req, body)
}

/// The request for the signed-in user: a `GET` of GitHub's user API with the
/// access token and the service's user agent.
pub open spec fn user_request_spec(access_token: Seq<char>, r: OutgoingRequest) -> bool {
    &&& r.method == HttpMethod::Get
    &&& r.url@ == "https://api.github.com/user"@
    &&& r.header_pairs() == seq![
        ("Authorization"@, "Bearer "@ + access_token),
        ("User-Agent"@, "bendy-fs-server"@),
    ]
}

/// The request for the signed-in user.
pub fn github_user_request(access_token: &str) -> (res: OutgoingRequest)
    ensures
        user_request_spec(access_token@, res),
{
    let mut auth = String::new();
    push_str(&mut auth, "Bearer ");
    push_str(&mut auth, access_token);
    let mut headers: Vec<(String, String)> = Vec::new();
    headers.push(("Authorization".to_owned(), auth));
    headers.push(("User-Agent".to_owned(), "bendy-fs-server".to_owned()));
    assert(pairs_view(headers@) =~= seq![
        ("Authorization"@, "Bearer "@ + access_token@),
        ("User-Agent"@, "bendy-fs-server"@),
    ]);
    OutgoingRequest { method: HttpMethod::Get, url: "https://api.github.com/user".to_owned(), headers }
}

/// Why a GitHub sign-in failed; each ends in the `oauth_failed` redirect.
#[derive(Clone, Copy, Debug, PartialEq, Eq, Structural)]
pub enum OAuthError {
    MissingCode,
    TokenExchangeFailed,
    UnreadableTokenReply,
    GitHubRefused,
    NoAccessToken,
    UserFetchFailed,
    UnreadableUser,
}

/// GitHub's answer to the code exchange, as read from its JSON.
#[derive(Clone, Debug)]
pub struct TokenReply {
    pub access_token: Option<String>,
    pub error: Option<String>,
    pub error_description: Option<String>,
}

/// The access token of the code exchange: refused on a status of 400 or
/// more, on an unreadable reply (`None`), on a reported error, or when the
/// reply has no token.
pub open spec fn access_token_spec(status: u16, reply: Option<TokenReply>) -> Result<Seq<char>, OAuthError> {
    if status >= 400 {
        Err(OAuthError::TokenExchangeFailed)
    } else {
        match reply {
            None => Err(OAuthError::UnreadableTokenReply),
            Some(r) => if r.error is Some {
                Err(OAuthError::GitHubRefused)
            } else {
                match r.access_token {
                    None => Err(OAuthError::NoAccessToken),
                    Some(t) => Ok(t@),
                }
            },
        }
    }
}

/// The access token of the code exchange, from the answer's status and its
/// reply (`None` when the reply could not be read).
pub fn access_token_from(status: u16, reply: Option<TokenReply>) -> (res: Result<String, OAuthError>)
    ensures
        match res {
            Ok(t) => access_token_spec(status, reply) == Ok::<Seq<char>, OAuthError>(t@),
            Err(e) => access_token_spec(status, reply) == Err::<Seq<char>, OAuthError>(e),
        },
{
    if status >= 400 {
        return Err(OAuthError::TokenExchangeFailed);
    }
    match reply {
        None => Err(OAuthError::UnreadableTokenReply),
        Some(r) => {
            if r.error.is_some() {
                return Err(OAuthError::GitHubRefused);
            }
            match r.access_token {
                None => Err(OAuthError::NoAccessToken),
                Some(t) => Ok(t),
            }
        },
    }
}

/// The GitHub login of the user lookup: refused on a status of 400 or more
/// or an unreadable reply (`None`).
pub fn github_login_from(status: u16, login: Option<String>) -> (res: Result<String, OAuthError>)
    ensures
        status >= 400 ==> res == Err::<String, OAuthError>(OAuthError::UserFetchFailed),
        status < 400 && login is None ==> res == Err::<String, OAuthError>(
            OAuthError::UnreadableUser,
        ),
        status < 400 && login is Some ==> res == Ok::<String, OAuthError>(login->0),
{
    if status >= 400 {
        return Err(OAuthError::UserFetchFailed);
    }
    match login {
        None => Err(OAuthError::UnreadableUser),
        Some(l) => Ok(l),
    }
}

/// `Set-Cookie` value of a new session: the token for the whole site,
/// HTTP-only, same-site lax, for `SESSION_TTL_SECS`.
pub open spec fn session_cookie_header_spec(token: Seq<char>) -> Seq<char> {
    session_cookie_name() + "="@ + token + "; Path=/; HttpOnly; SameSite=Lax; Max-Age="@ + decimal(
        SESSION_TTL_SECS as nat,
    )
}

/// The `Set-Cookie` value that starts a session with `token`.
pub fn session_cookie(token: &str) -> (res: String)
    ensures
        res@ == session_cookie_header_spec(token@),
{
    let mut s = String::new();
    push_str(&mut s, "bendy_fs_session=");
    push_str(&mut s, token);
    push_str(&mut s, "; Path=/; HttpOnly; SameSite=Lax; Max-Age=");
    push_decimal(&mut s, SESSION_TTL_SECS);
    proof {
        reveal_strlit("bendy_fs_session=");
        reveal_strlit("bendy_fs_session");
        reveal_strlit("=");
        assert(s@ =~= session_cookie_header_spec(token@));
    }
    s
}

/// The `Set-Cookie` value that ends the session at once.
pub fn logout_cookie() -> (res: String)
    ensures
        res@ == session_cookie_name() + "=; Path=/; HttpOnly; SameSite=Lax; Max-Age=0"@,
{
    let mut s = String::new();
    push_str(&mut s, "bendy_fs_session");
    push_str(&mut s, "=; Path=/; HttpOnly; SameSite=Lax; Max-Age=0");
    s
}

/// Where a failed sign-in sends the browser: `/admin?error=<error>`.
pub fn redirect_admin_error(error: &str) -> (res: String)
    ensures
        res@ == "/admin?error="@ + error@,
{
    let mut s = String::new();
    push_str(&mut s, "/admin?error=");
    push_str(&mut s, error);
    s
}

/// How a sign-in ends once GitHub named the user.
#[derive(Clone, Debug)]
pub enum LoginOutcome {
    /// Not an admin: recorded as a failed login of the lower-cased name.
    Refused { username: String },
    /// An admin: a session starts with this cookie.
    Admitted { username: String, cookie: String },
}

/// A sign-in by `login` at `now`: refused unless the lower-cased login is on
/// the admin list; an admitted user gets a session cookie whose token carries
/// the login and an expiry `SESSION_TTL_SECS` later, and that token, sent
/// back in the session cookie, opens a session carrying those claims.
pub fn login_outcome(login: &str, admins: &Vec<String>, secret: &str, now: u64) -> (res: LoginOutcome)
    requires
        now <= u64::MAX - SESSION_TTL_SECS,
        login@.len() <= usize::MAX / 64,
    ensures
        match res {
            LoginOutcome::Refused { username } => !strings_view(admins@).contains(lowercase(login@))
                && username@ == lowercase(login@),
            LoginOutcome::Admitted { username, cookie } => {
                &&& strings_view(admins@).contains(lowercase(login@))
                &&& username@ == login@
                &&& cookie@ == session_cookie_header_spec(issued_session_token(login@, secret@, now))
                &&& session_payload_spec(
                    Some(session_cookie_name() + "="@ + issued_session_token(login@, secret@, now)),
                    secret@,
                ) == Ok::<Seq<u8>, SessionError>(
                    encode_utf8(session_claims_spec(login@, now, (now + SESSION_TTL_SECS) as u64)),
                )
            },
        },
{
    if !is_admin_user(admins, login) {
        return LoginOutcome::Refused { username: to_lowercase(login) };
    }
    let token = session_token_at(secret, login, now);
    proof {
        assert forall|i: int| 0 <= i < token@.len() implies #[trigger] token@[i] != ';'
            && !is_white_space(token@[i]) by {
            assert(is_b64_url_char(token@[i]) || token@[i] == '.');
        }
        law_session_cookie_read_back(token@);
    }
    LoginOutcome::Admitted { username: login.to_owned(), cookie: session_cookie(token.as_str()) }
}

/// The session token a sign-in by `login` at `now` issues.
pub open spec fn issued_session_token(login: Seq<char>, secret: Seq<char>, now: u64) -> Seq<char> {
    jwt_sign_spec(session_claims_spec(login, now, (now + SESSION_TTL_SECS) as u64), secret)
}

} // verus!
