//! Admin access: the list of admin GitHub users, bearer tokens, the session
//! cookie, session checks and the admin-token fallback.

use vstd::prelude::*;

use crate::backends::opt_string_view;
use crate::config::strings_view;
use crate::jwt::{check_not_expired, jwt_check_spec, verify_jwt_signature, JwtError, SESSION_TTL_SECS};
use crate::sigv4::opt_view;
use crate::text::{
    before_char, before_char_exec, chars_of, is_white_space, trim_end_ws, trim_start_ws, has_prefix, has_prefix_at, lowercase, slice_chars,
    split_char, split_char_exec, str_eq, string_of, to_lowercase, trim, trim_ws,
};

verus! {

broadcast use vstd::seq_lib::group_seq_properties;

// ───────────────────────── the admin list ─────────────────────────

/// The admin names in comma-separated pieces: each piece trimmed and
/// lower-cased, empty results left out, in order.
pub open spec fn admin_names_from(parts: Seq<Seq<char>>) -> Seq<Seq<char>>
    decreases parts.len(),
{
    if parts.len() == 0 {
        Seq::empty()
    } else {
        let rest = admin_names_from(parts.drop_last());
        let n = lowercase(trim_ws(parts.last()));
        if n.len() > 0 {
            rest.push(n)
        } else {
            rest
        }
    }
}

/// The admin list held in the comma-separated setting `raw`.
pub open spec fn admin_list_spec(raw: Seq<char>) -> Seq<Seq<char>> {
    admin_names_from(split_char(raw, ','))
}

/// The admin user names from the comma-separated setting: trimmed,
/// lower-cased, empty entries dropped.
pub fn get_admin_usernames(raw: &str) -> (res: Vec<String>)
    ensures
        strings_view(res@) == admin_list_spec(raw@),
{
    let v = chars_of(raw);
    let parts = split_char_exec(v.as_slice(), ',');
    let ghost ps = split_char(raw@, ',');
    let mut res: Vec<String> = Vec::new();
    let mut i: usize = 0;
    assert(ps.take(0) =~= Seq::<Seq<char>>::empty());
    while i < parts.len()
        invariant
            i <= parts@.len(),
            parts@.len() == ps.len(),
            forall|k: int| 0 <= k < parts@.len() ==> #[trigger] parts@[k]@ == ps[k],
            strings_view(res@) == admin_names_from(ps.take(i as int)),
        decreases parts@.len() - i,
    {
        assert(ps.take(i + 1).drop_last() =~= ps.take(i as int));
        assert(ps.take(i + 1).last() == ps[i as int]);
        let t = trim(parts[i].as_slice());
        let ts = string_of(t.as_slice());
        let l = to_lowercase(ts.as_str());
        let lv = chars_of(l.as_str());
        if lv.len() > 0 {
            let ghost before = res@;
            res.push(l);
            assert(strings_view(res@) =~= strings_view(before).push(lv@));
        }
        i = i + 1;
    }
    assert(ps.take(ps.len() as int) =~= ps);
    res
}

/// Whether the user `login` is on the admin list (compared lower-cased).
pub fn is_admin_user(admins: &Vec<String>, login: &str) -> (r: bool)
    ensures
        r == strings_view(admins@).contains(lowercase(login@)),
{
    let target = to_lowercase(login);
    let mut i: usize = 0;
    while i < admins.len()
        invariant
            i <= admins@.len(),
            target@ == lowercase(login@),
            forall|k: int| 0 <= k < i ==> admins@[k]@ != target@,
        decreases admins@.len() - i,
    {
        if str_eq(admins[i].as_str(), target.as_str()) {
            assert(strings_view(admins@)[i as int] == target@);
            return true;
        }
        i = i + 1;
    }
    proof {
        if strings_view(admins@).contains(target@) {
            let k = choose|k: int| 0 <= k < strings_view(admins@).len() && strings_view(admins@)[k]
                == target@;
            assert(admins@[k]@ == target@);
        }
    }
    false
}

/// Every name on the admin list is non-empty and is a trimmed, lower-cased
/// piece of the setting; every piece that is non-empty once trimmed and
/// lower-cased is on the list.
pub proof fn law_admin_list_normalized(raw: Seq<char>)
    ensures
        forall|n: Seq<char>| #[trigger]
            admin_list_spec(raw).contains(n) ==> n.len() > 0 && exists|p: Seq<char>|
                split_char(raw, ',').contains(p) && n == lowercase(trim_ws(p)),
        forall|p: Seq<char>|
            #[trigger] split_char(raw, ',').contains(p) && lowercase(trim_ws(p)).len() > 0
                ==> admin_list_spec(raw).contains(lowercase(trim_ws(p))),
{
    lemma_admin_names(split_char(raw, ','));
}

proof fn lemma_admin_names(parts: Seq<Seq<char>>)
    ensures
        forall|n: Seq<char>| #[trigger]
            admin_names_from(parts).contains(n) ==> n.len() > 0 && exists|p: Seq<char>|
                parts.contains(p) && n == lowercase(trim_ws(p)),
        forall|p: Seq<char>|
            #[trigger] parts.contains(p) && lowercase(trim_ws(p)).len() > 0
                ==> admin_names_from(parts).contains(lowercase(trim_ws(p))),
    decreases parts.len(),
{
    if parts.len() > 0 {
        let init = parts.drop_last();
        lemma_admin_names(init);
        let rest = admin_names_from(init);
        let last = parts.last();
        assert forall|n: Seq<char>| #[trigger]
            admin_names_from(parts).contains(n) implies n.len() > 0 && exists|p: Seq<char>|
                parts.contains(p) && n == lowercase(trim_ws(p)) by {
            if rest.contains(n) {
                let p = choose|p: Seq<char>| init.contains(p) && n == lowercase(trim_ws(p));
                let j = choose|j: int| 0 <= j < init.len() && init[j] == p;
                assert(parts[j] == p);
                assert(parts.contains(p));
            } else {
                assert(n == lowercase(trim_ws(last)));
                assert(parts[parts.len() - 1] == last);
                assert(parts.contains(last));
            }
        }
        assert forall|p: Seq<char>|
            #[trigger] parts.contains(p) && lowercase(trim_ws(p)).len() > 0 implies admin_names_from(
                parts,
            ).contains(lowercase(trim_ws(p))) by {
            let j = choose|j: int| 0 <= j < parts.len() && parts[j] == p;
            if j < parts.len() - 1 {
                assert(init[j] == p);
                assert(init.contains(p));
                assert(rest.contains(lowercase(trim_ws(p))));
            } else {
                assert(p == last);
            }
        }
    }
}

// ───────────────────────── tokens and cookies ─────────────────────────

/// The token of an `Authorization: Bearer <token>` header.
pub open spec fn bearer_token_spec(header: Option<Seq<char>>) -> Option<Seq<char>> {
    match header {
        Some(h) => if has_prefix(h, "Bearer "@) {
            Some(h.skip(7))
        } else {
            None
        },
        None => None,
    }
}

/// The token of an `Authorization: Bearer <token>` header, if the header is
/// there and has that form.
pub fn extract_token(authorization: Option<&str>) -> (res: Option<String>)
    ensures
        opt_string_view(res) == bearer_token_spec(opt_view(authorization)),
{
    match authorization {
        None => None,
        Some(h) => {
            proof {
                reveal_strlit("Bearer ");
            }
            let s = chars_of(h);
            let p = chars_of("Bearer ");
            assert(s@.skip(0) =~= s@);
            if has_prefix_at(s.as_slice(), 0, p.as_slice()) {
                let t = slice_chars(s.as_slice(), p.len(), s.len());
                assert(t@ =~= s@.skip(7));
                Some(string_of(t.as_slice()))
            } else {
                None
            }
        },
    }
}

/// The name of the admin session cookie.
pub open spec fn session_cookie_name() -> Seq<char> {
    "bendy_fs_session"@
}

/// `splitn(2, '=')` of a cookie piece: its name and value when it holds an `=`.
pub open spec fn split_pair(t: Seq<char>) -> Option<(Seq<char>, Seq<char>)> {
    let k = before_char(t, '=').len();
    if k < t.len() {
        Some((before_char(t, '='), t.skip(k as int + 1)))
    } else {
        None
    }
}

/// The value of the first `;`-separated piece that, trimmed, is
/// `<name>=<value>` with `name` matching once trimmed; the value trimmed.
pub open spec fn cookie_value_in(parts: Seq<Seq<char>>, name: Seq<char>) -> Option<Seq<char>>
    decreases parts.len(),
{
    if parts.len() == 0 {
        None
    } else {
        match split_pair(trim_ws(parts[0])) {
            Some((k, v)) => if trim_ws(k) == name {
                Some(trim_ws(v))
            } else {
                cookie_value_in(parts.drop_first(), name)
            },
            None => cookie_value_in(parts.drop_first(), name),
        }
    }
}

/// The session token in a `Cookie` header.
pub open spec fn session_cookie_spec(header: Option<Seq<char>>) -> Option<Seq<char>> {
    match header {
        Some(h) => cookie_value_in(split_char(h, ';'), session_cookie_name()),
        None => None,
    }
}

proof fn lemma_before_char_len(s: Seq<char>, c: char)
    ensures
        before_char(s, c).len() <= s.len(),
    decreases s.len(),
{
    if s.len() > 0 && s[0] != c {
        lemma_before_char_len(s.drop_first(), c);
    }
}

/// The session token in the request's `Cookie` header, if there is one.
pub fn extract_session_cookie(cookie_header: Option<&str>) -> (res: Option<String>)
    ensures
        opt_string_view(res) == session_cookie_spec(opt_view(cookie_header)),
{
    let h = match cookie_header {
        Some(h) => h,
        None => return None,
    };
    assert(session_cookie_spec(opt_view(cookie_header)) == cookie_value_in(
        split_char(h@, ';'),
        session_cookie_name(),
    ));
    proof {
        reveal_strlit("bendy_fs_session");
    }
    let name = chars_of("bendy_fs_session");
    let v = chars_of(h);
    let parts = split_char_exec(v.as_slice(), ';');
    let ghost ps = split_char(h@, ';');
    let mut i: usize = 0;
    assert(ps.skip(0) =~= ps);
    while i < parts.len()
        invariant
            i <= parts@.len(),
            parts@.len() == ps.len(),
            forall|k: int| 0 <= k < parts@.len() ==> #[trigger] parts@[k]@ == ps[k],
            name@ == session_cookie_name(),
            session_cookie_spec(opt_view(cookie_header)) == cookie_value_in(ps, name@),
            cookie_value_in(ps, name@) == cookie_value_in(ps.skip(i as int), name@),
        decreases parts@.len() - i,
    {
        assert(ps.skip(i as int)[0] == ps[i as int]);
        assert(ps.skip(i as int).drop_first() =~= ps.skip(i + 1));
        let t = trim(parts[i].as_slice());
        let k = before_char_exec(t.as_slice(), '=');
        proof {
            lemma_before_char_len(t@, '=');
        }
        if k.len() < t.len() {
            let kt = trim(k.as_slice());
            if crate::text::chars_eq(kt.as_slice(), name.as_slice()) {
                let val = slice_chars(t.as_slice(), k.len() + 1, t.len());
                let vt = trim(val.as_slice());
                proof {
                    assert(val@ =~= t@.skip(k@.len() as int + 1));
                    assert(t@ == trim_ws(ps.skip(i as int)[0]));
                    assert(split_pair(t@) == Some((k@, val@)));
                    assert(cookie_value_in(ps.skip(i as int), name@) == Some(vt@));
                }
                return Some(string_of(vt.as_slice()));
            }
        }
        i = i + 1;
    }
    None
}


// ───────────────────────── session checks ─────────────────────────

/// The claims of an admin session token.
#[derive(Clone, Debug)]
pub struct SessionClaims {
    pub username: String,
    pub iat: u64,
    pub exp: u64,
}

/// Why a request carries no valid admin session.
#[derive(Clone, Copy, Debug, PartialEq, Eq, Structural)]
pub enum SessionError {
    NoCookie,
    Token(JwtError),
    InvalidClaims,
    NotAdmin,
}

impl SessionError {
    /// The message reported for this refusal.
    pub fn message(&self) -> (r: &'static str)
        ensures
            r@ == session_error_message(*self),
    {
        match self {
            SessionError::NoCookie => "No session cookie",
            SessionError::Token(JwtError::InvalidFormat) => "Invalid JWT format",
            SessionError::Token(JwtError::InvalidSignature) => "Invalid JWT signature",
            SessionError::Token(JwtError::InvalidPayload) => "Invalid JWT payload",
            SessionError::Token(JwtError::Expired) => "Session expired",
            SessionError::InvalidClaims => "Invalid JWT claims",
            SessionError::NotAdmin => "Not an admin user",
        }
    }
}

/// The message reported for a session refusal.
pub open spec fn session_error_message(e: SessionError) -> Seq<char> {
    match e {
        SessionError::NoCookie => "No session cookie"@,
        SessionError::Token(JwtError::InvalidFormat) => "Invalid JWT format"@,
        SessionError::Token(JwtError::InvalidSignature) => "Invalid JWT signature"@,
        SessionError::Token(JwtError::InvalidPayload) => "Invalid JWT payload"@,
        SessionError::Token(JwtError::Expired) => "Session expired"@,
        SessionError::InvalidClaims => "Invalid JWT claims"@,
        SessionError::NotAdmin => "Not an admin user"@,
    }
}

/// What the first step of a session check gives: the payload of the session
/// token in the `Cookie` header, or why there is none.
pub open spec fn session_payload_spec(cookie_header: Option<Seq<char>>, secret: Seq<char>) -> Result<
    Seq<u8>,
    SessionError,
> {
    match session_cookie_spec(cookie_header) {
        None => Err(SessionError::NoCookie),
        Some(token) => match jwt_check_spec(token, secret) {
            Ok(b) => Ok(b),
            Err(e) => Err(SessionError::Token(e)),
        },
    }
}

/// Finds the session token in the `Cookie` header and checks its signature;
/// the payload's claims are read by the caller and passed to `verify_session`.
pub fn session_payload(cookie_header: Option<&str>, secret: &str) -> (res: Result<Vec<u8>, SessionError>)
    ensures
        match res {
            Ok(b) => session_payload_spec(opt_view(cookie_header), secret@) == Ok::<
                Seq<u8>,
                SessionError,
            >(b@),
            Err(e) => session_payload_spec(opt_view(cookie_header), secret@) == Err::<
                Seq<u8>,
                SessionError,
            >(e),
        },
{
    match extract_session_cookie(cookie_header) {
        None => Err(SessionError::NoCookie),
        Some(token) => match verify_jwt_signature(token.as_str(), secret) {
            Ok(b) => Ok(b),
            Err(e) => Err(SessionError::Token(e)),
        },
    }
}

/// The admin a session's claims name, checked at `now` against the admin
/// list; `None` stands for claims that could not be read.
pub open spec fn verify_session_spec(claims: Option<SessionClaims>, now: u64, admins: Seq<Seq<char>>) -> Result<
    Seq<char>,
    SessionError,
> {
    match claims {
        None => Err(SessionError::InvalidClaims),
        Some(c) => if c.exp < now {
            Err(SessionError::Token(JwtError::Expired))
        } else if !admins.contains(lowercase(c.username@)) {
            Err(SessionError::NotAdmin)
        } else {
            Ok(c.username@)
        },
    }
}

/// The admin user of a session: the claims must not have expired at `now`
/// and must name a user on the admin list.
pub fn verify_session(claims: Option<SessionClaims>, now: u64, admins: &Vec<String>) -> (res: Result<
    String,
    SessionError,
>)
    ensures
        match res {
            Ok(u) => verify_session_spec(claims, now, strings_view(admins@)) == Ok::<
                Seq<char>,
                SessionError,
            >(u@),
            Err(e) => verify_session_spec(claims, now, strings_view(admins@)) == Err::<
                Seq<char>,
                SessionError,
            >(e),
        },
{
    match claims {
        None => Err(SessionError::InvalidClaims),
        Some(c) => {
            match check_not_expired(c.exp, now) {
                Err(e) => Err(SessionError::Token(e)),
                Ok(()) => {
                    if !is_admin_user(admins, c.username.as_str()) {
                        Err(SessionError::NotAdmin)
                    } else {
                        Ok(c.username)
                    }
                },
            }
        },
    }
}

// ───────────────────────── admin access ─────────────────────────

/// How an admin request was let in.
#[derive(Clone, Debug)]
pub enum AdminIdentity {
    /// A GitHub session of this user.
    Session(String),
    /// The shared admin token.
    Token,
}

impl AdminIdentity {
    /// The name recorded in the audit log for this admin: the session's user,
    /// or `admin` for the shared token.
    pub fn actor_name(&self) -> (r: String)
        ensures
            r@ == match self {
                AdminIdentity::Session(u) => u@,
                AdminIdentity::Token => "admin"@,
            },
    {
        match self {
            AdminIdentity::Session(u) => u.clone(),
            AdminIdentity::Token => "admin".to_owned(),
        }
    }
}

/// Why an admin request was refused.
#[derive(Clone, Copy, Debug, PartialEq, Eq, Structural)]
pub enum AdminAuthError {
    /// No session, and the admin token secret cannot be read.
    TokenUnavailable,
    /// No session, and the admin token secret is empty.
    TokenNotSet,
    /// No session and no `Authorization: Bearer` header.
    MissingBearer,
    /// No session, and the bearer token is not the admin token.
    InvalidToken,
}

/// The message reported for an admin refusal.
pub open spec fn admin_auth_error_message(e: AdminAuthError) -> Seq<char> {
    match e {
        AdminAuthError::TokenUnavailable => "ADMIN_TOKEN secret is not available"@,
        AdminAuthError::TokenNotSet => "ADMIN_TOKEN secret is not set. Run: wrangler secret put ADMIN_TOKEN"@,
        AdminAuthError::MissingBearer => "Missing Authorization: Bearer <token> header"@,
        AdminAuthError::InvalidToken => "Invalid admin token"@,
    }
}

impl AdminAuthError {
    /// The message reported for this refusal.
    pub fn message(&self) -> (r: &'static str)
        ensures
            r@ == admin_auth_error_message(*self),
    {
        match self {
            AdminAuthError::TokenUnavailable => "ADMIN_TOKEN secret is not available",
            AdminAuthError::TokenNotSet => "ADMIN_TOKEN secret is not set. Run: wrangler secret put ADMIN_TOKEN",
            AdminAuthError::MissingBearer => "Missing Authorization: Bearer <token> header",
            AdminAuthError::InvalidToken => "Invalid admin token",
        }
    }
}

/// Admin access: a valid session lets the request in; otherwise the bearer
/// token must equal the non-empty admin token.
pub open spec fn admin_access_spec(
    session: Option<Seq<char>>,
    admin_token: Option<Seq<char>>,
    authorization: Option<Seq<char>>,
) -> Result<Option<Seq<char>>, AdminAuthError> {
    match session {
        Some(u) => Ok(Some(u)),
        None => match admin_token {
            None => Err(AdminAuthError::TokenUnavailable),
            Some(expected) => if expected.len() == 0 {
                Err(AdminAuthError::TokenNotSet)
            } else {
                match bearer_token_spec(authorization) {
                    None => Err(AdminAuthError::MissingBearer),
                    Some(t) => if t == expected {
                        Ok(None)
                    } else {
                        Err(AdminAuthError::InvalidToken)
                    },
                }
            },
        },
    }
}

/// The view of an admin identity: the session's user, or `None` for the token.
pub open spec fn identity_view(i: AdminIdentity) -> Option<Seq<char>> {
    match i {
        AdminIdentity::Session(u) => Some(u@),
        AdminIdentity::Token => None,
    }
}

/// Decides admin access from the session check's user (if any), the admin
/// token secret (if readable) and the `Authorization` header.
pub fn verify_admin(
    session_user: Option<String>,
    admin_token: Option<&str>,
    authorization: Option<&str>,
) -> (res: Result<AdminIdentity, AdminAuthError>)
    ensures
        match res {
            Ok(i) => admin_access_spec(opt_string_view(session_user), opt_view(admin_token), opt_view(authorization))
                == Ok::<Option<Seq<char>>, AdminAuthError>(identity_view(i)),
            Err(e) => admin_access_spec(opt_string_view(session_user), opt_view(admin_token), opt_view(authorization))
                == Err::<Option<Seq<char>>, AdminAuthError>(e),
        },
{
    match session_user {
        Some(u) => Ok(AdminIdentity::Session(u)),
        None => match admin_token {
            None => Err(AdminAuthError::TokenUnavailable),
            Some(expected) => {
                let ev = chars_of(expected);
                if ev.len() == 0 {
                    return Err(AdminAuthError::TokenNotSet);
                }
                match extract_token(authorization) {
                    None => Err(AdminAuthError::MissingBearer),
                    Some(t) => {
                        if str_eq(t.as_str(), expected) {
                            Ok(AdminIdentity::Token)
                        } else {
                            Err(AdminAuthError::InvalidToken)
                        }
                    },
                }
            },
        },
    }
}

// ───────────────────────── reading a session back ─────────────────────────

proof fn lemma_split_without_sep(s: Seq<char>, c: char)
    requires
        !s.contains(c),
    ensures
        split_char(s, c) == seq![s],
    decreases s.len(),
{
    if s.len() == 0 {
        assert(split_char(s, c) =~= seq![s]);
    } else {
        let init = s.drop_last();
        assert forall|i: int| 0 <= i < init.len() implies init[i] != c by {
            assert(s[i] == init[i]);
        }
        lemma_split_without_sep(init, c);
        assert(s.last() == s[s.len() - 1]);
        assert(init.push(s.last()) =~= s);
        assert(split_char(s, c) =~= seq![s]);
    }
}

proof fn lemma_trim_unchanged(s: Seq<char>)
    requires
        forall|i: int| 0 <= i < s.len() ==> !is_white_space(#[trigger] s[i]),
    ensures
        trim_ws(s) == s,
{
    if s.len() > 0 {
        assert(!is_white_space(s[0]));
        assert(trim_start_ws(s) == s);
        assert(!is_white_space(s[s.len() - 1]));
        assert(trim_end_ws(s) == s);
    } else {
        assert(trim_start_ws(s) == s);
        assert(trim_end_ws(s) == s);
    }
}

proof fn lemma_before_char_prefix(p: Seq<char>, q: Seq<char>, c: char)
    requires
        !p.contains(c),
    ensures
        before_char(p + q, c) == p + before_char(q, c),
    decreases p.len(),
{
    if p.len() > 0 {
        let rest = p.drop_first();
        assert forall|i: int| 0 <= i < rest.len() implies rest[i] != c by {
            assert(p[i + 1] == rest[i]);
        }
        assert(p[0] != c);
        lemma_before_char_prefix(rest, q, c);
        assert((p + q).drop_first() =~= rest + q);
        assert(seq![p[0]] + (rest + before_char(q, c)) =~= p + before_char(q, c));
    } else {
        assert(p + q =~= q);
        assert(p + before_char(q, c) =~= before_char(q, c));
    }
}

/// A session token (no `;`, no white space) sent back in a `Cookie` header
/// as `bendy_fs_session=<token>` is the token the session check reads.
pub proof fn law_session_cookie_read_back(token: Seq<char>)
    requires
        forall|i: int| 0 <= i < token.len() ==> #[trigger] token[i] != ';' && !is_white_space(token[i]),
    ensures
        session_cookie_spec(Some(session_cookie_name() + "="@ + token)) == Some(token),
{
    reveal_strlit("bendy_fs_session");
    reveal_strlit("=");
    let name = session_cookie_name();
    let h = name + "="@ + token;
    assert forall|i: int| 0 <= i < h.len() implies h[i] != ';' && !is_white_space(#[trigger] h[i]) by {
        if i >= name.len() + 1 {
            assert(h[i] == token[i - name.len() - 1]);
        }
    }
    assert(!h.contains(';'));
    lemma_split_without_sep(h, ';');
    lemma_trim_unchanged(h);
    assert(!name.contains('='));
    assert(h =~= name + ("="@ + token));
    lemma_before_char_prefix(name, "="@ + token, '=');
    assert(before_char("="@ + token, '=') =~= Seq::<char>::empty());
    assert(before_char(h, '=') =~= name);
    assert(h.skip(name.len() as int + 1) =~= token);
    assert(split_pair(h) == Some((name, token)));
    lemma_trim_unchanged(name);
    lemma_trim_unchanged(token);
    assert(split_char(h, ';')[0] == h);
}

/// A session issued at `issued` to an admin lets the admin in exactly until
/// `SESSION_TTL_SECS` (a day) later.
pub proof fn law_session_lifetime(claims: SessionClaims, issued: u64, now: u64, admins: Seq<Seq<char>>)
    requires
        issued <= u64::MAX - SESSION_TTL_SECS,
        claims.exp == issued + SESSION_TTL_SECS,
        admins.contains(lowercase(claims.username@)),
    ensures
        (verify_session_spec(Some(claims), now, admins) is Ok) <==> now <= issued + 86400,
{
}

/// A session whose claims name an admin and have not expired lets the admin in.
pub proof fn law_live_admin_session_admitted(claims: SessionClaims, now: u64, admins: Seq<Seq<char>>)
    requires
        now <= claims.exp,
        admins.contains(lowercase(claims.username@)),
    ensures
        verify_session_spec(Some(claims), now, admins) == Ok::<Seq<char>, SessionError>(claims.username@),
{
}

} // verus!
