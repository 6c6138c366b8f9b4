//! The OAuth2 handshake coordinator: starting a login, consuming the
//! provider's callback, completing the login into a session, and logging
//! out.
//!
//! The provider round trips themselves — the browser redirect, the code
//! exchange, the user-info fetch — happen outside this library. What stands
//! here is everything that decides: which URL to send the browser to, how
//! the single-use handshake state is kept and consumed, what the user-info
//! answer means, and how a successful login turns into a session and a
//! cookie.

use vstd::prelude::*;
use vstd::string::StrSliceExecFns;
use crate::error::AppError;
use crate::identity::IdentityStore;
use crate::middleware::UserData;
use crate::oauth_state::OAuthStateStore;
use crate::session::SESSION_LIFETIME_SECONDS;
use crate::session::SessionRecord;
use crate::session::SessionStore;
use crate::session::created_session;
use crate::strutil::concat3;
use crate::strutil::contains_seq;
use crate::strutil::has_char;
use crate::strutil::starts_with_spec;
use crate::strutil::str_starts_with;

verus! {

/// What the query serializer makes of one value: its form-urlencoded text.
/// A function of the value alone, computed by the `url` crate beneath the
/// authorization wrapper, and pinned only by that wrapper's contract.
pub uninterp spec fn query_encoded_of(s: Seq<char>) -> Seq<char>;

/// The S256 challenge of a PKCE verifier: the base64url encoding, without
/// padding, of the SHA-256 digest of the verifier's bytes. A function of the
/// verifier alone, computed by oauth2, and pinned only by the authorization
/// wrapper's contract.
pub uninterp spec fn s256_challenge_of(verifier: Seq<char>) -> Seq<char>;

/// A URL as the `url` crate serializes it after parsing: scheme, host and
/// path in normal form, any query it already had, any fragment last. A
/// function of the text alone, and pinned only by the authorization
/// wrapper's contract.
pub uninterp spec fn serialized_url_of(u: Seq<char>) -> Seq<char>;

/// Whether the `url` crate parses this text as an absolute URL: a function
/// of the text alone, and pinned only by the authorization wrapper's
/// contract.
pub uninterp spec fn url_parse_ok_of(u: Seq<char>) -> bool;

/// Relies on `oauth2::basic::BasicClient` — `new`, `set_redirect_uri`,
/// `set_revocation_uri`, `authorize_url` with `CsrfToken::new_random`,
/// `PkceCodeChallenge::new_random_sha256` — and on `url`'s query
/// serialization beneath `AuthorizationRequest::url`: builds the configured
/// client and yields the authorization URL, the CSRF token it carries as its
/// `state` parameter, and the PKCE verifier whose challenge it carries; or
/// nothing, exactly when one of the two endpoint URLs, the revocation URL or
/// the redirect URL does not parse.
///
/// The authorization URL is the parsed endpoint's own serialization with
/// the query pairs appended in place — so, for an endpoint without a
/// fragment, the URL begins with that serialization, letter for letter.
/// The query pairs are appended in a fixed order — `response_type=code`,
/// `client_id`, `state`, `code_challenge`, `code_challenge_method=S256`,
/// `redirect_uri`, then `scope` when one was given — each preceded by `&`
/// (the first by `?`, when the endpoint carries no query of its own), with
/// each value form-urlencoded. The CSRF token is 16 random bytes
/// base64url-encoded without padding — 22 characters of the base64url
/// alphabet, which the serializer passes through unescaped, so the URL holds
/// `&state=` followed by the token, letter for letter; the challenge, 43
/// characters of the same alphabet, passes through the same way. The
/// verifier is 32 random bytes so encoded — 43 characters. Nothing is
/// assumed about which random values come back.
#[verifier::external_body]
fn begin_authorization(
    client_id: String,
    client_secret: String,
    auth_url: &str,
    token_url: &str,
    revocation_url: &str,
    redirect_url: String,
    scope: &str,
) -> (r: Option<(String, String, String)>)
    ensures
        (r is Some) == (url_parse_ok_of(auth_url@) && url_parse_ok_of(token_url@)
            && url_parse_ok_of(revocation_url@) && url_parse_ok_of(redirect_url@)),
        r matches Some(t) ==> {
            &&& t.1@.len() == 22
            &&& t.2@.len() == 43
            &&& !has_char(auth_url@, '#') ==> starts_with_spec(
                t.0@,
                serialized_url_of(auth_url@),
            )
            &&& !has_char(auth_url@, '?') && !has_char(auth_url@, '#') ==> contains_seq(
                t.0@,
                "?response_type=code&client_id="@ + query_encoded_of(client_id@),
            )
            &&& contains_seq(t.0@, "&state="@ + t.1@)
            &&& contains_seq(t.0@, "&code_challenge="@ + s256_challenge_of(t.2@))
            &&& contains_seq(t.0@, "&code_challenge_method=S256"@)
            &&& contains_seq(t.0@, "&redirect_uri="@ + query_encoded_of(redirect_url@))
            &&& scope@.len() > 0 ==> contains_seq(t.0@, "&scope="@ + query_encoded_of(scope@))
        },
{
    let client = oauth2::basic::BasicClient::new(
        oauth2::ClientId::new(client_id),
        Some(oauth2::ClientSecret::new(client_secret)),
        oauth2::AuthUrl::new(auth_url.to_owned()).ok()?,
        Some(oauth2::TokenUrl::new(token_url.to_owned()).ok()?),
    ).set_redirect_uri(oauth2::RedirectUrl::new(redirect_url).ok()?)
        .set_revocation_uri(oauth2::RevocationUrl::new(revocation_url.to_owned()).ok()?);
    let (challenge, verifier) = oauth2::PkceCodeChallenge::new_random_sha256();
    let (url, state) = client.authorize_url(oauth2::CsrfToken::new_random)
        .add_scope(oauth2::Scope::new(scope.to_owned()))
        .set_pkce_challenge(challenge)
        .url();
    Some((url.to_string(), state.secret().clone(), verifier.secret().clone()))
}

/// The callback URL the provider sends the browser back to: plain transport
/// for a local host, otherwise secure transport.
pub open spec fn callback_url_spec(host: Seq<char>) -> Seq<char> {
    if starts_with_spec(host, "localhost"@) || starts_with_spec(host, "127.0.0.1"@) {
        "http://"@ + host + "/oauth_return"@
    } else {
        "https://"@ + host + "/oauth_return"@
    }
}

/// Build the callback URL for the request's host.
pub fn callback_url_for_host(host: &str) -> (r: String)
    ensures
        r@ == callback_url_spec(host@),
{
    if str_starts_with(host, "localhost") || str_starts_with(host, "127.0.0.1") {
        concat3("http://", host, "/oauth_return")
    } else {
        concat3("https://", host, "/oauth_return")
    }
}

/// The return URL a login start will use: the caller's, or the app root.
pub open spec fn chosen_return_url(return_url: Option<String>) -> Seq<char> {
    match return_url {
        Some(u) => u@,
        None => "/"@,
    }
}

/// Start a login. An already-authenticated user is sent straight back to the
/// app root and no handshake state is written. Otherwise a fresh CSRF token
/// and PKCE pair are minted, the verifier and the return URL are stored
/// under the CSRF token, and the provider's authorization URL is handed back
/// for the redirect. The URL carries the stored CSRF token as its `state`
/// parameter, the client id, the S256 challenge of the stored verifier with
/// its method, the callback URL for this host, and the requested scope. The
/// start succeeds exactly when the provider's fixed endpoints and the
/// host-derived callback URL all parse; the one failure is that parse, a
/// configuration error.
pub fn login(
    user_data: Option<&UserData>,
    return_url: Option<String>,
    host: &str,
    client_id: String,
    client_secret: String,
    states: &mut OAuthStateStore,
) -> (r: Result<String, AppError>)
    requires
        old(states).wf(),
    ensures
        final(states).wf(),
        user_data is Some ==> (r matches Ok(url) && url@ == "/"@ && *final(states) == *old(
            states,
        )),
        user_data is None ==> (r is Ok <==> url_parse_ok_of(
            "https://accounts.google.com/o/oauth2/v2/auth"@,
        ) && url_parse_ok_of("https://www.googleapis.com/oauth2/v3/token"@) && url_parse_ok_of(
            "https://oauth2.googleapis.com/revoke"@,
        ) && url_parse_ok_of(callback_url_spec(host@))),
        user_data is None ==> match r {
            Ok(url) => exists|csrf: Seq<char>|
                #[trigger] final(states)@.contains_key(csrf) && {
                    let rec = final(states)@[csrf];
                    &&& csrf.len() == 22
                    &&& rec.pkce_verifier@.len() == 43
                    &&& rec.return_url@ == chosen_return_url(return_url)
                    &&& final(states)@ == old(states)@.insert(csrf, rec)
                    &&& starts_with_spec(
                        url@,
                        serialized_url_of("https://accounts.google.com/o/oauth2/v2/auth"@),
                    )
                    &&& contains_seq(
                        url@,
                        "?response_type=code&client_id="@ + query_encoded_of(client_id@),
                    )
                    &&& contains_seq(url@, "&state="@ + csrf)
                    &&& contains_seq(
                        url@,
                        "&code_challenge="@ + s256_challenge_of(rec.pkce_verifier@),
                    )
                    &&& contains_seq(url@, "&code_challenge_method=S256"@)
                    &&& contains_seq(
                        url@,
                        "&redirect_uri="@ + query_encoded_of(callback_url_spec(host@)),
                    )
                    &&& contains_seq(
                        url@,
                        "&scope="@ + query_encoded_of(
                            "https://www.googleapis.com/auth/userinfo.email"@,
                        ),
                    )
                },
            Err(e) => *final(states) == *old(states) && e.code == 500 && e.message@
                == "OAuth: invalid endpoint or redirect URL"@ && e.user_message@ == Seq::<
                char,
            >::empty(),
        },
{
    if user_data.is_some() {
        return Ok("/".to_owned());
    }
    let ret = match return_url {
        Some(u) => u,
        None => "/".to_owned(),
    };
    let redirect_url = callback_url_for_host(host);
    let (url, csrf_state, pkce_verifier) = match begin_authorization(
        client_id,
        client_secret,
        "https://accounts.google.com/o/oauth2/v2/auth",
        "https://www.googleapis.com/oauth2/v3/token",
        "https://oauth2.googleapis.com/revoke",
        redirect_url,
        "https://www.googleapis.com/auth/userinfo.email",
    ) {
        Some(t) => t,
        None => {
            return Err(AppError::new("OAuth: invalid endpoint or redirect URL".to_owned()));
        },
    };
    let ghost csrf = csrf_state@;
    let ghost verifier = pkce_verifier@;
    let ghost ret_v = ret@;
    states.insert(csrf_state, pkce_verifier, ret);
    proof {
        reveal_strlit("https://www.googleapis.com/auth/userinfo.email");
        reveal_strlit("https://accounts.google.com/o/oauth2/v2/auth");
        assert forall|i: int|
            0 <= i < "https://accounts.google.com/o/oauth2/v2/auth"@.len() implies #[trigger] "https://accounts.google.com/o/oauth2/v2/auth"@[i] != '#'
            && "https://accounts.google.com/o/oauth2/v2/auth"@[i] != '?' by {
        }
        assert(!has_char("https://accounts.google.com/o/oauth2/v2/auth"@, '#'));
        assert(!has_char("https://accounts.google.com/o/oauth2/v2/auth"@, '?'));
        assert(states@.contains_key(csrf));
        assert(states@[csrf].pkce_verifier@ == verifier);
        assert(states@[csrf].return_url@ == ret_v);
    }
    Ok(url)
}

/// What the provider's redirect handed over, once the CSRF state is
/// consumed: the authorization code, the PKCE verifier stored at login
/// start, and the return URL stored with it.
#[derive(Debug)]
pub struct CallbackData {
    pub code: String,
    pub pkce_verifier: String,
    pub return_url: String,
}

/// Take the provider's redirect parameters and consume the handshake state.
/// A missing `state` or `code` is a request error; a `state` no stored
/// record matches — never written, expired away, or already consumed — fails
/// as a replayed or forged flow. All three are client protocol errors and
/// carry a client status code, never a server one. On a match the record is
/// deleted in the same step it is read, so a second callback with the same
/// `state` fails.
pub fn callback_begin(
    state: Option<String>,
    code: Option<String>,
    states: &mut OAuthStateStore,
) -> (r: Result<CallbackData, AppError>)
    requires
        old(states).wf(),
    ensures
        final(states).wf(),
        match r {
            Ok(cd) => state matches Some(s) && code matches Some(c) && old(states)@.contains_key(
                s@,
            ) && cd.code@ == c@ && cd.pkce_verifier@ == old(states)@[s@].pkce_verifier@
                && cd.return_url@ == old(states)@[s@].return_url@ && final(states)@ == old(
                states,
            )@.remove(s@),
            Err(e) => *final(states) == *old(states) && e.code == 400 && (if state is None {
                e.message@ == "OAuth: without state"@
            } else if code is None {
                e.message@ == "OAuth: without code"@
            } else {
                state matches Some(s) && !old(states)@.contains_key(s@) && e.message@
                    == "OAuth: state not found"@
            }),
        },
{
    let s = match state {
        Some(s) => s,
        None => {
            return Err(AppError::new("OAuth: without state".to_owned()).with_code(400));
        },
    };
    let c = match code {
        Some(c) => c,
        None => {
            return Err(AppError::new("OAuth: without code".to_owned()).with_code(400));
        },
    };
    match states.consume(s.as_str()) {
        Some(rec) => Ok(
            CallbackData {
                code: c,
                pkce_verifier: rec.pkce_verifier,
                return_url: rec.return_url,
            },
        ),
        None => Err(AppError::new("OAuth: state not found".to_owned()).with_code(400)),
    }
}

/// What the JSON reading of a body yields, named: each is a function of the
/// body (and key) alone, computed by serde_json, and pinned only by the
/// wrappers below that apply it.
pub uninterp spec fn json_is_valid_of(body: Seq<char>) -> bool;

pub uninterp spec fn json_str_field_of(body: Seq<char>, key: Seq<char>) -> Option<Seq<char>>;

pub uninterp spec fn json_bool_field_of(body: Seq<char>, key: Seq<char>) -> Option<bool>;

/// The contents of an `Option<String>`, as an optional character sequence.
pub open spec fn view_opt_string(o: Option<String>) -> Option<Seq<char>> {
    match o {
        Some(s) => Some(s@),
        None => None,
    }
}

/// Relies on `serde_json::from_str`: whether the body is a valid JSON
/// document — a function of the body alone.
#[verifier::external_body]
fn json_is_valid(body: &str) -> (r: bool)
    ensures
        r == json_is_valid_of(body@),
{
    serde_json::from_str::<serde_json::Value>(body).is_ok()
}

/// Relies on `serde_json::from_str`, `Value::get` with a string index and
/// `Value::as_str`: the string stored under `key` in the body's JSON
/// document, or nothing when the body is not valid JSON, the key is absent,
/// or the value under it is not a string — a function of body and key alone.
#[verifier::external_body]
fn json_str_field(body: &str, key: &str) -> (r: Option<String>)
    ensures
        view_opt_string(r) == json_str_field_of(body@, key@),
{
    let v: serde_json::Value = serde_json::from_str(body).ok()?;
    v.get(key)?.as_str().map(str::to_owned)
}

/// Relies on `serde_json::from_str`, `Value::get` with a string index and
/// `Value::as_bool`: the boolean stored under `key` in the body's JSON
/// document, under the same failure rule as the string reader — a function
/// of body and key alone.
#[verifier::external_body]
fn json_bool_field(body: &str, key: &str) -> (r: Option<bool>)
    ensures
        r == json_bool_field_of(body@, key@),
{
    let v: serde_json::Value = serde_json::from_str(body).ok()?;
    v.get(key)?.as_bool()
}

/// The two pieces of the provider's user-info answer this system reads.
#[derive(Debug)]
pub struct UserInfo {
    pub email: String,
    pub verified_email: bool,
}

/// Read the provider's user-info answer. Each piece that is missing or of
/// the wrong kind yields its own diagnostic, naming what failed; the result
/// is pinned, piece by piece, to the named JSON reading of the body.
fn parse_userinfo(body: &str) -> (r: Result<UserInfo, AppError>)
    ensures
        match r {
            Ok(ui) => json_is_valid_of(body@) && json_str_field_of(body@, "email"@) == Some(
                ui.email@,
            ) && json_bool_field_of(body@, "verified_email"@) == Some(ui.verified_email),
            Err(e) => e.code == 500 && e.user_message@ == Seq::<char>::empty() && (
            if !json_is_valid_of(body@) {
                e.message@ == "OAuth: Serde failed to parse userinfo"@
            } else if json_str_field_of(body@, "email"@) is None {
                e.message@ == "OAuth: Serde failed to parse email address"@
            } else {
                json_bool_field_of(body@, "verified_email"@) is None && e.message@
                    == "OAuth: Serde failed to parse verified_email"@
            }),
        },
{
    if !json_is_valid(body) {
        return Err(AppError::new("OAuth: Serde failed to parse userinfo".to_owned()));
    }
    let email = match json_str_field(body, "email") {
        Some(email) => email,
        None => {
            return Err(AppError::new("OAuth: Serde failed to parse email address".to_owned()));
        },
    };
    let verified_email = match json_bool_field(body, "verified_email") {
        Some(verified_email) => verified_email,
        None => {
            return Err(AppError::new("OAuth: Serde failed to parse verified_email".to_owned()));
        },
    };
    Ok(UserInfo { email, verified_email })
}

/// Read the access token out of the provider's token-endpoint answer: the
/// `access_token` string of the body's JSON document, or the exchange
/// failure — exactly when the body holds no such string.
pub fn parse_token_response(body: &str) -> (r: Result<String, AppError>)
    ensures
        match r {
            Ok(token) => json_str_field_of(body@, "access_token"@) == Some(token@),
            Err(e) => json_str_field_of(body@, "access_token"@) is None && e.code == 500
                && e.message@ == "OAuth: exchange_code failure"@ && e.user_message@ == Seq::<
                char,
            >::empty(),
        },
{
    match json_str_field(body, "access_token") {
        Some(token) => Ok(token),
        None => Err(AppError::new("OAuth: exchange_code failure".to_owned())),
    }
}

/// What a completed login hands back: the `Set-Cookie` header value for the
/// new session, and where to redirect the browser.
#[derive(Debug)]
pub struct LoginSuccess {
    pub set_cookie: String,
    pub redirect_to: String,
}

/// The session cookie a completed login sets: the token under the cookie
/// name, bound to the whole site, unreadable from scripts, sent only over
/// secure transport and only to same-site requests.
pub open spec fn session_cookie_spec(token: Seq<char>) -> Seq<char> {
    "session_token="@ + token + "; path=/; httponly; secure; samesite=strict"@
}

/// Everything `complete_login` guarantees, as one relation between the
/// user-info reading, the stores before and after, and the result.
///
/// A failed reading passes through unchanged. An unverified email is the one
/// policy rejection: a distinct error carrying its own user-facing text, and
/// no store is touched. A verified one resolves the user — creating it only
/// if the email is unseen — and opens a session: the result then carries the
/// cookie holding the fresh token and the redirect to the stored return URL.
/// The one write failure is an identity counter that has run out, possible
/// only for an unseen email.
pub open spec fn spec_complete_login(
    info: Result<UserInfo, AppError>,
    return_url: Seq<char>,
    users0: Map<Seq<char>, i64>,
    exhausted0: bool,
    sessions0: Map<Seq<char>, SessionRecord>,
    now: i64,
    r: Result<LoginSuccess, AppError>,
    users1: Map<Seq<char>, i64>,
    sessions1: Map<Seq<char>, SessionRecord>,
) -> bool {
    match info {
        Err(e) => (r matches Err(e2) && e2.code == e.code && e2.message@ == e.message@
            && e2.user_message@ == e.user_message@) && users1 == users0 && sessions1 == sessions0,
        Ok(ui) => if !ui.verified_email {
            spec_login_rejected(
                r,
                "OAuth: email address is not verified"@,
                "Your email address is not verified. Please verify your email address with Google and try again."@,
                users0,
                users1,
                sessions0,
                sessions1,
            )
        } else if !users0.contains_key(ui.email@) && exhausted0 {
            spec_login_rejected(
                r,
                "IdentityStore: no user identifiers left"@,
                Seq::<char>::empty(),
                users0,
                users1,
                sessions0,
                sessions1,
            )
        } else {
            spec_login_granted(ui.email@, return_url, users0, users1, sessions0, sessions1, now, r)
        },
    }
}

/// The attempt was turned away with exactly this error, and neither store
/// changed.
pub open spec fn spec_login_rejected(
    r: Result<LoginSuccess, AppError>,
    message: Seq<char>,
    user_message: Seq<char>,
    users0: Map<Seq<char>, i64>,
    users1: Map<Seq<char>, i64>,
    sessions0: Map<Seq<char>, SessionRecord>,
    sessions1: Map<Seq<char>, SessionRecord>,
) -> bool {
    &&& r matches Err(e) && e.code == 500 && e.message@ == message && e.user_message@
        == user_message
    &&& users1 == users0
    &&& sessions1 == sessions0
}

/// A login was granted to `email`: the user resolved find-or-create style —
/// an existing email keeps its identifier and the user store is untouched,
/// an unseen one is inserted — one fresh session was opened for that
/// identifier, and the result carries the cookie holding the new token and
/// the redirect to `return_url`.
pub open spec fn spec_login_granted(
    email: Seq<char>,
    return_url: Seq<char>,
    users0: Map<Seq<char>, i64>,
    users1: Map<Seq<char>, i64>,
    sessions0: Map<Seq<char>, SessionRecord>,
    sessions1: Map<Seq<char>, SessionRecord>,
    now: i64,
    r: Result<LoginSuccess, AppError>,
) -> bool {
    exists|uid: i64, token: Seq<char>|
        {
            &&& if users0.contains_key(email) {
                uid == users0[email] && users1 == users0
            } else {
                users1 == users0.insert(email, uid)
            }
            &&& #[trigger] created_session(sessions0, sessions1, token, uid, now)
            &&& r matches Ok(ls) && ls.set_cookie@ == session_cookie_spec(token)
                && ls.redirect_to@ == return_url
        }
}

/// Complete a login from an already-read user-info answer: enforce the
/// verified-email policy, resolve the identity, open the session, and shape
/// the cookie and redirect.
pub fn complete_login(
    info: Result<UserInfo, AppError>,
    return_url: String,
    users: &mut IdentityStore,
    sessions: &mut SessionStore,
    now: i64,
) -> (r: Result<LoginSuccess, AppError>)
    requires
        old(users).wf(),
        old(sessions).wf(),
        now <= i64::MAX - SESSION_LIFETIME_SECONDS,
    ensures
        final(users).wf(),
        final(sessions).wf(),
        spec_complete_login(
            info,
            return_url@,
            old(users)@,
            old(users).ids_exhausted(),
            old(sessions)@,
            now,
            r,
            final(users)@,
            final(sessions)@,
        ),
{
    let ghost ginfo = info;
    let ui = match info {
        Ok(ui) => ui,
        Err(e) => {
            return Err(e);
        },
    };
    if !ui.verified_email {
        return Err(
            AppError::new("OAuth: email address is not verified".to_owned()).with_user_message(
                "Your email address is not verified. Please verify your email address with Google and try again.".to_owned(),
            ),
        );
    }
    let uid = match users.find_or_create(ui.email.as_str()) {
        Ok(uid) => uid,
        Err(e) => {
            return Err(e);
        },
    };
    let token = sessions.create(uid, now);
    let ghost token_v = token@;
    let set_cookie = concat3(
        "session_token=",
        token.as_str(),
        "; path=/; httponly; secure; samesite=strict",
    );
    let r = LoginSuccess { set_cookie, redirect_to: return_url };
    proof {
        assert(created_session(old(sessions)@, sessions@, token_v, uid, now));
        assert(r.set_cookie@ == session_cookie_spec(token_v));
        assert(spec_complete_login(
            ginfo,
            return_url@,
            old(users)@,
            old(users).ids_exhausted(),
            old(sessions)@,
            now,
            Ok(r),
            users@,
            sessions@,
        ));
    }
    Ok(r)
}

/// Everything `callback_finish` guarantees, over the named JSON reading of
/// the user-info body itself. Each way the body can fail to read — not JSON,
/// no usable `email`, no usable `verified_email` — yields its own diagnostic
/// and leaves the stores alone, as does the unverified-email policy
/// rejection with its user-facing text. A verified reading is granted a
/// login, except when an unseen email meets an exhausted identifier counter.
pub open spec fn spec_callback_finish(
    body: Seq<char>,
    return_url: Seq<char>,
    users0: Map<Seq<char>, i64>,
    exhausted0: bool,
    sessions0: Map<Seq<char>, SessionRecord>,
    now: i64,
    r: Result<LoginSuccess, AppError>,
    users1: Map<Seq<char>, i64>,
    sessions1: Map<Seq<char>, SessionRecord>,
) -> bool {
    if !json_is_valid_of(body) {
        spec_login_rejected(
            r,
            "OAuth: Serde failed to parse userinfo"@,
            Seq::<char>::empty(),
            users0,
            users1,
            sessions0,
            sessions1,
        )
    } else {
        match (json_str_field_of(body, "email"@), json_bool_field_of(body, "verified_email"@)) {
            (None, _) => spec_login_rejected(
                r,
                "OAuth: Serde failed to parse email address"@,
                Seq::<char>::empty(),
                users0,
                users1,
                sessions0,
                sessions1,
            ),
            (Some(_), None) => spec_login_rejected(
                r,
                "OAuth: Serde failed to parse verified_email"@,
                Seq::<char>::empty(),
                users0,
                users1,
                sessions0,
                sessions1,
            ),
            (Some(email), Some(verified)) => if !verified {
                spec_login_rejected(
                    r,
                    "OAuth: email address is not verified"@,
                    "Your email address is not verified. Please verify your email address with Google and try again."@,
                    users0,
                    users1,
                    sessions0,
                    sessions1,
                )
            } else if !users0.contains_key(email) && exhausted0 {
                spec_login_rejected(
                    r,
                    "IdentityStore: no user identifiers left"@,
                    Seq::<char>::empty(),
                    users0,
                    users1,
                    sessions0,
                    sessions1,
                )
            } else {
                spec_login_granted(email, return_url, users0, users1, sessions0, sessions1, now, r)
            },
        }
    }
}

/// Complete a login from the raw user-info body: read it, then decide as
/// `complete_login` does. The outcome is pinned to the named JSON reading of
/// the body, so what this function returns and stores is a function of its
/// arguments — nothing weaker than `complete_login` on the body's reading.
pub fn callback_finish(
    userinfo_body: &str,
    return_url: String,
    users: &mut IdentityStore,
    sessions: &mut SessionStore,
    now: i64,
) -> (r: Result<LoginSuccess, AppError>)
    requires
        old(users).wf(),
        old(sessions).wf(),
        now <= i64::MAX - SESSION_LIFETIME_SECONDS,
    ensures
        final(users).wf(),
        final(sessions).wf(),
        spec_callback_finish(
            userinfo_body@,
            return_url@,
            old(users)@,
            old(users).ids_exhausted(),
            old(sessions)@,
            now,
            r,
            final(users)@,
            final(sessions)@,
        ),
{
    let info = parse_userinfo(userinfo_body);
    let ghost ginfo = info;
    let r = complete_login(info, return_url, users, sessions, now);
    proof {
        assert(spec_complete_login(
            ginfo,
            return_url@,
            old(users)@,
            old(users).ids_exhausted(),
            old(sessions)@,
            now,
            r,
            users@,
            sessions@,
        ));
        assert(spec_callback_finish(
            userinfo_body@,
            return_url@,
            old(users)@,
            old(users).ids_exhausted(),
            old(sessions)@,
            now,
            r,
            users@,
            sessions@,
        ));
    }
    r
}

/// What a logout hands back: the header that expires the cookie at once,
/// and the redirect to the app root.
#[derive(Debug)]
pub struct LogoutResponse {
    pub set_cookie: String,
    pub redirect_to: String,
}

/// Log out: when a session cookie is present, delete the session its lookup
/// half points at — best effort, deleting what is absent changes nothing —
/// and in every case expire the cookie and send the browser home.
pub fn logout(session_cookie: Option<&str>, sessions: &mut SessionStore) -> (r: LogoutResponse)
    requires
        old(sessions).wf(),
    ensures
        final(sessions).wf(),
        match session_cookie {
            Some(t) => exists|p1: Seq<char>|
                #[trigger] crate::session::is_lookup_half(t@, p1) && final(sessions)@ == old(
                    sessions,
                )@.remove(p1),
            None => *final(sessions) == *old(sessions),
        },
        r.set_cookie@ == "session_token=deleted; path=/; expires=Thu, 01 Jan 1970 00:00:00 GMT"@,
        r.redirect_to@ == "/"@,
{
    if let Some(token) = session_cookie {
        sessions.delete(token);
    }
    LogoutResponse {
        set_cookie: "session_token=deleted; path=/; expires=Thu, 01 Jan 1970 00:00:00 GMT".to_owned(),
        redirect_to: "/".to_owned(),
    }
}

} // verus!
