use rust_axum_with_google_oauth::identity::IdentityStore;
use rust_axum_with_google_oauth::middleware::check_auth;
use rust_axum_with_google_oauth::middleware::inject_user_data;
use rust_axum_with_google_oauth::middleware::inject_user_data_now;
use rust_axum_with_google_oauth::middleware::AuthDecision;
use rust_axum_with_google_oauth::middleware::UserData;
use rust_axum_with_google_oauth::oauth::callback_begin;
use rust_axum_with_google_oauth::oauth::callback_finish;
use rust_axum_with_google_oauth::oauth::callback_url_for_host;
use rust_axum_with_google_oauth::oauth::complete_login;
use rust_axum_with_google_oauth::oauth::login;
use rust_axum_with_google_oauth::oauth::logout;
use rust_axum_with_google_oauth::oauth::parse_token_response;
use rust_axum_with_google_oauth::oauth::UserInfo;
use rust_axum_with_google_oauth::oauth_state::OAuthStateStore;
use rust_axum_with_google_oauth::session::SessionStore;

const VERIFIED_BODY: &str = "{\"email\":\"a@b.com\",\"verified_email\":true}";
const UNVERIFIED_BODY: &str = "{\"email\":\"a@b.com\",\"verified_email\":false}";

fn state_param_of(url: &str) -> String {
    let start = url.find("state=").expect("no state parameter") + "state=".len();
    let rest = &url[start..];
    match rest.find('&') {
        Some(end) => rest[..end].to_string(),
        None => rest.to_string(),
    }
}

fn cookie_token_of(set_cookie: &str) -> String {
    assert!(set_cookie.starts_with("session_token="));
    let rest = &set_cookie["session_token=".len()..];
    match rest.find(';') {
        Some(end) => rest[..end].to_string(),
        None => rest.to_string(),
    }
}

#[test]
fn login_redirects_an_authenticated_user_home() {
    let mut states = OAuthStateStore::new();
    let ud = UserData {
        user_id: 1,
        user_email: "a@b.com".to_string(),
    };
    let r = login(
        Some(&ud),
        Some("/profile".to_string()),
        "localhost:3011",
        "client-id".to_string(),
        "client-secret".to_string(),
        &mut states,
    )
    .unwrap();
    assert_eq!(r, "/");
    assert_eq!(states.len(), 0);
}

#[test]
fn login_builds_a_provider_url_with_a_state_parameter() {
    let mut states = OAuthStateStore::new();
    let url = login(
        None,
        Some("/profile".to_string()),
        "localhost:3011",
        "client-id".to_string(),
        "client-secret".to_string(),
        &mut states,
    )
    .unwrap();
    assert!(url.starts_with("https://accounts.google.com/o/oauth2/v2/auth?"));
    assert!(url.contains("?response_type=code&client_id=client-id"));
    assert!(url.contains("&state="));
    assert!(url.contains("&code_challenge="));
    assert!(url.contains("&code_challenge_method=S256"));
    assert!(url.contains("&redirect_uri=http%3A%2F%2Flocalhost%3A3011%2Foauth_return"));
    assert!(url.contains("&scope=https%3A%2F%2Fwww.googleapis.com%2Fauth%2Fuserinfo.email"));
    let state = state_param_of(&url);
    assert_eq!(state.len(), 22);
    assert_eq!(states.len(), 1);
}

#[test]
fn full_flow_with_verified_email_sets_a_split_cookie() {
    let mut states = OAuthStateStore::new();
    let mut users = IdentityStore::new();
    let mut sessions = SessionStore::new();

    let url = login(
        None,
        Some("/profile".to_string()),
        "example.com",
        "client-id".to_string(),
        "client-secret".to_string(),
        &mut states,
    )
    .unwrap();
    let state = state_param_of(&url);

    let cd = callback_begin(Some(state), Some("anycode".to_string()), &mut states).unwrap();
    assert_eq!(cd.code, "anycode");
    assert_eq!(cd.return_url, "/profile");
    assert_eq!(cd.pkce_verifier.len(), 43);
    assert_eq!(states.len(), 0);

    // A stubbed provider answered the code exchange and the user-info fetch.
    let now: i64 = 1_700_000_000;
    let ls = callback_finish(
        VERIFIED_BODY,
        cd.return_url,
        &mut users,
        &mut sessions,
        now,
    )
    .unwrap();
    assert_eq!(ls.redirect_to, "/profile");
    assert!(ls.set_cookie.contains("; path=/; httponly; secure; samesite=strict"));

    let token = cookie_token_of(&ls.set_cookie);
    let halves: Vec<&str> = token.split('_').collect();
    assert_eq!(halves.len(), 2);
    assert!(!halves[0].is_empty());
    assert!(!halves[1].is_empty());

    assert_eq!(users.len(), 1);
    assert_eq!(sessions.len(), 1);

    let ud = inject_user_data(Some(token.as_str()), &sessions, &users, now).unwrap();
    assert_eq!(ud.user_email, "a@b.com");
    assert_eq!(users.email_of(ud.user_id).map(|e| e.as_str()), Some("a@b.com"));
}

#[test]
fn full_flow_with_unverified_email_creates_nothing() {
    let mut states = OAuthStateStore::new();
    let mut users = IdentityStore::new();
    let mut sessions = SessionStore::new();

    let url = login(
        None,
        None,
        "example.com",
        "client-id".to_string(),
        "client-secret".to_string(),
        &mut states,
    )
    .unwrap();
    let state = state_param_of(&url);
    let cd = callback_begin(Some(state), Some("anycode".to_string()), &mut states).unwrap();
    assert_eq!(cd.return_url, "/");

    let err = callback_finish(UNVERIFIED_BODY, cd.return_url, &mut users, &mut sessions, 0)
        .unwrap_err();
    assert_eq!(err.message, "OAuth: email address is not verified");
    assert_eq!(
        err.user_message,
        "Your email address is not verified. Please verify your email address with Google and try again."
    );
    assert_eq!(users.len(), 0);
    assert_eq!(sessions.len(), 0);
}

#[test]
fn callback_requires_state_and_code() {
    let mut states = OAuthStateStore::new();
    let err = callback_begin(None, Some("c".to_string()), &mut states).unwrap_err();
    assert_eq!(err.message, "OAuth: without state");
    assert_eq!(err.code, 400);

    let err = callback_begin(Some("s".to_string()), None, &mut states).unwrap_err();
    assert_eq!(err.message, "OAuth: without code");
    assert_eq!(err.code, 400);

    let err = callback_begin(Some("s".to_string()), Some("c".to_string()), &mut states)
        .unwrap_err();
    assert_eq!(err.message, "OAuth: state not found");
    assert_eq!(err.code, 400);
}

#[test]
fn a_second_callback_with_the_same_state_fails() {
    let mut states = OAuthStateStore::new();
    states.insert("s1".to_string(), "v".to_string(), "/".to_string());
    assert!(callback_begin(Some("s1".to_string()), Some("c".to_string()), &mut states).is_ok());
    let err = callback_begin(Some("s1".to_string()), Some("c".to_string()), &mut states)
        .unwrap_err();
    assert_eq!(err.message, "OAuth: state not found");
    assert_eq!(err.code, 400);
}

#[test]
fn malformed_userinfo_bodies_name_what_failed() {
    let mut users = IdentityStore::new();
    let mut sessions = SessionStore::new();

    let err = callback_finish("not json", "/".to_string(), &mut users, &mut sessions, 0)
        .unwrap_err();
    assert_eq!(err.message, "OAuth: Serde failed to parse userinfo");

    let err = callback_finish(
        "{\"verified_email\":true}",
        "/".to_string(),
        &mut users,
        &mut sessions,
        0,
    )
    .unwrap_err();
    assert_eq!(err.message, "OAuth: Serde failed to parse email address");

    let err = callback_finish(
        "{\"email\":\"a@b.com\",\"verified_email\":\"yes\"}",
        "/".to_string(),
        &mut users,
        &mut sessions,
        0,
    )
    .unwrap_err();
    assert_eq!(err.message, "OAuth: Serde failed to parse verified_email");

    assert_eq!(users.len(), 0);
    assert_eq!(sessions.len(), 0);
}

#[test]
fn complete_login_reuses_an_existing_user() {
    let mut users = IdentityStore::new();
    let mut sessions = SessionStore::new();
    let existing = users.find_or_create("a@b.com").unwrap();

    let info = Ok(UserInfo {
        email: "a@b.com".to_string(),
        verified_email: true,
    });
    let ls = complete_login(info, "/".to_string(), &mut users, &mut sessions, 0).unwrap();
    assert_eq!(users.len(), 1);
    assert_eq!(sessions.len(), 1);

    let token = cookie_token_of(&ls.set_cookie);
    assert_eq!(sessions.validate(token.as_str(), 0), Some(existing));
}

#[test]
fn protected_route_flow_redirects_then_serves() {
    // No cookie: injection attaches "no identity", and the protected route
    // answers with a redirect that preserves the requested URL.
    let users = IdentityStore::new();
    let sessions = SessionStore::new();
    let anonymous = inject_user_data(None, &sessions, &users, 0);
    assert!(anonymous.is_none());
    match check_auth(&Some(anonymous), "/profile") {
        AuthDecision::RedirectToLogin(url) => assert_eq!(url, "/login?return_url=/profile"),
        _ => panic!("expected a redirect to login"),
    }

    // Complete the login the redirect asks for.
    let mut states = OAuthStateStore::new();
    let mut users = IdentityStore::new();
    let mut sessions = SessionStore::new();
    let url = login(
        None,
        Some("/profile".to_string()),
        "example.com",
        "id".to_string(),
        "secret".to_string(),
        &mut states,
    )
    .unwrap();
    let state = state_param_of(&url);
    let cd = callback_begin(Some(state), Some("code".to_string()), &mut states).unwrap();
    let ls = callback_finish(VERIFIED_BODY, cd.return_url, &mut users, &mut sessions, 0).unwrap();
    assert_eq!(ls.redirect_to, "/profile");

    // Re-request /profile with the issued cookie: identity is injected and
    // the request proceeds.
    let token = cookie_token_of(&ls.set_cookie);
    let identity = inject_user_data(Some(token.as_str()), &sessions, &users, 0);
    assert!(identity.is_some());
    match check_auth(&Some(identity), "/profile") {
        AuthDecision::Proceed => {}
        _ => panic!("expected the request to proceed"),
    }
}

#[test]
fn missing_context_entry_is_a_server_fault_not_anonymous() {
    match check_auth(&None, "/profile") {
        AuthDecision::ServerFault(e) => {
            assert_eq!(e.code, 500);
            assert_eq!(e.message, "check_auth: extensions have no UserData");
        }
        _ => panic!("expected a server fault"),
    }
    match check_auth(&Some(None), "/profile") {
        AuthDecision::RedirectToLogin(_) => {}
        _ => panic!("expected a redirect, not a fault"),
    }
}

#[test]
fn inject_at_the_current_time_accepts_a_live_session() {
    let mut users = IdentityStore::new();
    let mut sessions = SessionStore::new();
    let uid = users.find_or_create("a@b.com").unwrap();

    let now_secs = std::time::SystemTime::now()
        .duration_since(std::time::UNIX_EPOCH)
        .unwrap()
        .as_secs() as i64;
    let token = sessions.create(uid, now_secs);

    let (at, ud) = inject_user_data_now(Some(token.as_str()), &sessions, &users);
    assert!(at >= now_secs - 60);
    let ud = ud.unwrap();
    assert_eq!(ud.user_id, uid);
    assert_eq!(ud.user_email, "a@b.com");

    assert!(inject_user_data_now(None, &sessions, &users).1.is_none());
    assert!(inject_user_data_now(Some("garbage"), &sessions, &users).1.is_none());
}

#[test]
fn logout_clears_the_cookie_and_deletes_the_session() {
    let mut sessions = SessionStore::new();
    let token = sessions.create(9, 0);
    assert_eq!(sessions.len(), 1);

    let r = logout(Some(token.as_str()), &mut sessions);
    assert_eq!(sessions.len(), 0);
    assert_eq!(
        r.set_cookie,
        "session_token=deleted; path=/; expires=Thu, 01 Jan 1970 00:00:00 GMT"
    );
    assert_eq!(r.redirect_to, "/");

    // Two logouts racing on one session both land on "no session exists".
    let r = logout(Some(token.as_str()), &mut sessions);
    assert_eq!(sessions.len(), 0);
    assert_eq!(r.redirect_to, "/");

    let r = logout(None, &mut sessions);
    assert_eq!(r.redirect_to, "/");
}

#[test]
fn token_response_yields_the_access_token_or_the_exchange_failure() {
    let token =
        parse_token_response("{\"access_token\":\"tok-1\",\"token_type\":\"Bearer\"}")
            .unwrap();
    assert_eq!(token, "tok-1");

    let err = parse_token_response("{\"token_type\":\"Bearer\"}").unwrap_err();
    assert_eq!(err.message, "OAuth: exchange_code failure");
    assert_eq!(err.code, 500);

    let err = parse_token_response("not json").unwrap_err();
    assert_eq!(err.message, "OAuth: exchange_code failure");

    let err = parse_token_response("{\"access_token\":17}").unwrap_err();
    assert_eq!(err.message, "OAuth: exchange_code failure");
}

#[test]
fn callback_url_picks_plain_transport_only_for_local_hosts() {
    assert_eq!(
        callback_url_for_host("localhost:3011"),
        "http://localhost:3011/oauth_return"
    );
    assert_eq!(
        callback_url_for_host("127.0.0.1:8080"),
        "http://127.0.0.1:8080/oauth_return"
    );
    assert_eq!(
        callback_url_for_host("example.com"),
        "https://example.com/oauth_return"
    );
}
