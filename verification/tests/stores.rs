use rust_axum_with_google_oauth::error::AppError;
use rust_axum_with_google_oauth::identity::IdentityStore;
use rust_axum_with_google_oauth::oauth_state::OAuthStateStore;
use rust_axum_with_google_oauth::session::SessionStore;
use rust_axum_with_google_oauth::session::SESSION_LIFETIME_SECONDS;

#[test]
fn find_or_create_is_idempotent() {
    let mut users = IdentityStore::new();
    let id1 = users.find_or_create("a@b.com").unwrap();
    let id2 = users.find_or_create("a@b.com").unwrap();
    assert_eq!(id1, id2);
    assert_eq!(users.len(), 1);

    let other = users.find_or_create("c@d.com").unwrap();
    assert_ne!(other, id1);
    assert_eq!(users.len(), 2);

    let id3 = users.find_or_create("a@b.com").unwrap();
    assert_eq!(id3, id1);
    assert_eq!(users.len(), 2);
}

#[test]
fn email_of_resolves_assigned_ids() {
    let mut users = IdentityStore::new();
    let id = users.find_or_create("a@b.com").unwrap();
    assert_eq!(users.email_of(id).map(|e| e.as_str()), Some("a@b.com"));
    assert!(users.email_of(id + 1).is_none());
}

#[test]
fn fresh_session_validates_until_deleted() {
    let mut sessions = SessionStore::new();
    let now: i64 = 1_000;
    let token = sessions.create(7, now);

    assert_eq!(sessions.validate(token.as_str(), now), Some(7));
    assert_eq!(
        sessions.validate(token.as_str(), now + SESSION_LIFETIME_SECONDS - 1),
        Some(7)
    );

    sessions.delete(token.as_str());
    assert_eq!(sessions.validate(token.as_str(), now), None);
    assert_eq!(sessions.len(), 0);
}

#[test]
fn expired_session_does_not_validate() {
    let mut sessions = SessionStore::new();
    let now: i64 = 1_000;
    let token = sessions.create(7, now);
    assert_eq!(
        sessions.validate(token.as_str(), now + SESSION_LIFETIME_SECONDS),
        None
    );
    assert_eq!(
        sessions.validate(token.as_str(), now + SESSION_LIFETIME_SECONDS + 1),
        None
    );
}

#[test]
fn session_token_is_two_uuid_halves() {
    let mut sessions = SessionStore::new();
    let token = sessions.create(1, 0);
    let parts: Vec<&str> = token.split('_').collect();
    assert_eq!(parts.len(), 2);
    assert_eq!(parts[0].len(), 36);
    assert_eq!(parts[1].len(), 36);
    assert!(parts
        .iter()
        .all(|p| p.chars().all(|c| c.is_ascii_hexdigit() || c == '-')));
}

#[test]
fn wrong_secret_half_is_rejected() {
    let mut sessions = SessionStore::new();
    let token = sessions.create(7, 0);

    // Flip the last character of the secret half to a different hex digit.
    let mut wrong = String::from(&token[..token.len() - 1]);
    let last = token.chars().last().unwrap();
    wrong.push(if last == '0' { '1' } else { '0' });
    assert_eq!(wrong.len(), token.len());
    assert_ne!(wrong, token);
    assert_eq!(sessions.validate(wrong.as_str(), 0), None);

    // Flip a character in the middle of the secret half too.
    let sep = token.find('_').unwrap();
    let mut mid = String::new();
    for (i, c) in token.chars().enumerate() {
        if i == sep + 3 {
            mid.push(if c == '0' { '1' } else { '0' });
        } else {
            mid.push(c);
        }
    }
    assert_ne!(mid, token);
    assert_eq!(sessions.validate(mid.as_str(), 0), None);

    // The real token still validates.
    assert_eq!(sessions.validate(token.as_str(), 0), Some(7));
}

#[test]
fn malformed_tokens_fail_closed() {
    let mut sessions = SessionStore::new();
    let token = sessions.create(7, 0);
    let parts: Vec<&str> = token.split('_').collect();

    assert_eq!(sessions.validate("", 0), None);
    assert_eq!(sessions.validate("no-separator", 0), None);
    assert_eq!(sessions.validate(parts[0], 0), None);
    assert_eq!(sessions.validate(&format!("{}_", parts[0]), 0), None);
    assert_eq!(sessions.validate(&format!("_{}", parts[1]), 0), None);
    // A third part makes the split invalid even when the first two match.
    assert_eq!(sessions.validate(&format!("{}_x", token), 0), None);
    // A secret half of the wrong length fails before any lookup.
    assert_eq!(
        sessions.validate(&format!("{}_{}", parts[0], &parts[1][..35]), 0),
        None
    );
}

#[test]
fn state_record_is_single_use() {
    let mut states = OAuthStateStore::new();
    states.insert(
        "csrf-1".to_string(),
        "verifier-1".to_string(),
        "/after".to_string(),
    );
    assert_eq!(states.len(), 1);

    let rec = states.consume("csrf-1").unwrap();
    assert_eq!(rec.pkce_verifier, "verifier-1");
    assert_eq!(rec.return_url, "/after");
    assert_eq!(states.len(), 0);

    assert!(states.consume("csrf-1").is_none());
}

#[test]
fn unknown_state_is_not_consumed() {
    let mut states = OAuthStateStore::new();
    states.insert("a".to_string(), "v".to_string(), "/".to_string());
    assert!(states.consume("b").is_none());
    assert_eq!(states.len(), 1);
}

#[test]
fn state_insert_overwrites_same_token() {
    let mut states = OAuthStateStore::new();
    states.insert("a".to_string(), "v1".to_string(), "/1".to_string());
    states.insert("a".to_string(), "v2".to_string(), "/2".to_string());
    assert_eq!(states.len(), 1);
    let rec = states.consume("a").unwrap();
    assert_eq!(rec.pkce_verifier, "v2");
    assert_eq!(rec.return_url, "/2");
}

#[test]
fn with_code_changes_only_the_status() {
    let e = AppError::new("diag".to_string())
        .with_user_message("visible".to_string())
        .with_code(400);
    assert_eq!(e.code, 400);
    assert_eq!(e.message, "diag");
    assert_eq!(e.user_message, "visible");
}

#[test]
fn error_body_shows_only_the_user_message() {
    let e = AppError::new("secret diagnostic detail".to_string())
        .with_user_message("Something visible".to_string());
    assert_eq!(e.code, 500);
    let body = e.body_html();
    assert!(body.contains("Something visible"));
    assert!(!body.contains("secret diagnostic detail"));
    assert!(body.contains("Sorry, but something went wrong."));
}
