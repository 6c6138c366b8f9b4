use rust_axum_with_google_oauth::strutil::concat2;
use rust_axum_with_google_oauth::strutil::concat3;
use rust_axum_with_google_oauth::strutil::find_char;
use rust_axum_with_google_oauth::strutil::join_token;
use rust_axum_with_google_oauth::strutil::split_token;
use rust_axum_with_google_oauth::strutil::str_eq;
use rust_axum_with_google_oauth::strutil::str_starts_with;

#[test]
fn starts_with_matches_prefixes_only() {
    assert!(str_starts_with("localhost:3011", "localhost"));
    assert!(str_starts_with("abc", ""));
    assert!(str_starts_with("abc", "abc"));
    assert!(!str_starts_with("abc", "abcd"));
    assert!(!str_starts_with("127.0.0.2", "127.0.0.1"));
    assert!(!str_starts_with("xlocalhost", "localhost"));
}

#[test]
fn str_eq_compares_characters() {
    assert!(str_eq("", ""));
    assert!(str_eq("a_b", "a_b"));
    assert!(!str_eq("a", "b"));
    assert!(!str_eq("a", "ab"));
}

#[test]
fn find_char_returns_the_first_occurrence() {
    assert_eq!(find_char("a_b_c", '_'), Some(1));
    assert_eq!(find_char("_", '_'), Some(0));
    assert_eq!(find_char("abc", '_'), None);
    assert_eq!(find_char("", '_'), None);
}

#[test]
fn split_token_accepts_exactly_two_nonempty_halves() {
    assert_eq!(
        split_token("left_right"),
        Some(("left".to_string(), "right".to_string()))
    );
    assert_eq!(split_token("noseparator"), None);
    assert_eq!(split_token("_right"), None);
    assert_eq!(split_token("left_"), None);
    assert_eq!(split_token("a_b_c"), None);
    assert_eq!(split_token(""), None);
    assert_eq!(split_token("_"), None);
}

#[test]
fn join_then_split_is_identity_on_clean_halves() {
    let t = join_token("abc", "def");
    assert_eq!(t, "abc_def");
    assert_eq!(split_token(&t), Some(("abc".to_string(), "def".to_string())));
}

#[test]
fn concatenation_builds_the_exact_string() {
    assert_eq!(concat2("/login?return_url=", "/profile"), "/login?return_url=/profile");
    assert_eq!(concat3("https://", "example.com", "/oauth_return"), "https://example.com/oauth_return");
}
