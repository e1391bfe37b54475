use anilist_oauth::functions::{get_state_token, is_valid_state_token};
use anilist_oauth::structs::{SessionJar, StateToken, StateTokenError};

fn jar(private: Option<&str>, pending: Option<&str>) -> SessionJar {
    SessionJar {
        private_state: private.map(|s| s.to_owned()),
        pending_state: pending.map(|s| s.to_owned()),
    }
}

#[test]
fn matching_private_cookie_is_valid() {
    assert!(is_valid_state_token(&jar(Some("abc"), None), "abc"));
}

#[test]
fn mismatched_private_cookie_is_invalid() {
    assert!(!is_valid_state_token(&jar(Some("abc"), None), "abd"));
}

#[test]
fn empty_jar_is_invalid() {
    assert!(!is_valid_state_token(&jar(None, None), "abc"));
}

#[test]
fn pending_cookie_is_a_fallback() {
    assert!(is_valid_state_token(&jar(None, Some("abc")), "abc"));
    assert!(!is_valid_state_token(&jar(None, Some("abc")), "abd"));
}

#[test]
fn private_cookie_wins_over_pending() {
    assert!(is_valid_state_token(&jar(Some("abc"), Some("other")), "abc"));
    assert!(!is_valid_state_token(&jar(Some("abc"), Some("other")), "other"));
}

#[test]
fn missing_query_parameter_is_rejected() {
    let r = StateToken::from_request(None, &jar(Some("abc"), None));
    assert!(matches!(r, Err(StateTokenError::Missing)));
}

#[test]
fn unreadable_query_parameter_is_rejected() {
    let r = StateToken::from_request(Some(Err(())), &jar(Some("abc"), None));
    assert!(matches!(r, Err(StateTokenError::Invalid)));
}

#[test]
fn mismatched_query_parameter_is_rejected() {
    let r = StateToken::from_request(Some(Ok("abd")), &jar(Some("abc"), None));
    assert!(matches!(r, Err(StateTokenError::Invalid)));
}

#[test]
fn matching_query_parameter_is_accepted() {
    let r = StateToken::from_request(Some(Ok("abc")), &jar(Some("abc"), None));
    match r {
        Ok(t) => assert_eq!(t.0, "abc"),
        Err(_) => panic!("a matching token must be accepted"),
    }
}

#[test]
fn state_tokens_have_32_url_safe_characters() {
    let token = get_state_token();
    assert_eq!(token.chars().count(), 32);
    for c in token.chars() {
        assert!(c.is_ascii_alphanumeric() || c == '_' || c == '-');
    }
}

#[test]
fn state_tokens_differ_between_calls() {
    assert_ne!(get_state_token(), get_state_token());
}
