use isucholar::auth::{user_info, IsAdmin, IsLoggedIn, SessionError};

#[test]
fn logged_in_requires_a_user_id() {
    let guard = IsLoggedIn;
    assert!(guard.allows(&Some("u123".to_string())));
    assert!(!guard.allows(&None));
}

#[test]
fn admin_requires_the_flag_set_true() {
    let guard = IsAdmin;
    assert!(guard.allows(&Some(true)));
    assert!(!guard.allows(&Some(false)));
    assert!(!guard.allows(&None));
}

#[test]
fn user_info_returns_the_session_values() {
    let r = user_info(
        Some("u123".to_string()),
        Some("alice".to_string()),
        Some(true),
    );
    assert_eq!(r, Ok(("u123".to_string(), "alice".to_string(), true)));
}

#[test]
fn user_info_reports_the_first_missing_value() {
    assert_eq!(
        user_info(None, Some("alice".to_string()), Some(true)),
        Err(SessionError::MissingUserId)
    );
    assert_eq!(
        user_info(Some("u123".to_string()), None, Some(true)),
        Err(SessionError::MissingUserName)
    );
    assert_eq!(
        user_info(Some("u123".to_string()), Some("alice".to_string()), None),
        Err(SessionError::MissingIsAdmin)
    );
}
