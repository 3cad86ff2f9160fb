use media_library::auth::{
    authenticate, bearer_token, check_admin, expiry_from, is_expired, issue_token, login,
    login_at, respond_to_signing, subject_of, validate_token, validate_token_at,
};
use media_library::config::AppState;
use media_library::context::RequestContext;
use media_library::error::{AppError, ErrorKind};
use media_library::models::{Claims, LoginRequest, User};
use media_library::store::Store;

fn auth_state() -> AppState {
    let users = vec![
        User {
            id: "a-1".to_string(),
            username: "alice".to_string(),
            password: "wonderland".to_string(),
            is_admin: true,
        },
        User {
            id: "b-2".to_string(),
            username: "bob".to_string(),
            password: "builder".to_string(),
            is_admin: false,
        },
    ];
    AppState {
        store: Store::load(users, vec![], vec![], vec![]).unwrap(),
        secret_key: "top secret".to_string(),
    }
}

fn credentials(username: &str, password: &str) -> LoginRequest {
    LoginRequest { username: username.to_string(), password: password.to_string() }
}

#[test]
fn bearer_token_strips_the_prefix() {
    assert_eq!(bearer_token(Some("Bearer abc.def")).unwrap(), "abc.def");
    assert_eq!(bearer_token(Some("Bearer ")).unwrap(), "");
}

#[test]
fn bearer_token_requires_the_bearer_scheme() {
    for header in [None, Some(""), Some("abc"), Some("Basic abc"), Some("bearer abc"), Some("Bearer")] {
        let failure = bearer_token(header).unwrap_err();
        assert_eq!(failure.kind, ErrorKind::Unauthenticated);
        assert_eq!(failure.message, "Authentication required");
    }
}

#[test]
fn issued_token_resolves_to_its_subject() {
    let token = issue_token("b-2", 2_000, "top secret").unwrap().token;
    assert_ne!(token, "b-2");
    assert_eq!(token.split('.').count(), 3);
    assert_eq!(validate_token_at(&token, "top secret", 1_000), Some("b-2".to_string()));
}

#[test]
fn token_signed_with_another_secret_is_rejected() {
    let token = issue_token("b-2", 2_000, "another secret").unwrap().token;
    assert_eq!(validate_token_at(&token, "top secret", 1_000), None);
}

#[test]
fn tampered_token_is_rejected() {
    let token = issue_token("b-2", 2_000, "top secret").unwrap().token;
    let other = issue_token("a-1", 2_000, "top secret").unwrap().token;
    let signature = token.rsplit('.').next().unwrap();
    let mut parts = other.split('.');
    let forged = format!("{}.{}.{}", parts.next().unwrap(), parts.next().unwrap(), signature);
    assert_eq!(validate_token_at(&forged, "top secret", 1_000), None);
}

#[test]
fn malformed_token_is_rejected() {
    for token in ["", "abc", "a.b", "a.b.c", "a.b.c.d"] {
        assert_eq!(validate_token_at(token, "top secret", 1_000), None);
    }
}

#[test]
fn token_expires_once_the_clock_passes_its_expiry() {
    let token = issue_token("b-2", 2_000, "top secret").unwrap().token;
    assert!(validate_token_at(&token, "top secret", 1_999).is_some());
    assert!(validate_token_at(&token, "top secret", 2_000).is_some());
    assert!(validate_token_at(&token, "top secret", 2_001).is_none());
    assert!(validate_token_at(&token, "top secret", 2_060).is_none());
    assert!(validate_token_at(&token, "top secret", i64::MAX).is_none());
    assert!(validate_token_at(&token, "top secret", i64::MIN).is_some());
}

#[test]
fn expiry_is_judged_to_the_second() {
    assert!(!is_expired(100, 99));
    assert!(!is_expired(100, 100));
    assert!(is_expired(100, 101));
    assert!(is_expired(100, 160));
    assert!(!is_expired(0, 0));
    assert!(is_expired(0, 1));
    assert!(!is_expired(usize::MAX, i64::MAX));
    assert!(!is_expired(0, -1));
}

#[test]
fn expired_credential_is_refused_whatever_it_carries() {
    for subject in ["a-1", "b-2", "nobody", "", "'; DROP TABLE users; --"] {
        let token = issue_token(subject, 500, "top secret").unwrap().token;
        assert_eq!(validate_token_at(&token, "top secret", 500), Some(subject.to_string()));
        assert_eq!(validate_token_at(&token, "top secret", 501), None);
        let header = format!("Bearer {}", token);
        let failure = authenticate(Some(&header), "top secret", 501).unwrap_err();
        assert_eq!(failure.kind, ErrorKind::Unauthenticated);
        assert_eq!(failure.message, "Invalid token");
    }
}

#[test]
fn subject_of_decides_on_decoded_claims() {
    let claims = || Some(Claims { sub: "b-2".to_string(), exp: 500 });
    assert_eq!(subject_of(claims(), 499), Some("b-2".to_string()));
    assert_eq!(subject_of(claims(), 500), Some("b-2".to_string()));
    assert_eq!(subject_of(claims(), 501), None);
    assert_eq!(subject_of(None, 0), None);
}

#[test]
fn validate_token_judges_by_the_clock() {
    let now = RequestContext::capture().now;
    let fresh = issue_token("b-2", (now + 3_600) as usize, "top secret").unwrap().token;
    let stale = issue_token("b-2", 1, "top secret").unwrap().token;
    assert_eq!(validate_token(&fresh, "top secret"), Some("b-2".to_string()));
    assert_eq!(validate_token(&stale, "top secret"), None);
    assert_eq!(validate_token(&fresh, "wrong"), None);
}

#[test]
fn authenticate_resolves_the_caller() {
    let token = issue_token("a-1", 5_000, "top secret").unwrap().token;
    let header = format!("Bearer {}", token);
    assert_eq!(authenticate(Some(&header), "top secret", 4_000).unwrap(), "a-1");
}

#[test]
fn authenticate_reports_missing_and_invalid_credentials() {
    let token = issue_token("a-1", 5_000, "top secret").unwrap().token;
    let header = format!("Bearer {}", token);
    let missing = authenticate(None, "top secret", 4_000).unwrap_err();
    assert_eq!(missing.kind, ErrorKind::Unauthenticated);
    assert_eq!(missing.message, "Authentication required");
    let not_bearer = authenticate(Some(&token), "top secret", 4_000).unwrap_err();
    assert_eq!(not_bearer.message, "Authentication required");
    let expired = authenticate(Some(&header), "top secret", 5_001).unwrap_err();
    assert_eq!(expired.kind, ErrorKind::Unauthenticated);
    assert_eq!(expired.message, "Invalid token");
    let forged = authenticate(Some(&header), "other secret", 4_000).unwrap_err();
    assert_eq!(forged.kind, ErrorKind::Unauthenticated);
    assert_eq!(forged.message, "Invalid token");
    let garbage = authenticate(Some("Bearer garbage"), "top secret", 4_000).unwrap_err();
    assert_eq!(garbage.message, "Invalid token");
}

#[test]
fn expiry_lies_one_day_after_issue() {
    assert_eq!(expiry_from(0), Some(86_400));
    assert_eq!(expiry_from(1_700_000_000), Some(1_700_086_400));
    assert_eq!(expiry_from(-1), None);
    assert_eq!(expiry_from(i64::MAX), None);
    assert_eq!(expiry_from(i64::MAX - 86_399), None);
}

#[test]
fn login_issues_a_credential_for_one_day() {
    let state = auth_state();
    let token = login_at(&credentials("bob", "builder"), &state, 1_000_000).unwrap().token;
    assert_eq!(validate_token_at(&token, "top secret", 1_000_000), Some("b-2".to_string()));
    assert_eq!(validate_token_at(&token, "top secret", 1_086_400), Some("b-2".to_string()));
    assert_eq!(validate_token_at(&token, "top secret", 1_086_401), None);
    let same = issue_token("b-2", 1_086_400, "top secret").unwrap().token;
    assert_eq!(token, same);
}

#[test]
fn login_rejects_wrong_name_or_secret() {
    let state = auth_state();
    for (name, secret) in [("bob", "wonderland"), ("carol", "builder"), ("", ""), ("bob", "")] {
        let failure = login_at(&credentials(name, secret), &state, 1_000).unwrap_err();
        assert_eq!(failure.kind, ErrorKind::Unauthenticated);
        assert_eq!(failure.message, "Invalid credentials");
    }
}

#[test]
fn login_needs_a_clock_in_range() {
    let state = auth_state();
    for now in [-1, i64::MAX, i64::MIN] {
        let failure = login_at(&credentials("bob", "builder"), &state, now).unwrap_err();
        assert_eq!(failure.kind, ErrorKind::Internal);
        assert_eq!(failure.message, "Clock out of range");
    }
}

#[test]
fn login_by_the_clock_is_valid_now() {
    let state = auth_state();
    let token = login(&credentials("alice", "wonderland"), &state).unwrap().token;
    assert_eq!(validate_token(&token, "top secret"), Some("a-1".to_string()));
    let failure = login(&credentials("alice", "builder"), &state).unwrap_err();
    assert_eq!(failure.message, "Invalid credentials");
}

#[test]
fn check_admin_reads_the_flag_of_the_account() {
    let state = auth_state();
    assert_eq!(check_admin("a-1", &state.store).unwrap(), true);
    assert_eq!(check_admin("b-2", &state.store).unwrap(), false);
}

#[test]
fn check_admin_fails_for_an_unknown_subject() {
    let state = auth_state();
    let failure = check_admin("nobody", &state.store).unwrap_err();
    assert_eq!(failure.kind, ErrorKind::Internal);
    assert_eq!(failure.message, "Account not found");
}

#[test]
fn request_context_reads_clock_and_draws_identifiers() {
    let context = RequestContext::capture();
    assert!(context.now > 1_600_000_000);
    assert!((context.created_at / 1_000_000 - context.now).abs() <= 5);
    assert_eq!(context.new_id.len(), 36);
    assert_eq!(context.spare_id.len(), 36);
    assert_ne!(context.new_id, context.spare_id);
    assert_eq!(context.new_id.matches('-').count(), 4);
    let again = RequestContext::capture();
    assert_ne!(context.new_id, again.new_id);
    assert!(again.created_at >= context.created_at);
}

#[test]
fn signing_failure_is_internal_and_keeps_its_cause() {
    let failure = respond_to_signing(Err("key rejected".to_string())).unwrap_err();
    assert_eq!(failure.kind, ErrorKind::Internal);
    assert_eq!(failure.message, "Token could not be issued");
    assert_eq!(failure.cause, Some("key rejected".to_string()));
    assert_eq!(failure.text(), "Token could not be issued");
    let token = respond_to_signing(Ok("a.b.c".to_string())).unwrap().token;
    assert_eq!(token, "a.b.c");
}

#[test]
fn failures_are_built_with_or_without_a_cause() {
    let plain = AppError::new(ErrorKind::NotFound, "gone");
    assert_eq!(plain.kind, ErrorKind::NotFound);
    assert_eq!(plain.message, "gone");
    assert_eq!(plain.cause, None);
    let caused = AppError::caused_by(ErrorKind::Internal, "Storage failure", "disk full".to_string());
    assert_eq!(caused.message, "Storage failure");
    assert_eq!(caused.cause, Some("disk full".to_string()));
    assert_eq!(caused.status_code(), 400);
}
