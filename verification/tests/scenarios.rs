use wordsmith_auth::dto::{CreateUserRequest, LoginRequest};
use wordsmith_auth::errors::{ApiError, IntoApiError, UserError};
use wordsmith_auth::guards::require_admin;
use wordsmith_auth::role::UserRole;
use wordsmith_auth::service::UserServiceImpl;
use wordsmith_auth::session::SessionState;
use wordsmith_auth::store::UserStore;

const NOW: u64 = 1_700_000_000_000;
const MINUTE: u64 = 60_000;

fn alice_request() -> CreateUserRequest {
    CreateUserRequest {
        username: "alice".to_string(),
        email: "alice@example.com".to_string(),
        password: "P@ssw0rd!".to_string(),
        display_name: None,
    }
}

#[test]
fn register_verify_login_whoami_logout_round_trip() {
    let mut service = UserServiceImpl::new(UserStore::new());

    // Register alice: subscriber, active, unverified.
    let alice = service.register(&alice_request(), NOW).unwrap();
    assert_eq!(alice.role, UserRole::Subscriber);
    assert!(alice.is_active);
    assert!(!alice.email_verified);

    // Login before verification fails with the credentials error (401).
    let login = LoginRequest {
        username_or_email: "alice".to_string(),
        password: "P@ssw0rd!".to_string(),
    };
    let denied = service.login(&login);
    assert!(matches!(denied, Err(UserError::InvalidCredentials)));

    // Mark verified through a token, then login succeeds.
    let token = service.set_verification_token(alice.id, NOW).unwrap();
    assert!(service.verify_email(&token, NOW + 1).unwrap());
    let summary = service.login(&login).unwrap();
    assert_eq!(summary.username, "alice");

    // Login sets the session: id rotated, all three claims written.
    let mut session = SessionState::new();
    let anonymous_generation = session.generation;
    session.login_identity(summary.id, summary.username.clone(), summary.role);
    assert!(session.generation > anonymous_generation);

    // Whoami resolves the identity.
    let me = session.resolve().unwrap();
    assert_eq!(me.username, "alice");
    assert_eq!(me.id, summary.id);

    // Logout clears the claims and rotates the id again; whoami is now 401.
    let logged_in_generation = session.generation;
    session.logout_identity();
    assert!(session.generation > logged_in_generation);
    let denied = session.resolve();
    match denied {
        Err(e @ ApiError::Unauthorized(_)) => {
            assert_eq!(wordsmith_auth::errors::api_error_envelope(&e, NOW).code, Some(401));
        }
        _ => panic!("expected Unauthorized after logout"),
    }
}

#[test]
fn partial_session_claims_are_unauthenticated() {
    let mut session = SessionState::new();
    assert!(session.resolve().is_err());

    // Two of three claims: still unauthenticated, same as none.
    session.user_id = Some(7);
    session.username = Some("alice".to_string());
    session.role = None;
    assert!(session.resolve().is_err());

    session.role = Some(UserRole::Subscriber);
    assert!(session.resolve().is_ok());
}

#[test]
fn admin_guard_scenario() {
    // A subscriber hitting the admin-guarded route: 403.
    let mut session = SessionState::new();
    session.login_identity(1, "subscriber_user".to_string(), UserRole::Subscriber);
    let user = session.resolve().unwrap();
    let denied = require_admin(&user).unwrap_err();
    assert_eq!(wordsmith_auth::errors::api_error_envelope(&denied, NOW).code, Some(403));

    // No session at all: 401.
    let empty = SessionState::new();
    let unauthenticated = empty.resolve().unwrap_err();
    assert_eq!(wordsmith_auth::errors::api_error_envelope(&unauthenticated, NOW).code, Some(401));

    // An admin passes.
    let mut admin_session = SessionState::new();
    admin_session.login_identity(2, "admin_user".to_string(), UserRole::Admin);
    let admin = admin_session.resolve().unwrap();
    assert!(require_admin(&admin).is_ok());
}

#[test]
fn login_failures_are_indistinguishable() {
    let mut service = UserServiceImpl::new(UserStore::new());

    // A verified, active account.
    let verified = service.register(&alice_request(), NOW).unwrap();
    let token = service.set_verification_token(verified.id, NOW).unwrap();
    service.verify_email(&token, NOW + 1).unwrap();

    // An unverified account.
    service
        .register(
            &CreateUserRequest {
                username: "pending".to_string(),
                email: "pending@example.com".to_string(),
                password: "P@ssw0rd!".to_string(),
                display_name: None,
            },
            NOW,
        )
        .unwrap();

    let attempts = [
        // Unknown identifier.
        LoginRequest {
            username_or_email: "nobody".to_string(),
            password: "P@ssw0rd!".to_string(),
        },
        // Known identifier, wrong password.
        LoginRequest {
            username_or_email: "alice".to_string(),
            password: "wrong-password".to_string(),
        },
        // Right password, unverified account.
        LoginRequest {
            username_or_email: "pending".to_string(),
            password: "P@ssw0rd!".to_string(),
        },
    ];
    for attempt in attempts {
        match service.login(&attempt) {
            Err(e) => {
                assert!(matches!(e, UserError::InvalidCredentials));
                assert_eq!(e.code(), Some(401));
                assert_eq!(e.message(), "Invalid credentials");
            }
            Ok(_) => panic!("login must fail for {:?}", attempt.username_or_email),
        }
    }

    // The correct login still works, by username or by email.
    assert!(service
        .login(&LoginRequest {
            username_or_email: "alice".to_string(),
            password: "P@ssw0rd!".to_string(),
        })
        .is_ok());
    assert!(service
        .login(&LoginRequest {
            username_or_email: "alice@example.com".to_string(),
            password: "P@ssw0rd!".to_string(),
        })
        .is_ok());
}

#[test]
fn inactive_account_cannot_login() {
    let mut service = UserServiceImpl::new(UserStore::new());
    let alice = service.register(&alice_request(), NOW).unwrap();
    let token = service.set_verification_token(alice.id, NOW).unwrap();
    service.verify_email(&token, NOW + 1).unwrap();

    // Deactivate the account (an administrative action outside this core).
    let idx = service.store.users.iter().position(|u| u.id == alice.id).unwrap();
    service.store.users[idx].is_active = false;

    let denied = service.login(&LoginRequest {
        username_or_email: "alice".to_string(),
        password: "P@ssw0rd!".to_string(),
    });
    assert!(matches!(denied, Err(UserError::InvalidCredentials)));
}

#[test]
fn resend_verification_sets_new_token_and_rate_limits() {
    let mut service = UserServiceImpl::new(UserStore::new());
    let alice = service.register(&alice_request(), NOW).unwrap();

    // First call succeeds and stores a pending token.
    assert!(service.resend_verification("alice@example.com", NOW).is_ok());
    let pending = service.store.find_by_id(alice.id).unwrap();
    assert!(pending.email_verification_token.is_some());
    assert!(pending.email_verification_expires_at.is_some());
    let first_token = pending.email_verification_token.clone().unwrap();

    // A second call within 60 seconds is rejected as rate-limited.
    let denied = service.resend_verification("alice@example.com", NOW + MINUTE - 1);
    assert!(matches!(denied, Err(UserError::Validation { .. })));

    // After the cooldown elapses a third call succeeds, overwriting the token.
    assert!(service.resend_verification("alice@example.com", NOW + MINUTE).is_ok());
    let refreshed = service.store.find_by_id(alice.id).unwrap();
    let second_token = refreshed.email_verification_token.clone().unwrap();
    assert_ne!(first_token, second_token);
    // The overwritten token is permanently invalid; the fresh one works.
    assert!(!service.verify_email(&first_token, NOW + MINUTE + 1).unwrap());
    assert!(service.verify_email(&second_token, NOW + MINUTE + 1).unwrap());
}

#[test]
fn resend_verification_never_discloses_existence() {
    let mut service = UserServiceImpl::new(UserStore::new());
    let alice = service.register(&alice_request(), NOW).unwrap();
    let token = service.set_verification_token(alice.id, NOW).unwrap();
    service.verify_email(&token, NOW + 1).unwrap();

    // Unknown address, already-verified address, and the rate limiter keyed
    // per address: all three outcomes are the same success.
    assert!(service.resend_verification("nobody@example.com", NOW).is_ok());
    assert!(service.resend_verification("alice@example.com", NOW).is_ok());
    // Case-insensitive keying: the same address upper-cased hits the same
    // cooldown slot.
    let denied = service.resend_verification("ALICE@example.com", NOW + 1);
    assert!(matches!(denied, Err(UserError::Validation { .. })));
}
