use wordsmith_auth::entity::User;
use wordsmith_auth::errors::ApiError;
use wordsmith_auth::guards::{require_admin, require_roles};
use wordsmith_auth::role::UserRole;
use wordsmith_auth::session::CurrentUser;

fn sample_user(role: UserRole) -> User {
    User {
        id: 1,
        username: "testuser".to_string(),
        email: "test@example.com".to_string(),
        password_hash: "hash".to_string(),
        display_name: None,
        bio: None,
        avatar_url: None,
        role,
        is_active: true,
        email_verified: true,
        email_verification_token: None,
        email_verification_expires_at: None,
        password_reset_token: None,
        password_reset_expires_at: None,
        social_twitter: None,
        social_github: None,
        website_url: None,
        created_at: 0,
        updated_at: 0,
    }
}

fn user_with(role: UserRole) -> CurrentUser {
    CurrentUser { id: 42, username: "test".to_string(), role }
}

#[test]
fn test_user_role_from_str() {
    assert_eq!(UserRole::from_str("admin"), Some(UserRole::Admin));
    assert_eq!(UserRole::from_str("editor"), Some(UserRole::Editor));
    assert_eq!(UserRole::from_str("author"), Some(UserRole::Author));
    assert_eq!(UserRole::from_str("contributor"), Some(UserRole::Contributor));
    assert_eq!(UserRole::from_str("subscriber"), Some(UserRole::Subscriber));
    assert_eq!(UserRole::from_str("invalid"), None);
}

#[test]
fn role_round_trips_through_its_name() {
    for role in [
        UserRole::Admin,
        UserRole::Editor,
        UserRole::Author,
        UserRole::Contributor,
        UserRole::Subscriber,
    ] {
        assert_eq!(UserRole::from_str(role.as_str()), Some(role));
    }
    assert_eq!(UserRole::default(), UserRole::Subscriber);
}

#[test]
fn test_user_permissions() {
    let admin_user = sample_user(UserRole::Admin);
    assert!(admin_user.is_admin());
    assert!(admin_user.can_write());
    assert!(admin_user.can_moderate());

    let subscriber_user = User { role: UserRole::Subscriber, ..admin_user.clone() };
    assert!(!subscriber_user.is_admin());
    assert!(!subscriber_user.can_write());
    assert!(!subscriber_user.can_moderate());
}

#[test]
fn test_user_display_name() {
    let user_with_display_name = User {
        display_name: Some("Test User".to_string()),
        email_verified: false,
        ..sample_user(UserRole::Subscriber)
    };
    assert_eq!(user_with_display_name.display_name(), "Test User");

    let user_without_display_name = User { display_name: None, ..user_with_display_name };
    assert_eq!(user_without_display_name.display_name(), "testuser");
}

#[test]
fn require_admin_allows_admin() {
    let user = user_with(UserRole::Admin);
    assert!(require_admin(&user).is_ok());
}

#[test]
fn require_admin_rejects_non_admins() {
    for role in [
        UserRole::Editor,
        UserRole::Author,
        UserRole::Contributor,
        UserRole::Subscriber,
    ] {
        let user = user_with(role);
        let err = require_admin(&user).unwrap_err();
        match err {
            ApiError::Forbidden(_) => {}
            _ => panic!("expected Forbidden for role {:?}", role),
        }
    }
}

#[test]
fn require_roles_allows_allowed_role() {
    let user = user_with(UserRole::Editor);
    let allowed = [UserRole::Admin, UserRole::Editor];
    assert!(require_roles(&user, &allowed).is_ok());
}

#[test]
fn require_roles_rejects_disallowed_role() {
    let user = user_with(UserRole::Author);
    let allowed = [UserRole::Admin, UserRole::Editor];
    let err = require_roles(&user, &allowed).unwrap_err();
    assert!(matches!(err, ApiError::Forbidden(_)));
}
