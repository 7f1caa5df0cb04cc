use wordsmith_auth::dto::{ChangePasswordRequest, CreateUserRequest, LoginRequest, UpdateUserRequest};
use wordsmith_auth::errors::UserError;
use wordsmith_auth::validate::{
    validate_change_password, validate_create_user, validate_login, validate_update_user,
};

fn create_valid_user_request() -> CreateUserRequest {
    CreateUserRequest {
        username: "testuser".to_string(),
        email: "test@example.com".to_string(),
        password: "password123".to_string(),
        display_name: Some("Test User".to_string()),
    }
}

fn create_valid_login_request() -> LoginRequest {
    LoginRequest {
        username_or_email: "testuser".to_string(),
        password: "correct_password".to_string(),
    }
}

#[test]
fn test_create_user_request_validation() {
    let valid_request = create_valid_user_request();
    assert!(validate_create_user(&valid_request).is_ok());

    let invalid_username = CreateUserRequest { username: "ab".to_string(), ..valid_request.clone() };
    assert!(validate_create_user(&invalid_username).is_err());

    let invalid_email =
        CreateUserRequest { email: "not_an_email".to_string(), ..valid_request.clone() };
    assert!(validate_create_user(&invalid_email).is_err());

    let invalid_password =
        CreateUserRequest { password: "short".to_string(), ..valid_request.clone() };
    assert!(validate_create_user(&invalid_password).is_err());
}

#[test]
fn test_login_request_validation() {
    let valid_request = create_valid_login_request();
    assert!(validate_login(&valid_request).is_ok());

    let invalid_request =
        LoginRequest { username_or_email: "".to_string(), ..valid_request.clone() };
    assert!(validate_login(&invalid_request).is_err());

    let invalid_request = LoginRequest { password: "".to_string(), ..valid_request.clone() };
    assert!(validate_login(&invalid_request).is_err());
}

#[test]
fn username_charset_and_length_rules() {
    let base = create_valid_user_request();
    let ok_underscore = CreateUserRequest { username: "user_name_9".to_string(), ..base.clone() };
    assert!(validate_create_user(&ok_underscore).is_ok());

    let bad_space = CreateUserRequest { username: "user name".to_string(), ..base.clone() };
    assert!(validate_create_user(&bad_space).is_err());

    let bad_dash = CreateUserRequest { username: "user-name".to_string(), ..base.clone() };
    assert!(validate_create_user(&bad_dash).is_err());

    let min_len = CreateUserRequest { username: "abc".to_string(), ..base.clone() };
    assert!(validate_create_user(&min_len).is_ok());

    let max_len = CreateUserRequest { username: "a".repeat(50), ..base.clone() };
    assert!(validate_create_user(&max_len).is_ok());

    let too_long = CreateUserRequest { username: "a".repeat(51), ..base };
    assert!(validate_create_user(&too_long).is_err());
}

#[test]
fn password_length_rules() {
    let base = create_valid_user_request();
    let eight = CreateUserRequest { password: "a".repeat(8), ..base.clone() };
    assert!(validate_create_user(&eight).is_ok());
    let seven = CreateUserRequest { password: "a".repeat(7), ..base.clone() };
    assert!(validate_create_user(&seven).is_err());
    let max = CreateUserRequest { password: "a".repeat(128), ..base.clone() };
    assert!(validate_create_user(&max).is_ok());
    let over = CreateUserRequest { password: "a".repeat(129), ..base };
    assert!(validate_create_user(&over).is_err());
}

#[test]
fn validation_error_carries_a_message() {
    let bad = CreateUserRequest {
        username: "ab".to_string(),
        email: "test@example.com".to_string(),
        password: "password123".to_string(),
        display_name: None,
    };
    match validate_create_user(&bad) {
        Err(UserError::Validation { message }) => {
            assert!(message.contains("Username"));
        }
        other => panic!("expected a validation error, got {:?}", other.is_ok()),
    }
}

#[test]
fn update_request_url_rules() {
    let ok = UpdateUserRequest {
        display_name: Some("Name".to_string()),
        bio: Some("A bio".to_string()),
        avatar_url: Some("https://example.com/a.png".to_string()),
        social_twitter: Some("@me".to_string()),
        social_github: Some("me".to_string()),
        website_url: Some("https://example.com".to_string()),
    };
    assert!(validate_update_user(&ok).is_ok());

    let bad_url = UpdateUserRequest { avatar_url: Some("not a url".to_string()), ..ok.clone() };
    assert!(validate_update_user(&bad_url).is_err());

    let long_bio = UpdateUserRequest { bio: Some("b".repeat(1001)), ..ok.clone() };
    assert!(validate_update_user(&long_bio).is_err());

    let empty = UpdateUserRequest {
        display_name: None,
        bio: None,
        avatar_url: None,
        social_twitter: None,
        social_github: None,
        website_url: None,
    };
    assert!(validate_update_user(&empty).is_ok());
}

#[test]
fn change_password_request_rules() {
    let ok = ChangePasswordRequest {
        current_password: "old_password".to_string(),
        new_password: "new_password_123".to_string(),
    };
    assert!(validate_change_password(&ok).is_ok());

    let no_current = ChangePasswordRequest { current_password: "".to_string(), ..ok.clone() };
    assert!(validate_change_password(&no_current).is_err());

    let short_new = ChangePasswordRequest { new_password: "short".to_string(), ..ok };
    assert!(validate_change_password(&short_new).is_err());
}
