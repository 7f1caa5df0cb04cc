use wordsmith_auth::dto::{UserResponse, UserSummary};
use wordsmith_auth::entity::User;
use wordsmith_auth::errors::{api_error_envelope, ApiError, IntoApiError, UserError};
use wordsmith_auth::query::get_query_param;
use wordsmith_auth::response::{ApiResponse, Status};
use wordsmith_auth::role::UserRole;
use wordsmith_auth::strutil::{ascii_lowercase, str_contains, str_eq};

const NOW: u64 = 1_700_000_000_000;

fn sample_user() -> User {
    User {
        id: 77,
        username: "testuser".to_string(),
        email: "test@example.com".to_string(),
        password_hash: "hashed".to_string(),
        display_name: Some("Test User".to_string()),
        bio: Some("Test bio".to_string()),
        avatar_url: Some("https://example.com/avatar.jpg".to_string()),
        role: UserRole::Author,
        is_active: true,
        email_verified: true,
        email_verification_token: None,
        email_verification_expires_at: None,
        password_reset_token: None,
        password_reset_expires_at: None,
        social_twitter: Some("@testuser".to_string()),
        social_github: Some("testuser".to_string()),
        website_url: Some("https://testuser.com".to_string()),
        created_at: NOW,
        updated_at: NOW,
    }
}

#[test]
fn test_user_to_user_response() {
    let user = sample_user();
    let response: UserResponse = user.clone().into();

    assert_eq!(response.id, user.id);
    assert_eq!(response.username, user.username);
    assert_eq!(response.email, user.email);
    assert_eq!(response.display_name, user.display_name);
    assert_eq!(response.bio, user.bio);
    assert_eq!(response.avatar_url, user.avatar_url);
    assert_eq!(response.role, user.role);
    assert_eq!(response.is_active, user.is_active);
    assert_eq!(response.email_verified, user.email_verified);
    assert_eq!(response.social_twitter, user.social_twitter);
    assert_eq!(response.social_github, user.social_github);
    assert_eq!(response.website_url, user.website_url);
    assert_eq!(response.created_at, user.created_at);
}

#[test]
fn test_user_to_user_summary() {
    let user = User {
        role: UserRole::Editor,
        email_verified: false,
        bio: None,
        social_twitter: None,
        social_github: None,
        website_url: None,
        ..sample_user()
    };
    let summary: UserSummary = user.clone().into();

    assert_eq!(summary.id, user.id);
    assert_eq!(summary.username, user.username);
    assert_eq!(summary.display_name, user.display_name);
    assert_eq!(summary.avatar_url, user.avatar_url);
    assert_eq!(summary.role, user.role);
}

#[test]
fn user_error_codes_match_their_http_statuses() {
    assert_eq!(UserError::Validation { message: "m".to_string() }.code(), Some(400));
    assert_eq!(UserError::UserNotFound.code(), Some(404));
    assert_eq!(UserError::EmailExists.code(), Some(409));
    assert_eq!(UserError::UsernameExists.code(), Some(409));
    assert_eq!(UserError::InvalidCredentials.code(), Some(401));
    assert_eq!(UserError::EmailNotVerified.code(), Some(401));
    assert_eq!(UserError::Database("down".to_string()).code(), Some(500));
    assert_eq!(UserError::PasswordHash("bad".to_string()).code(), Some(500));
}

#[test]
fn user_error_messages() {
    assert_eq!(UserError::UserNotFound.message(), "User not found");
    assert_eq!(UserError::EmailExists.message(), "Email already exists");
    assert_eq!(UserError::UsernameExists.message(), "Username already exists");
    assert_eq!(UserError::InvalidCredentials.message(), "Invalid credentials");
    assert_eq!(
        UserError::Validation { message: "too short".to_string() }.message(),
        "Validation error: too short"
    );
    assert_eq!(UserError::Database("down".to_string()).message(), "Database error: down");
}

#[test]
fn api_error_envelope_maps_statuses() {
    let cases: Vec<(ApiError, u16)> = vec![
        (ApiError::TemplateError("boom".to_string()), 500),
        (ApiError::StaticFileError("File Not Found: style.css".to_string()), 404),
        (ApiError::StaticFileError("No Such File or directory".to_string()), 404),
        (ApiError::StaticFileError("permission denied".to_string()), 500),
        (ApiError::SerializationError("bad json".to_string()), 500),
        (ApiError::UserError(UserError::Validation { message: "m".to_string() }), 400),
        (ApiError::UserError(UserError::UserNotFound), 404),
        (ApiError::UserError(UserError::UsernameExists), 409),
        (ApiError::UserError(UserError::EmailExists), 409),
        (ApiError::UserError(UserError::InvalidCredentials), 401),
        (ApiError::UserError(UserError::EmailNotVerified), 500),
        (ApiError::UserError(UserError::Database("down".to_string())), 500),
        (ApiError::Unauthorized("Invalid session".to_string()), 401),
        (ApiError::Forbidden("Admin access required".to_string()), 403),
    ];
    for (error, expected) in cases {
        let envelope = api_error_envelope(&error, NOW);
        assert!(matches!(envelope.status, Status::Error));
        assert_eq!(envelope.code, Some(expected), "for {:?}", error);
        assert!(envelope.data.is_none());
        assert_eq!(envelope.timestamp, NOW);
    }
    let enveloped = api_error_envelope(&ApiError::UserError(UserError::InvalidCredentials), NOW);
    assert_eq!(enveloped.message.unwrap(), "User error: Invalid credentials");
}

#[test]
fn envelope_constructors_and_http_status() {
    let ok: ApiResponse<u32> = ApiResponse::ok(5, NOW);
    assert!(matches!(ok.status, Status::Success));
    assert_eq!(ok.data, Some(5));
    assert_eq!(ok.http_status(), 200);

    let ok_msg: ApiResponse<u32> = ApiResponse::ok_with_message(5, "done".to_string(), NOW);
    assert_eq!(ok_msg.message.as_deref(), Some("done"));
    assert_eq!(ok_msg.http_status(), 200);

    let ok_code: ApiResponse<u32> = ApiResponse::ok_with_code(5, 204, NOW);
    assert_eq!(ok_code.http_status(), 204);

    let full: ApiResponse<u32> = ApiResponse::ok_full(5, "done".to_string(), 201, NOW);
    assert_eq!(full.http_status(), 201);
    assert_eq!(full.data, Some(5));

    let err: ApiResponse<u32> = ApiResponse::err("broken".to_string(), NOW);
    assert!(matches!(err.status, Status::Error));
    assert_eq!(err.http_status(), 500);
    assert!(err.data.is_none());

    let err_code: ApiResponse<u32> = ApiResponse::err_with_code("missing".to_string(), 404, NOW);
    assert_eq!(err_code.http_status(), 404);

    // An out-of-range code falls back to the status tag.
    let odd: ApiResponse<u32> = ApiResponse::err_with_code("odd".to_string(), 99, NOW);
    assert_eq!(odd.http_status(), 500);
}

#[test]
fn envelope_from_result() {
    let ok: ApiResponse<u32> = ApiResponse::from_result(Ok::<u32, UserError>(7), NOW);
    assert!(matches!(ok.status, Status::Success));
    assert_eq!(ok.data, Some(7));

    let err: ApiResponse<u32> = ApiResponse::from_result(Err(UserError::UserNotFound), NOW);
    assert!(matches!(err.status, Status::Error));
    assert_eq!(err.code, Some(404));
    assert_eq!(err.message.as_deref(), Some("User not found"));
    assert!(err.data.is_none());
}

#[test]
fn query_param_lookup() {
    assert_eq!(get_query_param("token=abc123", "token"), Some("abc123".to_string()));
    assert_eq!(get_query_param("a=1&token=abc&b=2", "token"), Some("abc".to_string()));
    assert_eq!(get_query_param("a=1&b=2", "token"), None);
    assert_eq!(get_query_param("", "token"), None);
    // A pair without '=' names nothing, even if it equals the key.
    assert_eq!(get_query_param("token&x=1", "token"), None);
    // An empty value is still a value.
    assert_eq!(get_query_param("token=&x=1", "token"), Some("".to_string()));
    // Only the first '=' splits the pair.
    assert_eq!(get_query_param("token=a=b&x=1", "token"), Some("a=b".to_string()));
    // The first matching pair wins.
    assert_eq!(get_query_param("t=1&t=2", "t"), Some("1".to_string()));
}

#[test]
fn string_utilities() {
    assert!(str_eq("hello", "hello"));
    assert!(!str_eq("hello", "hellO"));
    assert!(!str_eq("hello", "hell"));
    assert_eq!(ascii_lowercase("File Not Found"), "file not found");
    assert_eq!(ascii_lowercase("äÖü"), "äÖü");
    assert!(str_contains("error: file not found here", "not found"));
    assert!(!str_contains("all good", "not found"));
    assert!(str_contains("abc", ""));
    assert!(!str_contains("ab", "abc"));
}
