//! Request and response shapes of the user operations.

use vstd::prelude::*;
use crate::entity::{User, clone_opt_string};
use crate::role::UserRole;

verus! {

/// A registration request.
#[derive(Debug)]
pub struct CreateUserRequest {
    pub username: String,
    pub email: String,
    pub password: String,
    pub display_name: Option<String>,
}

impl Clone for CreateUserRequest {
    fn clone(&self) -> (r: Self)
        ensures
            r == *self,
    {
        CreateUserRequest {
            username: self.username.clone(),
            email: self.email.clone(),
            password: self.password.clone(),
            display_name: clone_opt_string(&self.display_name),
        }
    }
}

/// A profile update: only the fields that are present are applied.
#[derive(Debug)]
pub struct UpdateUserRequest {
    pub display_name: Option<String>,
    pub bio: Option<String>,
    pub avatar_url: Option<String>,
    pub social_twitter: Option<String>,
    pub social_github: Option<String>,
    pub website_url: Option<String>,
}

impl Clone for UpdateUserRequest {
    fn clone(&self) -> (r: Self)
        ensures
            r == *self,
    {
        UpdateUserRequest {
            display_name: clone_opt_string(&self.display_name),
            bio: clone_opt_string(&self.bio),
            avatar_url: clone_opt_string(&self.avatar_url),
            social_twitter: clone_opt_string(&self.social_twitter),
            social_github: clone_opt_string(&self.social_github),
            website_url: clone_opt_string(&self.website_url),
        }
    }
}

/// A login request.
#[derive(Debug)]
pub struct LoginRequest {
    pub username_or_email: String,
    pub password: String,
}

impl Clone for LoginRequest {
    fn clone(&self) -> (r: Self)
        ensures
            r == *self,
    {
        LoginRequest {
            username_or_email: self.username_or_email.clone(),
            password: self.password.clone(),
        }
    }
}

/// A password-change request.
#[derive(Debug)]
pub struct ChangePasswordRequest {
    pub current_password: String,
    pub new_password: String,
}

impl Clone for ChangePasswordRequest {
    fn clone(&self) -> (r: Self)
        ensures
            r == *self,
    {
        ChangePasswordRequest {
            current_password: self.current_password.clone(),
            new_password: self.new_password.clone(),
        }
    }
}

/// A verification-resend request.
#[derive(Debug)]
pub struct ResendRequest {
    pub email: String,
}

impl Clone for ResendRequest {
    fn clone(&self) -> (r: Self)
        ensures
            r == *self,
    {
        ResendRequest { email: self.email.clone() }
    }
}

/// The public record of a user: everything but the credentials and the
/// pending tokens. The password hash never appears here.
#[derive(Debug)]
pub struct UserResponse {
    pub id: u128,
    pub username: String,
    pub email: String,
    pub display_name: Option<String>,
    pub bio: Option<String>,
    pub avatar_url: Option<String>,
    pub role: UserRole,
    pub is_active: bool,
    pub email_verified: bool,
    pub social_twitter: Option<String>,
    pub social_github: Option<String>,
    pub website_url: Option<String>,
    pub created_at: u64,
}

/// Whether a public record is the projection of a user entity.
pub open spec fn response_projects(r: UserResponse, user: User) -> bool {
    &&& r.id == user.id
    &&& r.username == user.username
    &&& r.email == user.email
    &&& r.display_name == user.display_name
    &&& r.bio == user.bio
    &&& r.avatar_url == user.avatar_url
    &&& r.role == user.role
    &&& r.is_active == user.is_active
    &&& r.email_verified == user.email_verified
    &&& r.social_twitter == user.social_twitter
    &&& r.social_github == user.social_github
    &&& r.website_url == user.website_url
    &&& r.created_at == user.created_at
}

impl UserResponse {
    /// Project a user entity to its public record.
    pub fn of_user(user: &User) -> (r: Self)
        ensures
            response_projects(r, *user),
    {
        UserResponse {
            id: user.id,
            username: user.username.clone(),
            email: user.email.clone(),
            display_name: clone_opt_string(&user.display_name),
            bio: clone_opt_string(&user.bio),
            avatar_url: clone_opt_string(&user.avatar_url),
            role: user.role,
            is_active: user.is_active,
            email_verified: user.email_verified,
            social_twitter: clone_opt_string(&user.social_twitter),
            social_github: clone_opt_string(&user.social_github),
            website_url: clone_opt_string(&user.website_url),
            created_at: user.created_at,
        }
    }
}

impl From<User> for UserResponse {
    fn from(user: User) -> (r: Self) {
        UserResponse::of_user(&user)
    }
}

impl vstd::std_specs::convert::FromSpecImpl<User> for UserResponse {
    open spec fn obeys_from_spec() -> bool {
        true
    }

    open spec fn from_spec(user: User) -> Self {
        UserResponse {
            id: user.id,
            username: user.username,
            email: user.email,
            display_name: user.display_name,
            bio: user.bio,
            avatar_url: user.avatar_url,
            role: user.role,
            is_active: user.is_active,
            email_verified: user.email_verified,
            social_twitter: user.social_twitter,
            social_github: user.social_github,
            website_url: user.website_url,
            created_at: user.created_at,
        }
    }
}

/// The short public record used for listings and the login response.
#[derive(Debug)]
pub struct UserSummary {
    pub id: u128,
    pub username: String,
    pub display_name: Option<String>,
    pub avatar_url: Option<String>,
    pub role: UserRole,
}

/// Whether a summary is the projection of a user entity.
pub open spec fn summary_projects(r: UserSummary, user: User) -> bool {
    &&& r.id == user.id
    &&& r.username == user.username
    &&& r.display_name == user.display_name
    &&& r.avatar_url == user.avatar_url
    &&& r.role == user.role
}

impl UserSummary {
    /// Project a user entity to its summary.
    pub fn of_user(user: &User) -> (r: Self)
        ensures
            summary_projects(r, *user),
    {
        UserSummary {
            id: user.id,
            username: user.username.clone(),
            display_name: clone_opt_string(&user.display_name),
            avatar_url: clone_opt_string(&user.avatar_url),
            role: user.role,
        }
    }
}

impl From<User> for UserSummary {
    fn from(user: User) -> (r: Self) {
        UserSummary::of_user(&user)
    }
}

impl vstd::std_specs::convert::FromSpecImpl<User> for UserSummary {
    open spec fn obeys_from_spec() -> bool {
        true
    }

    open spec fn from_spec(user: User) -> Self {
        UserSummary {
            id: user.id,
            username: user.username,
            display_name: user.display_name,
            avatar_url: user.avatar_url,
            role: user.role,
        }
    }
}

} // verus!
