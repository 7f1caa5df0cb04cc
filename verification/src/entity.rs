//! The persisted user entity.

use vstd::prelude::*;
use crate::role::UserRole;

verus! {

/// A user account as the store keeps it. Timestamps are milliseconds since
/// the Unix epoch; identifiers are 128-bit values.
#[derive(Debug)]
pub struct User {
    pub id: u128,
    pub username: String,
    pub email: String,
    /// Encoded password hash; never serialized outward.
    pub password_hash: String,
    pub display_name: Option<String>,
    pub bio: Option<String>,
    pub avatar_url: Option<String>,
    pub role: UserRole,
    pub is_active: bool,
    pub email_verified: bool,
    pub email_verification_token: Option<String>,
    pub email_verification_expires_at: Option<u64>,
    pub password_reset_token: Option<String>,
    pub password_reset_expires_at: Option<u64>,
    pub social_twitter: Option<String>,
    pub social_github: Option<String>,
    pub website_url: Option<String>,
    pub created_at: u64,
    pub updated_at: u64,
}

impl Clone for User {
    fn clone(&self) -> (r: Self)
        ensures
            r == *self,
    {
        User {
            id: self.id,
            username: self.username.clone(),
            email: self.email.clone(),
            password_hash: self.password_hash.clone(),
            display_name: clone_opt_string(&self.display_name),
            bio: clone_opt_string(&self.bio),
            avatar_url: clone_opt_string(&self.avatar_url),
            role: self.role,
            is_active: self.is_active,
            email_verified: self.email_verified,
            email_verification_token: clone_opt_string(&self.email_verification_token),
            email_verification_expires_at: self.email_verification_expires_at,
            password_reset_token: clone_opt_string(&self.password_reset_token),
            password_reset_expires_at: self.password_reset_expires_at,
            social_twitter: clone_opt_string(&self.social_twitter),
            social_github: clone_opt_string(&self.social_github),
            website_url: clone_opt_string(&self.website_url),
            created_at: self.created_at,
            updated_at: self.updated_at,
        }
    }
}

/// Clone an optional string, keeping its value exactly.
pub fn clone_opt_string(s: &Option<String>) -> (r: Option<String>)
    ensures
        r == *s,
{
    match s {
        Some(v) => Some(v.clone()),
        None => None,
    }
}

impl User {
    /// Whether this account may perform administrative actions.
    pub fn is_admin(&self) -> (r: bool)
        ensures
            r == (self.role == UserRole::Admin),
    {
        matches!(self.role, UserRole::Admin)
    }

    /// Whether this account may create or edit content.
    pub fn can_write(&self) -> (r: bool)
        ensures
            r == (self.role == UserRole::Admin || self.role == UserRole::Editor
                || self.role == UserRole::Author),
    {
        matches!(self.role, UserRole::Admin | UserRole::Editor | UserRole::Author)
    }

    /// Whether this account may moderate comments.
    pub fn can_moderate(&self) -> (r: bool)
        ensures
            r == (self.role == UserRole::Admin || self.role == UserRole::Editor),
    {
        matches!(self.role, UserRole::Admin | UserRole::Editor)
    }

    /// The name to show for this account: the display name when one is set,
    /// the username otherwise.
    pub fn display_name(&self) -> (r: &str)
        ensures
            r@ == spec_shown_name(self),
    {
        match &self.display_name {
            Some(name) => name.as_str(),
            None => self.username.as_str(),
        }
    }
}

/// The name shown for an account.
pub open spec fn spec_shown_name(user: &User) -> Seq<char> {
    match user.display_name {
        Some(name) => name@,
        None => user.username@,
    }
}

} // verus!
