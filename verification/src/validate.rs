//! Input validation: every request is checked against these rules before it
//! reaches the store, and a request that fails is reported as a validation
//! error that names the broken rule.

use vstd::prelude::*;
use vstd::string::StrSliceExecFns;
use crate::checks::{check_email, check_url, email_format_ok, url_format_ok};
use crate::dto::{ChangePasswordRequest, CreateUserRequest, LoginRequest, UpdateUserRequest};
use crate::errors::UserError;

verus! {

/// A character a username may hold: an ASCII letter, a digit, or an
/// underscore.
pub open spec fn spec_word_char(c: char) -> bool {
    ||| 97 <= c as u32 <= 122
    ||| 65 <= c as u32 <= 90
    ||| 48 <= c as u32 <= 57
    ||| c == '_'
}

/// A valid username: 3 to 50 characters, all of them word characters.
pub open spec fn spec_username_ok(s: Seq<char>) -> bool {
    &&& 3 <= s.len() <= 50
    &&& forall|i: int| 0 <= i < s.len() ==> spec_word_char(s[i])
}

/// A valid email: accepted by the format check, at most 255 characters.
pub open spec fn spec_email_ok(s: Seq<char>) -> bool {
    &&& email_format_ok(s)
    &&& s.len() <= 255
}

/// A valid password: 8 to 128 characters.
pub open spec fn spec_password_ok(s: Seq<char>) -> bool {
    8 <= s.len() <= 128
}

/// A valid optional display name: absent, or at most 100 characters.
pub open spec fn spec_display_name_ok(s: Option<String>) -> bool {
    match s {
        Some(name) => name@.len() <= 100,
        None => true,
    }
}

/// A valid optional free-text field of the given limit.
pub open spec fn spec_opt_len_ok(s: Option<String>, limit: nat) -> bool {
    match s {
        Some(text) => text@.len() <= limit,
        None => true,
    }
}

/// A valid optional URL field: absent, or a URL of at most 500 characters.
pub open spec fn spec_opt_url_ok(s: Option<String>) -> bool {
    match s {
        Some(url) => url_format_ok(url@) && url@.len() <= 500,
        None => true,
    }
}

/// A valid registration request.
pub open spec fn spec_create_user_ok(req: CreateUserRequest) -> bool {
    &&& spec_username_ok(req.username@)
    &&& spec_email_ok(req.email@)
    &&& spec_password_ok(req.password@)
    &&& spec_display_name_ok(req.display_name)
}

/// A valid login request: both fields present.
pub open spec fn spec_login_ok(req: LoginRequest) -> bool {
    &&& req.username_or_email@.len() >= 1
    &&& req.password@.len() >= 1
}

/// A valid profile update.
pub open spec fn spec_update_user_ok(req: UpdateUserRequest) -> bool {
    &&& spec_opt_len_ok(req.display_name, 100)
    &&& spec_opt_len_ok(req.bio, 1000)
    &&& spec_opt_url_ok(req.avatar_url)
    &&& spec_opt_len_ok(req.social_twitter, 100)
    &&& spec_opt_len_ok(req.social_github, 100)
    &&& spec_opt_url_ok(req.website_url)
}

/// A valid password-change request.
pub open spec fn spec_change_password_ok(req: ChangePasswordRequest) -> bool {
    &&& req.current_password@.len() >= 1
    &&& spec_password_ok(req.new_password@)
}

/// Check a username against its rule.
pub fn username_ok(s: &str) -> (r: bool)
    ensures
        r == spec_username_ok(s@),
{
    let len = s.unicode_len();
    if len < 3 || len > 50 {
        return false;
    }
    let mut i: usize = 0;
    while i < len
        invariant
            len == s@.len(),
            0 <= i <= len,
            forall|j: int| 0 <= j < i ==> spec_word_char(s@[j]),
        decreases len - i,
    {
        let c = s.get_char(i);
        let u = c as u32;
        if !((97 <= u && u <= 122) || (65 <= u && u <= 90) || (48 <= u && u <= 57) || u == 95) {
            assert(c == '_' ==> u == 95);
            return false;
        }
        assert(u == 95 ==> c == '_');
        i = i + 1;
    }
    true
}

/// Check an optional field's character limit.
fn opt_len_ok(s: &Option<String>, limit: usize) -> (r: bool)
    ensures
        r == spec_opt_len_ok(*s, limit as nat),
{
    match s {
        Some(text) => text.as_str().unicode_len() <= limit,
        None => true,
    }
}

/// Check an optional URL field.
fn opt_url_ok(s: &Option<String>) -> (r: bool)
    ensures
        r == spec_opt_url_ok(*s),
{
    match s {
        Some(url) => check_url(url.as_str()) && url.as_str().unicode_len() <= 500,
        None => true,
    }
}

/// The validation error that names a broken rule.
fn rule_error(message: &str) -> (r: UserError)
    ensures
        (r matches UserError::Validation { message: m } && m@ == message@),
{
    UserError::Validation { message: message.to_owned() }
}

/// Validate a registration request: accepts exactly the valid requests,
/// and reports the first broken rule otherwise.
pub fn validate_create_user(req: &CreateUserRequest) -> (r: Result<(), UserError>)
    ensures
        r is Ok <==> spec_create_user_ok(*req),
        r is Err ==> r->Err_0 is Validation,
{
    if !username_ok(req.username.as_str()) {
        return Err(rule_error("Username must be 3-50 characters of letters, numbers, and underscores"));
    }
    if !(check_email(req.email.as_str()) && req.email.as_str().unicode_len() <= 255) {
        return Err(rule_error("Invalid email address"));
    }
    let pw_len = req.password.as_str().unicode_len();
    if pw_len < 8 || pw_len > 128 {
        return Err(rule_error("Password must be 8-128 characters"));
    }
    if !opt_len_ok(&req.display_name, 100) {
        return Err(rule_error("Display name cannot exceed 100 characters"));
    }
    Ok(())
}

/// Validate a login request: both fields must be present.
pub fn validate_login(req: &LoginRequest) -> (r: Result<(), UserError>)
    ensures
        r is Ok <==> spec_login_ok(*req),
        r is Err ==> r->Err_0 is Validation,
{
    if req.username_or_email.as_str().unicode_len() < 1 {
        return Err(rule_error("Username or email is required"));
    }
    if req.password.as_str().unicode_len() < 1 {
        return Err(rule_error("Password is required"));
    }
    Ok(())
}

/// Validate a profile update.
pub fn validate_update_user(req: &UpdateUserRequest) -> (r: Result<(), UserError>)
    ensures
        r is Ok <==> spec_update_user_ok(*req),
        r is Err ==> r->Err_0 is Validation,
{
    if !opt_len_ok(&req.display_name, 100) {
        return Err(rule_error("Display name cannot exceed 100 characters"));
    }
    if !opt_len_ok(&req.bio, 1000) {
        return Err(rule_error("Bio cannot exceed 1000 characters"));
    }
    if !opt_url_ok(&req.avatar_url) {
        return Err(rule_error("Avatar URL must be a valid URL of at most 500 characters"));
    }
    if !opt_len_ok(&req.social_twitter, 100) {
        return Err(rule_error("Twitter handle cannot exceed 100 characters"));
    }
    if !opt_len_ok(&req.social_github, 100) {
        return Err(rule_error("GitHub username cannot exceed 100 characters"));
    }
    if !opt_url_ok(&req.website_url) {
        return Err(rule_error("Website URL must be a valid URL of at most 500 characters"));
    }
    Ok(())
}

/// Validate a password-change request.
pub fn validate_change_password(req: &ChangePasswordRequest) -> (r: Result<(), UserError>)
    ensures
        r is Ok <==> spec_change_password_ok(*req),
        r is Err ==> r->Err_0 is Validation,
{
    if req.current_password.as_str().unicode_len() < 1 {
        return Err(rule_error("Current password is required"));
    }
    let pw_len = req.new_password.as_str().unicode_len();
    if pw_len < 8 || pw_len > 128 {
        return Err(rule_error("New password must be 8-128 characters"));
    }
    Ok(())
}

} // verus!
