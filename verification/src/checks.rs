//! Format checks for email addresses and URLs, delegated to the validator
//! crate. Both checks are pure functions of the checked string, so each is
//! given a name that the validation contracts speak through.

use vstd::prelude::*;
use validator::{ValidateEmail, ValidateUrl};

verus! {

/// Whether the validator crate accepts `s` as an email address (the HTML5
/// form-field rule: a user part and a domain part separated by `@`).
pub uninterp spec fn email_format_ok(s: Seq<char>) -> bool;

/// Whether the validator crate accepts `s` as a URL (it parses as an
/// absolute URL).
pub uninterp spec fn url_format_ok(s: Seq<char>) -> bool;

/// Check a string against the email-address format.
///
/// Relies on validator's `ValidateEmail::validate_email` for `&str`, a pure
/// function of the string; its source rejects the empty string and any
/// string without an `@` outright.
#[verifier::external_body]
pub(crate) fn check_email(s: &str) -> (r: bool)
    ensures
        r == email_format_ok(s@),
        s@.len() == 0 ==> !r,
        (forall|i: int| 0 <= i < s@.len() ==> s@[i] != '@') ==> !r,
{
    s.validate_email()
}

/// Check a string against the URL format.
///
/// Relies on validator's `ValidateUrl::validate_url` for `&str`, a pure
/// function of the string; its source rejects the empty string (nothing
/// parses as an absolute URL there).
#[verifier::external_body]
pub(crate) fn check_url(s: &str) -> (r: bool)
    ensures
        r == url_format_ok(s@),
        s@.len() == 0 ==> !r,
{
    s.validate_url()
}

} // verus!
