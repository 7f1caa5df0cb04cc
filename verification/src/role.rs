//! User roles and their textual form.

use vstd::prelude::*;

verus! {

/// The role attached to an account. Roles are compared only by set
/// membership, never by order.
#[derive(Clone, Copy, Debug, PartialEq, Eq, Structural)]
pub enum UserRole {
    Admin,
    Editor,
    Author,
    Contributor,
    Subscriber,
}

impl Default for UserRole {
    /// A freshly created account is a subscriber.
    fn default() -> (r: Self)
        ensures
            r == UserRole::Subscriber,
    {
        UserRole::Subscriber
    }
}

/// The textual name of a role, as stored and transmitted.
pub open spec fn spec_role_name(role: UserRole) -> Seq<char> {
    match role {
        UserRole::Admin => "admin"@,
        UserRole::Editor => "editor"@,
        UserRole::Author => "author"@,
        UserRole::Contributor => "contributor"@,
        UserRole::Subscriber => "subscriber"@,
    }
}

/// The role named by a string, if any.
pub open spec fn spec_role_from(s: Seq<char>) -> Option<UserRole> {
    if s == "admin"@ {
        Some(UserRole::Admin)
    } else if s == "editor"@ {
        Some(UserRole::Editor)
    } else if s == "author"@ {
        Some(UserRole::Author)
    } else if s == "contributor"@ {
        Some(UserRole::Contributor)
    } else if s == "subscriber"@ {
        Some(UserRole::Subscriber)
    } else {
        None
    }
}

impl UserRole {
    /// Parse a role from its stored name.
    pub fn from_str(s: &str) -> (r: Option<Self>)
        ensures
            r == spec_role_from(s@),
    {
        if crate::strutil::str_eq(s, "admin") {
            Some(UserRole::Admin)
        } else if crate::strutil::str_eq(s, "editor") {
            Some(UserRole::Editor)
        } else if crate::strutil::str_eq(s, "author") {
            Some(UserRole::Author)
        } else if crate::strutil::str_eq(s, "contributor") {
            Some(UserRole::Contributor)
        } else if crate::strutil::str_eq(s, "subscriber") {
            Some(UserRole::Subscriber)
        } else {
            None
        }
    }

    /// The stored name of this role.
    pub fn as_str(&self) -> (r: &'static str)
        ensures
            r@ == spec_role_name(*self),
    {
        match self {
            UserRole::Admin => "admin",
            UserRole::Editor => "editor",
            UserRole::Author => "author",
            UserRole::Contributor => "contributor",
            UserRole::Subscriber => "subscriber",
        }
    }
}

} // verus!
