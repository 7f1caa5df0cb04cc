//! Session identity: the typed identity resolved from the session's three
//! claims, and the model of the session itself — a bag of independently set
//! claims under an identifier that is rotated on every authentication
//! change.

use vstd::prelude::*;
use crate::errors::ApiError;
use crate::role::UserRole;

verus! {

/// The authenticated identity of the current request.
#[derive(Debug)]
pub struct CurrentUser {
    pub id: u128,
    pub username: String,
    pub role: UserRole,
}

impl CurrentUser {
    /// Resolve an identity from the three session claims: all three must
    /// be present at once; partial presence is the same failure as total
    /// absence.
    pub fn new(user_id: Option<u128>, username: Option<String>, role: Option<UserRole>) -> (r:
        Result<Self, ApiError>)
        ensures
            r is Ok <==> (user_id is Some && username is Some && role is Some),
            r is Ok ==> r->Ok_0 == (CurrentUser {
                id: user_id->0,
                username: username->0,
                role: role->0,
            }),
            r is Err ==> (r->Err_0 matches ApiError::Unauthorized(m) && m@ == "Invalid session"@),
    {
        match (user_id, username, role) {
            (Some(id), Some(username), Some(role)) => Ok(CurrentUser { id, username, role }),
            _ => Err(ApiError::Unauthorized("Invalid session".to_owned())),
        }
    }
}

/// The session as this core reads and writes it: the three identity claims,
/// and a generation number that advances each time the session identifier
/// is rotated. A fresh generation stands for a fresh, unguessable session
/// identifier.
#[derive(Debug)]
pub struct SessionState {
    pub generation: u64,
    pub user_id: Option<u128>,
    pub username: Option<String>,
    pub role: Option<UserRole>,
}

/// Whether a session carries no identity claim.
pub open spec fn spec_session_anonymous(s: SessionState) -> bool {
    &&& s.user_id is None
    &&& s.username is None
    &&& s.role is None
}

impl SessionState {
    /// A fresh session with no claims.
    pub fn new() -> (r: Self)
        ensures
            spec_session_anonymous(r),
            r.generation == 0,
    {
        SessionState { generation: 0, user_id: None, username: None, role: None }
    }

    /// Rotate the session identifier, keeping the claims.
    pub fn cycle_id(&mut self)
        requires
            old(self).generation < u64::MAX,
        ensures
            final(self).generation == old(self).generation + 1,
            final(self).user_id == old(self).user_id,
            final(self).username == old(self).username,
            final(self).role == old(self).role,
    {
        self.generation = self.generation + 1;
    }

    /// Establish a logged-in identity: the session identifier is rotated —
    /// never reused across the privilege change — and all three claims are
    /// written before the call returns, so no observer sees the fresh
    /// identifier with partial claims.
    pub fn login_identity(&mut self, id: u128, username: String, role: UserRole)
        requires
            old(self).generation < u64::MAX,
        ensures
            final(self).generation == old(self).generation + 1,
            final(self).user_id == Some(id),
            final(self).username == Some(username),
            final(self).role == Some(role),
    {
        self.cycle_id();
        self.user_id = Some(id);
        self.username = Some(username);
        self.role = Some(role);
    }

    /// Log out: the claims are cleared and the identifier is rotated in
    /// the same request.
    pub fn logout_identity(&mut self)
        requires
            old(self).generation < u64::MAX,
        ensures
            final(self).generation == old(self).generation + 1,
            spec_session_anonymous(*final(self)),
    {
        self.user_id = None;
        self.username = None;
        self.role = None;
        self.cycle_id();
    }

    /// Resolve the typed identity of this session, or refuse it as
    /// unauthenticated when any claim is missing.
    pub fn resolve(&self) -> (r: Result<CurrentUser, ApiError>)
        ensures
            r is Ok <==> (self.user_id is Some && self.username is Some && self.role is Some),
            r is Ok ==> r->Ok_0 == (CurrentUser {
                id: self.user_id->0,
                username: self.username->0,
                role: self.role->0,
            }),
            r is Err ==> (r->Err_0 matches ApiError::Unauthorized(m) && m@ == "Invalid session"@),
    {
        let username = match &self.username {
            Some(u) => Some(u.clone()),
            None => None,
        };
        CurrentUser::new(self.user_id, username, self.role)
    }
}

} // verus!
