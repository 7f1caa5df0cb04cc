//! Role-based authorization guards: pure membership checks on the
//! authenticated identity's role.

use vstd::prelude::*;
use crate::errors::ApiError;
use crate::role::UserRole;
use crate::session::CurrentUser;

verus! {

/// Permit only the admin role.
pub fn require_admin(user: &CurrentUser) -> (r: Result<(), ApiError>)
    ensures
        r is Ok <==> user.role == UserRole::Admin,
        r is Err ==> (r->Err_0 matches ApiError::Forbidden(m) && m@ == "Admin access required"@),
{
    if matches!(user.role, UserRole::Admin) {
        Ok(())
    } else {
        Err(ApiError::Forbidden("Admin access required".to_owned()))
    }
}

/// Permit exactly the roles in the allowed set; membership is the only
/// comparison made.
pub fn require_roles(user: &CurrentUser, allowed: &[UserRole]) -> (r: Result<(), ApiError>)
    ensures
        r is Ok <==> allowed@.contains(user.role),
        r is Err ==> (r->Err_0 matches ApiError::Forbidden(m) && m@ == "Insufficient permissions"@),
{
    let n = allowed.len();
    let mut i: usize = 0;
    while i < n
        invariant
            n == allowed@.len(),
            0 <= i <= n,
            forall|j: int| 0 <= j < i ==> allowed@[j] != user.role,
        decreases n - i,
    {
        if allowed[i] == user.role {
            return Ok(());
        }
        i = i + 1;
    }
    Err(ApiError::Forbidden("Insufficient permissions".to_owned()))
}

} // verus!
