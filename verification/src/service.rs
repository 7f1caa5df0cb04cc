//! The user service: validated, security-aware orchestration of the store,
//! the hasher, the token issuer and the resend rate limiter. This layer owns
//! the business rules — login requires an active, verified account and
//! collapses every credential failure into one error; resending a
//! verification email never discloses whether the address exists.

use vstd::prelude::*;
use crate::dto::{
    ChangePasswordRequest, CreateUserRequest, LoginRequest, UpdateUserRequest, UserResponse,
    UserSummary,
};
use crate::dto::{response_projects, summary_projects};
use crate::entity::User;
use crate::errors::UserError;
use crate::hashing::{hash_matches, hash_wellformed};
use crate::limiter::{spec_allowed, ResendRateLimiter};
use crate::store::{
    spec_first_ident_at, spec_has_email, spec_has_id, spec_has_username, spec_idx_of_email,
    spec_idx_of_id, spec_patched, spec_vtoken_live, spec_first_vmatch_at, spec_email_verified,
    UserStore,
};
use crate::strutil::{ascii_lowercase, spec_to_lower};
use crate::role::UserRole;
use crate::token::{fresh_token, VERIFICATION_TOKEN_TTL_MS};
use crate::validate::{
    spec_change_password_ok, spec_create_user_ok, spec_login_ok, spec_update_user_ok,
    validate_change_password, validate_create_user, validate_login, validate_update_user,
};

verus! {

/// The message returned when a resend request is still in its cooldown
/// window.
pub const RESEND_WAIT_MESSAGE: &'static str =
    "Please wait before requesting another verification email";

/// Whether the user may log in with this password: the stored hash is
/// intact and matches, and the account is active and verified.
pub open spec fn spec_login_accepts(u: User, password: Seq<char>) -> bool {
    &&& hash_wellformed(u.password_hash@)
    &&& hash_matches(password, u.password_hash@)
    &&& u.is_active
    &&& u.email_verified
}

/// The user service: the store and the resend limiter behind the validated
/// operations.
pub struct UserServiceImpl {
    pub store: UserStore,
    pub limiter: ResendRateLimiter,
}

impl UserServiceImpl {
    /// The service's invariants: those of its store and its limiter.
    pub open spec fn wf(&self) -> bool {
        &&& self.store.wf()
        &&& self.limiter.wf()
    }

    /// A service over the given store, with no resend recorded yet.
    pub fn new(store: UserStore) -> (r: Self)
        requires
            store.wf(),
        ensures
            r.wf(),
            r.store == store,
            r.limiter@ == Map::<Seq<char>, u64>::empty(),
    {
        UserServiceImpl { store, limiter: ResendRateLimiter::new() }
    }

    /// Register an account: validate the request, then create the user.
    /// A valid request fails only on a taken username (reported first), a
    /// taken email, or a hashing or identifier fault; the created account
    /// is a subscriber, active, unverified, with no pending tokens, and its
    /// stored hash verifies against the requested password.
    pub fn register(&mut self, req: &CreateUserRequest, now_ms: u64) -> (r: Result<
        UserResponse,
        UserError,
    >)
        requires
            old(self).wf(),
        ensures
            final(self).wf(),
            final(self).limiter == old(self).limiter,
            (r is Err && r->Err_0 is Validation) <==> !spec_create_user_ok(*req),
            (r is Err && r->Err_0 is UsernameExists) <==> (spec_create_user_ok(*req)
                && spec_has_username(old(self).store.users@, req.username@)),
            (r is Err && r->Err_0 is EmailExists) <==> (spec_create_user_ok(*req)
                && !spec_has_username(old(self).store.users@, req.username@) && spec_has_email(
                old(self).store.users@,
                req.email@,
            )),
            r is Err ==> final(self).store == old(self).store,
            r is Ok ==> ({
                let u = final(self).store.users@.last();
                &&& final(self).store.users@ == old(self).store.users@.push(u)
                &&& response_projects(r->Ok_0, u)
                &&& u.username == req.username
                &&& u.email == req.email
                &&& u.display_name == req.display_name
                &&& u.role == UserRole::Subscriber
                &&& u.is_active
                &&& !u.email_verified
                &&& u.created_at == now_ms
                &&& u.updated_at == now_ms
                &&& hash_wellformed(u.password_hash@)
                &&& hash_matches(req.password@, u.password_hash@)
            }),
    {
        if let Err(e) = validate_create_user(req) {
            return Err(e);
        }
        match self.store.create(req, now_ms) {
            Ok(user) => Ok(UserResponse::of_user(&user)),
            Err(e) => Err(e),
        }
    }

    /// Log in with a username or email and a password. A valid request is
    /// accepted exactly when the identifier names an account whose stored
    /// hash matches the password and which is active and verified; every
    /// other failure — unknown identifier, wrong password, inactive or
    /// unverified account — is the same `InvalidCredentials`, so the
    /// response discloses nothing about which check failed. Only a stored
    /// hash that does not parse is reported apart, as a hashing fault.
    pub fn login(&self, req: &LoginRequest) -> (r: Result<UserSummary, UserError>)
        ensures
            (r is Err && r->Err_0 is Validation) <==> !spec_login_ok(*req),
            r is Ok <==> (spec_login_ok(*req) && exists|i: int|
                #[trigger] spec_first_ident_at(self.store.users@, req.username_or_email@, i)
                    && spec_login_accepts(self.store.users@[i], req.password@)),
            r is Ok ==> exists|i: int|
                {
                    &&& #[trigger] spec_first_ident_at(
                        self.store.users@,
                        req.username_or_email@,
                        i,
                    )
                    &&& spec_login_accepts(self.store.users@[i], req.password@)
                    &&& r->Ok_0.id == self.store.users@[i].id
                    &&& r->Ok_0.username == self.store.users@[i].username
                    &&& r->Ok_0.display_name is None
                    &&& r->Ok_0.avatar_url is None
                    &&& r->Ok_0.role == self.store.users@[i].role
                },
            (r is Err && r->Err_0 is PasswordHash) ==> exists|i: int|
                #[trigger] spec_first_ident_at(self.store.users@, req.username_or_email@, i)
                    && !hash_wellformed(self.store.users@[i].password_hash@),
            r is Err ==> (r->Err_0 is Validation || r->Err_0 is InvalidCredentials
                || r->Err_0 is PasswordHash),
    {
        if let Err(e) = validate_login(req) {
            return Err(e);
        }
        let user = match self.store.find_by_username_or_email(req.username_or_email.as_str()) {
            Some(u) => u,
            None => {
                return Err(UserError::InvalidCredentials);
            },
        };
        let is_valid = match self.store.verify_password(user, req.password.as_str()) {
            Ok(b) => b,
            Err(e) => {
                return Err(e);
            },
        };
        if !is_valid {
            return Err(UserError::InvalidCredentials);
        }
        if !user.is_active || !user.email_verified {
            return Err(UserError::InvalidCredentials);
        }
        Ok(UserSummary {
            id: user.id,
            username: user.username.clone(),
            display_name: None,
            avatar_url: None,
            role: user.role,
        })
    }

    /// The public record of the user with the given id.
    pub fn get_user(&self, id: u128) -> (r: Result<UserResponse, UserError>)
        requires
            self.wf(),
        ensures
            r is Ok <==> spec_has_id(self.store.users@, id),
            r is Err ==> r->Err_0 is UserNotFound,
            r is Ok ==> response_projects(
                r->Ok_0,
                self.store.users@[spec_idx_of_id(self.store.users@, id)],
            ),
    {
        match self.store.find_by_id(id) {
            Some(user) => Ok(UserResponse::of_user(user)),
            None => Err(UserError::UserNotFound),
        }
    }

    /// The summary of the user with the given id.
    pub fn get_user_summary(&self, id: u128) -> (r: Result<UserSummary, UserError>)
        requires
            self.wf(),
        ensures
            r is Ok <==> spec_has_id(self.store.users@, id),
            r is Err ==> r->Err_0 is UserNotFound,
            r is Ok ==> summary_projects(
                r->Ok_0,
                self.store.users@[spec_idx_of_id(self.store.users@, id)],
            ),
    {
        match self.store.find_by_id(id) {
            Some(user) => Ok(UserSummary::of_user(user)),
            None => Err(UserError::UserNotFound),
        }
    }

    /// Update the profile of the user with the given id: validate, then
    /// patch exactly the fields the request carries.
    pub fn update_profile(&mut self, id: u128, req: &UpdateUserRequest, now_ms: u64) -> (r: Result<
        UserResponse,
        UserError,
    >)
        requires
            old(self).wf(),
        ensures
            final(self).wf(),
            final(self).limiter == old(self).limiter,
            (r is Err && r->Err_0 is Validation) <==> !spec_update_user_ok(*req),
            (r is Err && r->Err_0 is UserNotFound) <==> (spec_update_user_ok(*req)
                && !spec_has_id(old(self).store.users@, id)),
            r is Err ==> final(self).store == old(self).store,
            r is Ok <==> (spec_update_user_ok(*req) && spec_has_id(old(self).store.users@, id)),
            r is Ok ==> ({
                let i = spec_idx_of_id(old(self).store.users@, id);
                let patched = spec_patched(old(self).store.users@[i], *req, now_ms);
                &&& final(self).store.users@ == old(self).store.users@.update(i, patched)
                &&& response_projects(r->Ok_0, patched)
            }),
    {
        if let Err(e) = validate_update_user(req) {
            return Err(e);
        }
        match self.store.update(id, req, now_ms) {
            Ok(user) => Ok(UserResponse::of_user(&user)),
            Err(e) => Err(e),
        }
    }

    /// Change the password of the user with the given id: validate, verify
    /// the caller's current password against the stored hash, and only then
    /// store a fresh hash of the new password.
    pub fn change_password(&mut self, id: u128, req: &ChangePasswordRequest, now_ms: u64) -> (r:
        Result<(), UserError>)
        requires
            old(self).wf(),
        ensures
            final(self).wf(),
            final(self).limiter == old(self).limiter,
            (r is Err && r->Err_0 is Validation) <==> !spec_change_password_ok(*req),
            (r is Err && r->Err_0 is UserNotFound) <==> (spec_change_password_ok(*req)
                && !spec_has_id(old(self).store.users@, id)),
            (r is Err && r->Err_0 is InvalidCredentials) <==> (spec_change_password_ok(*req)
                && spec_has_id(old(self).store.users@, id) && ({
                let u = old(self).store.users@[spec_idx_of_id(old(self).store.users@, id)];
                hash_wellformed(u.password_hash@) && !hash_matches(
                    req.current_password@,
                    u.password_hash@,
                )
            })),
            r is Err ==> final(self).store == old(self).store,
            r is Ok ==> ({
                let i = spec_idx_of_id(old(self).store.users@, id);
                let u = old(self).store.users@[i];
                let nu = final(self).store.users@[i];
                &&& spec_change_password_ok(*req)
                &&& spec_has_id(old(self).store.users@, id)
                &&& hash_wellformed(u.password_hash@)
                &&& hash_matches(req.current_password@, u.password_hash@)
                &&& final(self).store.users@ == old(self).store.users@.update(i, nu)
                &&& nu == (User { password_hash: nu.password_hash, updated_at: now_ms, ..u })
                &&& hash_wellformed(nu.password_hash@)
                &&& hash_matches(req.new_password@, nu.password_hash@)
            }),
    {
        if let Err(e) = validate_change_password(req) {
            return Err(e);
        }
        let user = match self.store.find_by_id(id) {
            Some(u) => u,
            None => {
                return Err(UserError::UserNotFound);
            },
        };
        let is_valid = match self.store.verify_password(user, req.current_password.as_str()) {
            Ok(b) => b,
            Err(e) => {
                return Err(e);
            },
        };
        if !is_valid {
            return Err(UserError::InvalidCredentials);
        }
        self.store.change_password(id, req.new_password.as_str(), now_ms)
    }

    /// Issue a fresh email-verification token for the user with the given
    /// id and persist it, overwriting any pending one; the raw token is
    /// returned for delivery.
    pub fn set_verification_token(&mut self, id: u128, now_ms: u64) -> (r: Result<
        String,
        UserError,
    >)
        requires
            old(self).wf(),
            now_ms + VERIFICATION_TOKEN_TTL_MS <= u64::MAX,
        ensures
            final(self).wf(),
            final(self).limiter == old(self).limiter,
            r is Ok <==> spec_has_id(old(self).store.users@, id),
            r is Err ==> r->Err_0 is UserNotFound && final(self).store == old(self).store,
            r is Ok ==> ({
                let i = spec_idx_of_id(old(self).store.users@, id);
                final(self).store.users@ == old(self).store.users@.update(
                    i,
                    User {
                        email_verification_token: Some(r->Ok_0),
                        email_verification_expires_at: Some(
                            (now_ms + VERIFICATION_TOKEN_TTL_MS) as u64,
                        ),
                        updated_at: now_ms,
                        ..old(self).store.users@[i]
                    },
                )
            }),
    {
        let token = fresh_token();
        let stored = token.clone();
        match self.store.set_email_verification_token(id, stored, now_ms) {
            Ok(()) => Ok(token),
            Err(e) => Err(e),
        }
    }

    /// Consume an email-verification token: true exactly when some account
    /// held the token unexpired, which is then marked verified with the
    /// token pair cleared in the same atomic step.
    pub fn verify_email(&mut self, token: &str, now_ms: u64) -> (r: Result<bool, UserError>)
        requires
            old(self).wf(),
        ensures
            final(self).wf(),
            final(self).limiter == old(self).limiter,
            r is Ok,
            r->Ok_0 <==> exists|i: int|
                0 <= i < old(self).store.users@.len() && spec_vtoken_live(
                    #[trigger] old(self).store.users@[i],
                    token@,
                    now_ms,
                ),
            r->Ok_0 ==> exists|i: int|
                {
                    &&& #[trigger] spec_first_vmatch_at(old(self).store.users@, token@, now_ms, i)
                    &&& final(self).store.users@ == old(self).store.users@.update(
                        i,
                        spec_email_verified(old(self).store.users@[i], now_ms),
                    )
                },
            !r->Ok_0 ==> final(self).store == old(self).store,
    {
        let user = self.store.verify_email(token, now_ms);
        Ok(user.is_some())
    }

    /// Handle a verification-resend request for an email address. The
    /// cooldown gate is checked and recorded first, in one atomic step, and
    /// a request inside the window is refused. A permitted request always
    /// succeeds, whether or not the address names an account: when it names
    /// an unverified account a fresh token is issued and persisted for it,
    /// and in every other case nothing changes — the outcome never
    /// discloses whether the address exists.
    pub fn resend_verification(&mut self, email: &str, now_ms: u64) -> (r: Result<(), UserError>)
        requires
            old(self).wf(),
            now_ms + VERIFICATION_TOKEN_TTL_MS <= u64::MAX,
        ensures
            final(self).wf(),
            r is Ok <==> spec_allowed(old(self).limiter@, spec_to_lower(email@), now_ms),
            r is Err ==> ({
                &&& r->Err_0 matches UserError::Validation { message } && message@
                    == RESEND_WAIT_MESSAGE@
                &&& final(self).store == old(self).store
                &&& final(self).limiter@ == old(self).limiter@
            }),
            r is Ok ==> final(self).limiter@ == old(self).limiter@.insert(
                spec_to_lower(email@),
                now_ms,
            ),
            r is Ok ==> ({
                let users = old(self).store.users@;
                if spec_has_email(users, email@) && !users[spec_idx_of_email(
                    users,
                    email@,
                )].email_verified {
                    ({
                        let i = spec_idx_of_email(users, email@);
                        let nu = final(self).store.users@[i];
                        &&& final(self).store.users@ == users.update(i, nu)
                        &&& nu == (User {
                            email_verification_token: nu.email_verification_token,
                            email_verification_expires_at: Some(
                                (now_ms + VERIFICATION_TOKEN_TTL_MS) as u64,
                            ),
                            updated_at: now_ms,
                            ..users[i]
                        })
                        &&& nu.email_verification_token is Some
                    })
                } else {
                    final(self).store == old(self).store
                }
            }),
    {
        let key = ascii_lowercase(email);
        if !self.limiter.allow(key.as_str(), now_ms) {
            return Err(UserError::Validation { message: RESEND_WAIT_MESSAGE.to_owned() });
        }
        let (found_id, needs_token) = match self.store.find_by_email(email) {
            Some(user) => (user.id, !user.email_verified),
            None => (0, false),
        };
        if needs_token {
            proof {
                let users = self.store.users@;
                let ie = spec_idx_of_email(users, email@);
                assert(users[ie].id == found_id);
                assert(spec_has_id(users, found_id));
                crate::store::lemma_unique_idx(users, found_id, ie);
            }
            match self.set_verification_token(found_id, now_ms) {
                Ok(_) => Ok(()),
                Err(e) => Err(e),
            }
        } else {
            Ok(())
        }
    }
}

} // verus!
