//! The user store: the entity set with its uniqueness invariants, and the
//! row mutations of the account lifecycle. Every operation is a single
//! atomic step on the store, so a token check and its consumption cannot be
//! separated.

use vstd::prelude::*;
use vstd::pervasive::VecAdditionalExecFns;
use crate::dto::{CreateUserRequest, UpdateUserRequest};
use crate::entity::User;
use crate::errors::UserError;
use crate::hashing::{hash_matches, hash_password, hash_wellformed, verify_password_hash};
use crate::role::UserRole;
use crate::strutil::str_eq;
use crate::token::{fresh_id, RESET_TOKEN_TTL_MS, VERIFICATION_TOKEN_TTL_MS};

verus! {

/// Each token field and its expiry field are both set or both absent.
pub open spec fn spec_user_wf(u: User) -> bool {
    &&& (u.email_verification_token is Some <==> u.email_verification_expires_at is Some)
    &&& (u.password_reset_token is Some <==> u.password_reset_expires_at is Some)
}

/// Two entries carry distinct identifiers, usernames and emails.
pub open spec fn spec_users_distinct_at(users: Seq<User>, i: int, j: int) -> bool {
    &&& users[i].id != users[j].id
    &&& users[i].username@ != users[j].username@
    &&& users[i].email@ != users[j].email@
}

/// Identifiers, usernames and emails are pairwise distinct.
pub open spec fn spec_unique_users(users: Seq<User>) -> bool {
    forall|i: int, j: int|
        0 <= i < j < users.len() ==> #[trigger] spec_users_distinct_at(users, i, j)
}

/// Whether some user carries the given id.
pub open spec fn spec_has_id(users: Seq<User>, id: u128) -> bool {
    exists|i: int| 0 <= i < users.len() && #[trigger] users[i].id == id
}

/// Whether some user carries the given username.
pub open spec fn spec_has_username(users: Seq<User>, name: Seq<char>) -> bool {
    exists|i: int| 0 <= i < users.len() && #[trigger] users[i].username@ == name
}

/// Whether some user carries the given email.
pub open spec fn spec_has_email(users: Seq<User>, email: Seq<char>) -> bool {
    exists|i: int| 0 <= i < users.len() && #[trigger] users[i].email@ == email
}

/// The index of the user with the given id.
pub open spec fn spec_idx_of_id(users: Seq<User>, id: u128) -> int {
    choose|i: int| 0 <= i < users.len() && #[trigger] users[i].id == id
}

/// The user entity built by a registration: the requested account with the
/// default role, active, unverified, with no pending tokens.
pub open spec fn spec_new_user(
    req: CreateUserRequest,
    id: u128,
    password_hash: String,
    now_ms: u64,
) -> User {
    User {
        id,
        username: req.username,
        email: req.email,
        password_hash,
        display_name: req.display_name,
        bio: None,
        avatar_url: None,
        role: UserRole::Subscriber,
        is_active: true,
        email_verified: false,
        email_verification_token: None,
        email_verification_expires_at: None,
        password_reset_token: None,
        password_reset_expires_at: None,
        social_twitter: None,
        social_github: None,
        website_url: None,
        created_at: now_ms,
        updated_at: now_ms,
    }
}

/// The user as a profile update leaves it: the fields the request carries
/// are overwritten, the others kept, and the update time advances.
pub open spec fn spec_patched(u: User, req: UpdateUserRequest, now_ms: u64) -> User {
    User {
        display_name: if req.display_name is Some {
            req.display_name
        } else {
            u.display_name
        },
        bio: if req.bio is Some {
            req.bio
        } else {
            u.bio
        },
        avatar_url: if req.avatar_url is Some {
            req.avatar_url
        } else {
            u.avatar_url
        },
        social_twitter: if req.social_twitter is Some {
            req.social_twitter
        } else {
            u.social_twitter
        },
        social_github: if req.social_github is Some {
            req.social_github
        } else {
            u.social_github
        },
        website_url: if req.website_url is Some {
            req.website_url
        } else {
            u.website_url
        },
        updated_at: now_ms,
        ..u
    }
}

/// Whether the user holds this email-verification token, still within its
/// validity window.
pub open spec fn spec_vtoken_live(u: User, token: Seq<char>, now_ms: u64) -> bool {
    &&& u.email_verification_token matches Some(t) && t@ == token
    &&& u.email_verification_expires_at matches Some(e) && now_ms < e
}

/// Whether the user holds this password-reset token, still within its
/// validity window.
pub open spec fn spec_rtoken_live(u: User, token: Seq<char>, now_ms: u64) -> bool {
    &&& u.password_reset_token matches Some(t) && t@ == token
    &&& u.password_reset_expires_at matches Some(e) && now_ms < e
}

/// The user after a successful email verification: marked verified, with
/// the verification token pair cleared in the same step.
pub open spec fn spec_email_verified(u: User, now_ms: u64) -> User {
    User {
        email_verified: true,
        email_verification_token: None,
        email_verification_expires_at: None,
        updated_at: now_ms,
        ..u
    }
}

/// The user after a successful password reset: the new hash stored, with
/// the reset token pair cleared in the same step.
pub open spec fn spec_reset_applied(u: User, password_hash: String, now_ms: u64) -> User {
    User {
        password_hash,
        password_reset_token: None,
        password_reset_expires_at: None,
        updated_at: now_ms,
        ..u
    }
}

/// Whether the user holds this email-verification token, expired or not.
pub open spec fn spec_holds_vtoken(u: User, token: Seq<char>) -> bool {
    u.email_verification_token matches Some(t) && t@ == token
}

/// Whether the user holds this password-reset token, expired or not.
pub open spec fn spec_holds_rtoken(u: User, token: Seq<char>) -> bool {
    u.password_reset_token matches Some(t) && t@ == token
}

/// The index of the first user holding this live email-verification token.
pub open spec fn spec_first_vmatch_at(
    users: Seq<User>,
    token: Seq<char>,
    now_ms: u64,
    i: int,
) -> bool {
    &&& 0 <= i < users.len()
    &&& spec_vtoken_live(users[i], token, now_ms)
    &&& forall|j: int| 0 <= j < i ==> !spec_vtoken_live(#[trigger] users[j], token, now_ms)
}

/// Whether the identifier names the user: it is the username or the email.
pub open spec fn spec_ident_match(u: User, ident: Seq<char>) -> bool {
    u.username@ == ident || u.email@ == ident
}

/// The index of the first user the identifier names.
pub open spec fn spec_first_ident_at(users: Seq<User>, ident: Seq<char>, i: int) -> bool {
    &&& 0 <= i < users.len()
    &&& spec_ident_match(users[i], ident)
    &&& forall|j: int| 0 <= j < i ==> !spec_ident_match(#[trigger] users[j], ident)
}

/// The index of the user with the given email.
pub open spec fn spec_idx_of_email(users: Seq<User>, email: Seq<char>) -> int {
    choose|i: int| 0 <= i < users.len() && #[trigger] users[i].email@ == email
}

/// The index of the first user holding this live password-reset token.
pub open spec fn spec_first_rmatch_at(
    users: Seq<User>,
    token: Seq<char>,
    now_ms: u64,
    i: int,
) -> bool {
    &&& 0 <= i < users.len()
    &&& spec_rtoken_live(users[i], token, now_ms)
    &&& forall|j: int| 0 <= j < i ==> !spec_rtoken_live(#[trigger] users[j], token, now_ms)
}

/// The in-memory user set, unique by id, username and email.
pub struct UserStore {
    pub users: Vec<User>,
}

impl UserStore {
    /// The store's invariants: uniqueness, and paired token fields.
    pub open spec fn wf(&self) -> bool {
        &&& spec_unique_users(self.users@)
        &&& forall|i: int| 0 <= i < self.users@.len() ==> spec_user_wf(#[trigger] self.users@[i])
    }

    /// An empty store.
    pub fn new() -> (r: Self)
        ensures
            r.wf(),
            r.users@.len() == 0,
    {
        UserStore { users: Vec::new() }
    }

    /// The user with the given id, if any.
    pub fn find_by_id(&self, id: u128) -> (r: Option<&User>)
        requires
            self.wf(),
        ensures
            r is Some <==> spec_has_id(self.users@, id),
            r matches Some(u) ==> u.id == id && *u == self.users@[spec_idx_of_id(self.users@, id)],
    {
        let n = self.users.len();
        let mut i: usize = 0;
        while i < n
            invariant
                self.wf(),
                n == self.users@.len(),
                0 <= i <= n,
                forall|j: int| 0 <= j < i ==> #[trigger] self.users@[j].id != id,
            decreases n - i,
        {
            if self.users[i].id == id {
                proof {
                    lemma_unique_idx(self.users@, id, i as int);
                }
                return Some(&self.users[i]);
            }
            i = i + 1;
        }
        None
    }

    /// The index of the user with the given id, if any.
    fn index_of_id(&self, id: u128) -> (r: Option<usize>)
        ensures
            r is Some <==> spec_has_id(self.users@, id),
            r matches Some(i) ==> i < self.users@.len() && self.users@[i as int].id == id,
    {
        let n = self.users.len();
        let mut i: usize = 0;
        while i < n
            invariant
                n == self.users@.len(),
                0 <= i <= n,
                forall|j: int| 0 <= j < i ==> #[trigger] self.users@[j].id != id,
            decreases n - i,
        {
            if self.users[i].id == id {
                return Some(i);
            }
            i = i + 1;
        }
        None
    }

    /// The user with the given username, if any.
    pub fn find_by_username(&self, username: &str) -> (r: Option<&User>)
        ensures
            r is Some <==> spec_has_username(self.users@, username@),
            r matches Some(u) ==> u.username@ == username@ && self.users@.contains(*u),
    {
        let n = self.users.len();
        let mut i: usize = 0;
        while i < n
            invariant
                n == self.users@.len(),
                0 <= i <= n,
                forall|j: int| 0 <= j < i ==> #[trigger] self.users@[j].username@ != username@,
            decreases n - i,
        {
            if str_eq(self.users[i].username.as_str(), username) {
                return Some(&self.users[i]);
            }
            i = i + 1;
        }
        None
    }

    /// The user with the given email, if any.
    pub fn find_by_email(&self, email: &str) -> (r: Option<&User>)
        requires
            self.wf(),
        ensures
            r is Some <==> spec_has_email(self.users@, email@),
            r matches Some(u) ==> u.email@ == email@ && *u == self.users@[spec_idx_of_email(
                self.users@,
                email@,
            )],
    {
        let n = self.users.len();
        let mut i: usize = 0;
        while i < n
            invariant
                self.wf(),
                n == self.users@.len(),
                0 <= i <= n,
                forall|j: int| 0 <= j < i ==> #[trigger] self.users@[j].email@ != email@,
            decreases n - i,
        {
            if str_eq(self.users[i].email.as_str(), email) {
                proof {
                    lemma_unique_email_idx(self.users@, email@, i as int);
                }
                return Some(&self.users[i]);
            }
            i = i + 1;
        }
        None
    }

    /// The user whose username or email is the given identifier, if any.
    pub fn find_by_username_or_email(&self, username_or_email: &str) -> (r: Option<&User>)
        ensures
            r is Some <==> (spec_has_username(self.users@, username_or_email@)
                || spec_has_email(self.users@, username_or_email@)),
            r matches Some(u) ==> (u.username@ == username_or_email@
                || u.email@ == username_or_email@) && self.users@.contains(*u),
            r matches Some(u) ==> exists|i: int|
                #[trigger] spec_first_ident_at(self.users@, username_or_email@, i) && *u
                    == self.users@[i],
    {
        let n = self.users.len();
        let mut i: usize = 0;
        while i < n
            invariant
                n == self.users@.len(),
                0 <= i <= n,
                forall|j: int| 0 <= j < i ==> ((#[trigger] self.users@[j]).username@
                    != username_or_email@ && self.users@[j].email@ != username_or_email@),
            decreases n - i,
        {
            if str_eq(self.users[i].username.as_str(), username_or_email)
                || str_eq(self.users[i].email.as_str(), username_or_email) {
                proof {
                    assert(spec_first_ident_at(self.users@, username_or_email@, i as int));
                }
                return Some(&self.users[i]);
            }
            i = i + 1;
        }
        None
    }

    /// Insert the account a registration describes, under the given fresh
    /// identifier and password hash. Exactly the requests that collide with
    /// nothing succeed: a taken username is reported first, then a taken
    /// email; a colliding identifier is a storage fault.
    pub fn create_with(
        &mut self,
        req: &CreateUserRequest,
        id: u128,
        password_hash: String,
        now_ms: u64,
    ) -> (r: Result<User, UserError>)
        requires
            old(self).wf(),
        ensures
            final(self).wf(),
            (r is Err && r->Err_0 is UsernameExists) <==> spec_has_username(
                old(self).users@,
                req.username@,
            ),
            (r is Err && r->Err_0 is EmailExists) <==> (!spec_has_username(
                old(self).users@,
                req.username@,
            ) && spec_has_email(old(self).users@, req.email@)),
            (r is Err && r->Err_0 is Database) <==> (!spec_has_username(
                old(self).users@,
                req.username@,
            ) && !spec_has_email(old(self).users@, req.email@) && spec_has_id(
                old(self).users@,
                id,
            )),
            r is Err ==> *final(self) == *old(self),
            r is Ok <==> (!spec_has_username(old(self).users@, req.username@)
                && !spec_has_email(old(self).users@, req.email@) && !spec_has_id(
                old(self).users@,
                id,
            )),
            r is Ok ==> r->Ok_0 == spec_new_user(*req, id, password_hash, now_ms)
                && final(self).users@ == old(self).users@.push(r->Ok_0),
    {
        if self.find_by_username(req.username.as_str()).is_some() {
            return Err(UserError::UsernameExists);
        }
        if self.find_by_email(req.email.as_str()).is_some() {
            return Err(UserError::EmailExists);
        }
        if self.index_of_id(id).is_some() {
            return Err(UserError::Database("identifier collision".to_owned()));
        }
        let user = User {
            id,
            username: req.username.clone(),
            email: req.email.clone(),
            password_hash,
            display_name: crate::entity::clone_opt_string(&req.display_name),
            bio: None,
            avatar_url: None,
            role: UserRole::Subscriber,
            is_active: true,
            email_verified: false,
            email_verification_token: None,
            email_verification_expires_at: None,
            password_reset_token: None,
            password_reset_expires_at: None,
            social_twitter: None,
            social_github: None,
            website_url: None,
            created_at: now_ms,
            updated_at: now_ms,
        };
        let out = user.clone();
        self.users.push(user);
        proof {
            lemma_push_preserves_wf(old(self).users@, self.users@[self.users@.len() - 1]);
        }
        Ok(out)
    }

    /// Register an account: reject a taken username or email, hash the
    /// password, and insert the new user. The password hash is drawn from
    /// the hashing step, so success also depends on it; the new account's
    /// stored hash verifies against the requested password.
    pub fn create(&mut self, req: &CreateUserRequest, now_ms: u64) -> (r: Result<User, UserError>)
        requires
            old(self).wf(),
        ensures
            final(self).wf(),
            (r is Err && r->Err_0 is UsernameExists) <==> spec_has_username(
                old(self).users@,
                req.username@,
            ),
            (r is Err && r->Err_0 is EmailExists) <==> (!spec_has_username(
                old(self).users@,
                req.username@,
            ) && spec_has_email(old(self).users@, req.email@)),
            r is Err ==> *final(self) == *old(self) && (r->Err_0 is UsernameExists
                || r->Err_0 is EmailExists || r->Err_0 is PasswordHash || r->Err_0 is Database),
            r is Ok ==> ({
                let u = r->Ok_0;
                &&& final(self).users@ == old(self).users@.push(u)
                &&& u.username == req.username
                &&& u.email == req.email
                &&& u.display_name == req.display_name
                &&& u.role == UserRole::Subscriber
                &&& u.is_active
                &&& !u.email_verified
                &&& u.email_verification_token is None
                &&& u.email_verification_expires_at is None
                &&& u.password_reset_token is None
                &&& u.password_reset_expires_at is None
                &&& u.bio is None
                &&& u.avatar_url is None
                &&& u.social_twitter is None
                &&& u.social_github is None
                &&& u.website_url is None
                &&& u.created_at == now_ms
                &&& u.updated_at == now_ms
                &&& hash_wellformed(u.password_hash@)
                &&& hash_matches(req.password@, u.password_hash@)
            }),
    {
        if self.find_by_username(req.username.as_str()).is_some() {
            return Err(UserError::UsernameExists);
        }
        if self.find_by_email(req.email.as_str()).is_some() {
            return Err(UserError::EmailExists);
        }
        let password_hash = match hash_password(req.password.as_str()) {
            Ok(h) => h,
            Err(e) => {
                return Err(UserError::PasswordHash(e));
            },
        };
        let id = fresh_id();
        self.create_with(req, id, password_hash, now_ms)
    }

    /// Whether the password is the one hashed into the user's stored hash.
    /// A stored hash that does not parse is a data-integrity fault, not a
    /// mismatch.
    pub fn verify_password(&self, user: &User, password: &str) -> (r: Result<bool, UserError>)
        ensures
            r is Ok <==> hash_wellformed(user.password_hash@),
            r is Ok ==> r->Ok_0 == hash_matches(password@, user.password_hash@),
            r is Err ==> r->Err_0 is PasswordHash,
    {
        match verify_password_hash(password, user.password_hash.as_str()) {
            Ok(b) => Ok(b),
            Err(e) => Err(UserError::PasswordHash(e)),
        }
    }

    /// Patch the profile fields of the user with the given id: only the
    /// fields the request carries are applied.
    pub fn update(&mut self, id: u128, req: &UpdateUserRequest, now_ms: u64) -> (r: Result<
        User,
        UserError,
    >)
        requires
            old(self).wf(),
        ensures
            final(self).wf(),
            r is Ok <==> spec_has_id(old(self).users@, id),
            r is Err ==> r->Err_0 is UserNotFound && *final(self) == *old(self),
            r is Ok ==> ({
                let i = spec_idx_of_id(old(self).users@, id);
                &&& r->Ok_0 == spec_patched(old(self).users@[i], *req, now_ms)
                &&& final(self).users@ == old(self).users@.update(i, r->Ok_0)
            }),
    {
        let idx = match self.index_of_id(id) {
            Some(i) => i,
            None => {
                return Err(UserError::UserNotFound);
            },
        };
        proof {
            lemma_unique_idx(self.users@, id, idx as int);
        }
        let mut u = self.users[idx].clone();
        if let Some(display_name) = &req.display_name {
            u.display_name = Some(display_name.clone());
        }
        if let Some(bio) = &req.bio {
            u.bio = Some(bio.clone());
        }
        if let Some(avatar_url) = &req.avatar_url {
            u.avatar_url = Some(avatar_url.clone());
        }
        if let Some(social_twitter) = &req.social_twitter {
            u.social_twitter = Some(social_twitter.clone());
        }
        if let Some(social_github) = &req.social_github {
            u.social_github = Some(social_github.clone());
        }
        if let Some(website_url) = &req.website_url {
            u.website_url = Some(website_url.clone());
        }
        u.updated_at = now_ms;
        let out = u.clone();
        self.users.set(idx, u);
        proof {
            lemma_update_preserves_wf(old(self).users@, idx as int, self.users@[idx as int]);
        }
        Ok(out)
    }

    /// Overwrite the password hash of the user with the given id with a
    /// fresh hash of the new password.
    pub fn change_password(&mut self, id: u128, new_password: &str, now_ms: u64) -> (r: Result<
        (),
        UserError,
    >)
        requires
            old(self).wf(),
        ensures
            final(self).wf(),
            r is Err ==> *final(self) == *old(self) && (r->Err_0 is PasswordHash || (
            r->Err_0 is UserNotFound && !spec_has_id(old(self).users@, id))),
            r is Ok ==> spec_has_id(old(self).users@, id),
            r is Ok ==> ({
                let i = spec_idx_of_id(old(self).users@, id);
                let nu = final(self).users@[i];
                &&& final(self).users@ == old(self).users@.update(i, nu)
                &&& nu == (User {
                    password_hash: nu.password_hash,
                    updated_at: now_ms,
                    ..old(self).users@[i]
                })
                &&& hash_wellformed(nu.password_hash@)
                &&& hash_matches(new_password@, nu.password_hash@)
            }),
    {
        let password_hash = match hash_password(new_password) {
            Ok(h) => h,
            Err(e) => {
                return Err(UserError::PasswordHash(e));
            },
        };
        let idx = match self.index_of_id(id) {
            Some(i) => i,
            None => {
                return Err(UserError::UserNotFound);
            },
        };
        proof {
            lemma_unique_idx(self.users@, id, idx as int);
        }
        let mut u = self.users[idx].clone();
        u.password_hash = password_hash;
        u.updated_at = now_ms;
        self.users.set(idx, u);
        proof {
            lemma_update_preserves_wf(old(self).users@, idx as int, self.users@[idx as int]);
        }
        Ok(())
    }

    /// Store a fresh email-verification token on the user with the given
    /// id, overwriting any pending one; it expires a fixed window from now.
    pub fn set_email_verification_token(&mut self, id: u128, token: String, now_ms: u64) -> (r:
        Result<(), UserError>)
        requires
            old(self).wf(),
            now_ms + VERIFICATION_TOKEN_TTL_MS <= u64::MAX,
        ensures
            final(self).wf(),
            r is Ok <==> spec_has_id(old(self).users@, id),
            r is Err ==> r->Err_0 is UserNotFound && *final(self) == *old(self),
            r is Ok ==> ({
                let i = spec_idx_of_id(old(self).users@, id);
                final(self).users@ == old(self).users@.update(
                    i,
                    User {
                        email_verification_token: Some(token),
                        email_verification_expires_at: Some(
                            (now_ms + VERIFICATION_TOKEN_TTL_MS) as u64,
                        ),
                        updated_at: now_ms,
                        ..old(self).users@[i]
                    },
                )
            }),
    {
        let idx = match self.index_of_id(id) {
            Some(i) => i,
            None => {
                return Err(UserError::UserNotFound);
            },
        };
        proof {
            lemma_unique_idx(self.users@, id, idx as int);
        }
        let mut u = self.users[idx].clone();
        u.email_verification_token = Some(token);
        u.email_verification_expires_at = Some(now_ms + VERIFICATION_TOKEN_TTL_MS);
        u.updated_at = now_ms;
        self.users.set(idx, u);
        proof {
            lemma_update_preserves_wf(old(self).users@, idx as int, self.users@[idx as int]);
        }
        Ok(())
    }

    /// Store a fresh password-reset token on the user with the given id,
    /// overwriting any pending one; it expires a fixed window from now.
    pub fn set_password_reset_token(&mut self, id: u128, token: String, now_ms: u64) -> (r: Result<
        (),
        UserError,
    >)
        requires
            old(self).wf(),
            now_ms + RESET_TOKEN_TTL_MS <= u64::MAX,
        ensures
            final(self).wf(),
            r is Ok <==> spec_has_id(old(self).users@, id),
            r is Err ==> r->Err_0 is UserNotFound && *final(self) == *old(self),
            r is Ok ==> ({
                let i = spec_idx_of_id(old(self).users@, id);
                final(self).users@ == old(self).users@.update(
                    i,
                    User {
                        password_reset_token: Some(token),
                        password_reset_expires_at: Some((now_ms + RESET_TOKEN_TTL_MS) as u64),
                        updated_at: now_ms,
                        ..old(self).users@[i]
                    },
                )
            }),
    {
        let idx = match self.index_of_id(id) {
            Some(i) => i,
            None => {
                return Err(UserError::UserNotFound);
            },
        };
        proof {
            lemma_unique_idx(self.users@, id, idx as int);
        }
        let mut u = self.users[idx].clone();
        u.password_reset_token = Some(token);
        u.password_reset_expires_at = Some(now_ms + RESET_TOKEN_TTL_MS);
        u.updated_at = now_ms;
        self.users.set(idx, u);
        proof {
            lemma_update_preserves_wf(old(self).users@, idx as int, self.users@[idx as int]);
        }
        Ok(())
    }

    /// Consume an email-verification token: in one atomic step, find the
    /// first user holding this token unexpired, mark that user verified,
    /// and clear the token pair. Returns the updated user, or nothing when
    /// no user holds the token unexpired — the two causes are not told
    /// apart.
    pub fn verify_email(&mut self, token: &str, now_ms: u64) -> (r: Option<User>)
        requires
            old(self).wf(),
        ensures
            final(self).wf(),
            r is Some <==> exists|i: int|
                0 <= i < old(self).users@.len() && spec_vtoken_live(
                    #[trigger] old(self).users@[i],
                    token@,
                    now_ms,
                ),
            r matches Some(u) ==> exists|i: int|
                {
                    &&& #[trigger] spec_first_vmatch_at(old(self).users@, token@, now_ms, i)
                    &&& u == spec_email_verified(old(self).users@[i], now_ms)
                    &&& final(self).users@ == old(self).users@.update(i, u)
                },
            r is None ==> *final(self) == *old(self),
    {
        let n = self.users.len();
        let mut i: usize = 0;
        while i < n
            invariant
                n == self.users@.len(),
                0 <= i <= n,
                *self == *old(self),
                old(self).wf(),
                forall|j: int|
                    0 <= j < i ==> !spec_vtoken_live(#[trigger] self.users@[j], token@, now_ms),
            decreases n - i,
        {
            let live = match (
                &self.users[i].email_verification_token,
                &self.users[i].email_verification_expires_at,
            ) {
                (Some(t), Some(e)) => str_eq(t.as_str(), token) && now_ms < *e,
                _ => false,
            };
            if live {
                let mut u = self.users[i].clone();
                u.email_verified = true;
                u.email_verification_token = None;
                u.email_verification_expires_at = None;
                u.updated_at = now_ms;
                let out = u.clone();
                self.users.set(i, u);
                proof {
                    lemma_update_preserves_wf(old(self).users@, i as int, self.users@[i as int]);
                    assert(spec_first_vmatch_at(old(self).users@, token@, now_ms, i as int));
                }
                return Some(out);
            }
            i = i + 1;
        }
        None
    }

    /// Consume a password-reset token: in one atomic step, find the first
    /// user holding this token unexpired, overwrite that user's password
    /// hash with a fresh hash of the new password, and clear the token
    /// pair. Returns the updated user, or nothing when no user holds the
    /// token unexpired — the two causes are not told apart, and the store
    /// is left untouched.
    pub fn reset_password(&mut self, token: &str, new_password: &str, now_ms: u64) -> (r: Result<
        Option<User>,
        UserError,
    >)
        requires
            old(self).wf(),
        ensures
            final(self).wf(),
            r is Err ==> r->Err_0 is PasswordHash && *final(self) == *old(self),
            r is Ok ==> ((r->Ok_0 is Some) <==> exists|i: int|
                0 <= i < old(self).users@.len() && spec_rtoken_live(
                    #[trigger] old(self).users@[i],
                    token@,
                    now_ms,
                )),
            r matches Ok(Some(u)) ==> exists|i: int|
                {
                    &&& #[trigger] spec_first_rmatch_at(old(self).users@, token@, now_ms, i)
                    &&& u == spec_reset_applied(old(self).users@[i], u.password_hash, now_ms)
                    &&& final(self).users@ == old(self).users@.update(i, u)
                    &&& hash_wellformed(u.password_hash@)
                    &&& hash_matches(new_password@, u.password_hash@)
                },
            r matches Ok(None) ==> *final(self) == *old(self),
    {
        let password_hash = match hash_password(new_password) {
            Ok(h) => h,
            Err(e) => {
                return Err(UserError::PasswordHash(e));
            },
        };
        let n = self.users.len();
        let mut i: usize = 0;
        while i < n
            invariant
                n == self.users@.len(),
                0 <= i <= n,
                *self == *old(self),
                old(self).wf(),
                forall|j: int|
                    0 <= j < i ==> !spec_rtoken_live(#[trigger] self.users@[j], token@, now_ms),
                hash_wellformed(password_hash@),
                hash_matches(new_password@, password_hash@),
            decreases n - i,
        {
            let live = match (
                &self.users[i].password_reset_token,
                &self.users[i].password_reset_expires_at,
            ) {
                (Some(t), Some(e)) => str_eq(t.as_str(), token) && now_ms < *e,
                _ => false,
            };
            if live {
                let mut u = self.users[i].clone();
                u.password_hash = password_hash;
                u.password_reset_token = None;
                u.password_reset_expires_at = None;
                u.updated_at = now_ms;
                let out = u.clone();
                self.users.set(i, u);
                proof {
                    lemma_update_preserves_wf(old(self).users@, i as int, self.users@[i as int]);
                    assert(spec_first_rmatch_at(old(self).users@, token@, now_ms, i as int));
                }
                return Ok(Some(out));
            }
            i = i + 1;
        }
        Ok(None)
    }
}

/// Law: an email-verification token is single-use. When the token's only
/// holder is the user consumed at its first match, then in the store the
/// consumption leaves behind, no user holds the token live at any instant —
/// a second consumption of the same token fails as not-found-or-expired.
pub proof fn lemma_verification_token_single_use(
    users: Seq<User>,
    token: Seq<char>,
    now_ms: u64,
    i: int,
    later_ms: u64,
)
    requires
        spec_first_vmatch_at(users, token, now_ms, i),
        forall|j: int|
            0 <= j < users.len() && j != i ==> !spec_holds_vtoken(#[trigger] users[j], token),
    ensures
        ({
            let consumed = users.update(i, spec_email_verified(users[i], now_ms));
            forall|j: int|
                0 <= j < consumed.len() ==> !spec_vtoken_live(
                    #[trigger] consumed[j],
                    token,
                    later_ms,
                )
        }),
{
    let consumed = users.update(i, spec_email_verified(users[i], now_ms));
    assert forall|j: int| 0 <= j < consumed.len() implies !spec_vtoken_live(
        #[trigger] consumed[j],
        token,
        later_ms,
    ) by {
        if j != i {
            assert(!spec_holds_vtoken(users[j], token));
        }
    }
}

/// Law: a password-reset token is single-use. When the token's only holder
/// is the user consumed at its first match, then in the store the reset
/// leaves behind, no user holds the token live at any instant — a second
/// consumption of the same token fails as not-found-or-expired.
pub proof fn lemma_reset_token_single_use(
    users: Seq<User>,
    token: Seq<char>,
    now_ms: u64,
    i: int,
    password_hash: String,
    later_ms: u64,
)
    requires
        spec_first_rmatch_at(users, token, now_ms, i),
        forall|j: int|
            0 <= j < users.len() && j != i ==> !spec_holds_rtoken(#[trigger] users[j], token),
    ensures
        ({
            let consumed = users.update(i, spec_reset_applied(users[i], password_hash, now_ms));
            forall|j: int|
                0 <= j < consumed.len() ==> !spec_rtoken_live(
                    #[trigger] consumed[j],
                    token,
                    later_ms,
                )
        }),
{
    let consumed = users.update(i, spec_reset_applied(users[i], password_hash, now_ms));
    assert forall|j: int| 0 <= j < consumed.len() implies !spec_rtoken_live(
        #[trigger] consumed[j],
        token,
        later_ms,
    ) by {
        if j != i {
            assert(!spec_holds_rtoken(users[j], token));
        }
    }
}

/// Appending a user whose id, username and email are all fresh, with its
/// token fields paired, preserves the store's invariants.
proof fn lemma_push_preserves_wf(users: Seq<User>, nu: User)
    requires
        spec_unique_users(users),
        forall|k: int| 0 <= k < users.len() ==> spec_user_wf(#[trigger] users[k]),
        !spec_has_id(users, nu.id),
        !spec_has_username(users, nu.username@),
        !spec_has_email(users, nu.email@),
        spec_user_wf(nu),
    ensures
        spec_unique_users(users.push(nu)),
        forall|k: int|
            0 <= k < users.push(nu).len() ==> spec_user_wf(#[trigger] users.push(nu)[k]),
{
    let p = users.push(nu);
    assert forall|a: int, b: int| 0 <= a < b < p.len() implies #[trigger] spec_users_distinct_at(
        p,
        a,
        b,
    ) by {
        if b == users.len() {
            assert(p[a] == users[a]);
            if users[a].id == nu.id {
                assert(spec_has_id(users, nu.id));
            }
            if users[a].username@ == nu.username@ {
                assert(spec_has_username(users, nu.username@));
            }
            if users[a].email@ == nu.email@ {
                assert(spec_has_email(users, nu.email@));
            }
        } else {
            assert(spec_users_distinct_at(users, a, b));
        }
    }
    assert forall|k: int| 0 <= k < p.len() implies spec_user_wf(#[trigger] p[k]) by {
        if k < users.len() {
            assert(spec_user_wf(users[k]));
        }
    }
}

/// Replacing a user with one that keeps its id, username and email, and
/// keeps its token fields paired, preserves the store's invariants.
proof fn lemma_update_preserves_wf(users: Seq<User>, i: int, nu: User)
    requires
        spec_unique_users(users),
        forall|k: int| 0 <= k < users.len() ==> spec_user_wf(#[trigger] users[k]),
        0 <= i < users.len(),
        nu.id == users[i].id,
        nu.username@ == users[i].username@,
        nu.email@ == users[i].email@,
        spec_user_wf(nu),
    ensures
        spec_unique_users(users.update(i, nu)),
        forall|k: int|
            0 <= k < users.update(i, nu).len() ==> spec_user_wf(#[trigger] users.update(i, nu)[k]),
{
    let updated = users.update(i, nu);
    assert forall|a: int, b: int| 0 <= a < b < updated.len() implies #[trigger] spec_users_distinct_at(
        updated,
        a,
        b,
    ) by {
        assert(spec_users_distinct_at(users, a, b));
    }
    assert forall|k: int| 0 <= k < updated.len() implies spec_user_wf(#[trigger] updated[k]) by {
        assert(spec_user_wf(users[k]));
    }
}

/// In a store with pairwise-distinct emails, any index holding a given
/// email is the chosen one.
proof fn lemma_unique_email_idx(users: Seq<User>, email: Seq<char>, i: int)
    requires
        spec_unique_users(users),
        0 <= i < users.len(),
        users[i].email@ == email,
    ensures
        spec_idx_of_email(users, email) == i,
{
    let c = spec_idx_of_email(users, email);
    assert(0 <= c < users.len() && users[c].email@ == email);
    if c < i {
        assert(spec_users_distinct_at(users, c, i));
    } else if i < c {
        assert(spec_users_distinct_at(users, i, c));
    }
}

/// In a store with pairwise-distinct identifiers, any index holding a given
/// id is the chosen one.
pub proof fn lemma_unique_idx(users: Seq<User>, id: u128, i: int)
    requires
        spec_unique_users(users),
        0 <= i < users.len(),
        users[i].id == id,
    ensures
        spec_idx_of_id(users, id) == i,
{
    let c = spec_idx_of_id(users, id);
    assert(0 <= c < users.len() && users[c].id == id);
    if c < i {
        assert(spec_users_distinct_at(users, c, i));
    } else if i < c {
        assert(spec_users_distinct_at(users, i, c));
    }
}

} // verus!
