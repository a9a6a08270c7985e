use vstd::prelude::*;
use crate::user::{User, Login};
use crate::password::{HashError, MIN_COST, MAX_COST, bcrypt_accepts, hash_password, verify_password};
use crate::store::{CredentialStore, StoreError, has_user, lookup, get_user, insert_user};
use crate::session::{SessionAuthority, IssueError, has_token, issued};

verus! {

/// Why a registration was refused.
#[derive(Debug, PartialEq, Eq, Structural)]
pub enum RegisterError {
    Store(StoreError),
    Hash(HashError),
}

/// Why a login was refused. The first two are shown to the user as one
/// message, so as not to tell which part was wrong.
#[derive(Debug, PartialEq, Eq, Structural)]
pub enum LoginError {
    UnknownUser,
    WrongPassword,
    /// The fresh token offered for the session is already in use.
    TokenInUse,
}

impl RegisterError {
    /// The text shown to the user for this refusal.
    pub fn message(&self) -> (r: &'static str)
        ensures
            *self == RegisterError::Store(StoreError::AlreadyExists) ==> r@ == "Username already taken"@,
            *self == RegisterError::Store(StoreError::InvalidRecord) ==> r@ == "Invalid username or administrator flag"@,
            (*self == RegisterError::Store(StoreError::StorageError) || self is Hash) ==> r@ == "Registration failed"@,
    {
        match self {
            RegisterError::Store(StoreError::AlreadyExists) => "Username already taken",
            RegisterError::Store(StoreError::InvalidRecord) => "Invalid username or administrator flag",
            RegisterError::Store(StoreError::StorageError) => "Registration failed",
            RegisterError::Hash(_) => "Registration failed",
        }
    }
}

impl LoginError {
    /// The text shown to the user for this refusal; an unknown user and a
    /// wrong password read the same.
    pub fn message(&self) -> (r: &'static str)
        ensures
            (self is UnknownUser || self is WrongPassword) ==> r@ == "Invalid username or password."@,
            self is TokenInUse ==> r@ == "Login failed, please try again."@,
    {
        match self {
            LoginError::UnknownUser => "Invalid username or password.",
            LoginError::WrongPassword => "Invalid username or password.",
            LoginError::TokenInUse => "Login failed, please try again.",
        }
    }
}

/// Registers `form.username` with the bcrypt hash of the plaintext
/// `form.password` and the flag `form.admin`. The store changes only on success.
pub fn register(store: &mut CredentialStore, form: &User, cost: u32) -> (r: Result<(), RegisterError>)
    requires
        old(store).wf(),
    ensures
        final(store).wf(),
        !form@.valid() ==> r == Err::<(), RegisterError>(RegisterError::Store(StoreError::InvalidRecord)),
        form@.valid() && has_user(old(store)@, form.username@) ==> r == Err::<(), RegisterError>(
            RegisterError::Store(StoreError::AlreadyExists),
        ),
        form@.valid() && !has_user(old(store)@, form.username@) && !(MIN_COST <= cost <= MAX_COST)
            ==> r == Err::<(), RegisterError>(RegisterError::Hash(HashError::CostNotAllowed)),
        form@.valid() && !has_user(old(store)@, form.username@) && MIN_COST <= cost <= MAX_COST ==> (
        r is Err ==> r == Err::<(), RegisterError>(RegisterError::Hash(HashError::Unavailable))),
        r is Err ==> final(store)@ == old(store)@,
        r is Ok ==> {
            &&& final(store)@.len() == old(store)@.len() + 1
            &&& final(store)@ == old(store)@.push(final(store)@.last())
            &&& final(store)@.last().username == form.username@
            &&& final(store)@.last().admin == form.admin
            &&& bcrypt_accepts(form.password@, final(store)@.last().password)
        },
{
    if form.username.as_str().is_empty() || form.admin > 1 {
        return Err(RegisterError::Store(StoreError::InvalidRecord));
    }
    if get_user(store, form.username.as_str()).is_some() {
        return Err(RegisterError::Store(StoreError::AlreadyExists));
    }
    let hashed = match hash_password(form.password.as_str(), cost) {
        Ok(h) => h,
        Err(e) => {
            return Err(RegisterError::Hash(e));
        },
    };
    let user = User { username: form.username.clone(), password: hashed, admin: form.admin };
    match insert_user(store, user) {
        Ok(()) => Ok(()),
        Err(e) => Err(RegisterError::Store(e)),
    }
}

/// Checks `form` against the store and, when the password matches, opens a
/// session for the user under the caller's fresh random `token`, which is
/// handed back for the session cookie. Sessions change only on success.
pub fn login(
    store: &CredentialStore,
    sessions: &mut SessionAuthority,
    form: &Login,
    token: String,
    now: usize,
) -> (r: Result<String, LoginError>)
    requires
        store.wf(),
        old(sessions).wf(),
        now + old(sessions).lifetime() <= usize::MAX,
    ensures
        final(sessions).wf(),
        final(sessions).lifetime() == old(sessions).lifetime(),
        !has_user(store@, form.username@) ==> r == Err::<String, LoginError>(LoginError::UnknownUser),
        lookup(store@, form.username@) matches Some(u) ==> {
            &&& !bcrypt_accepts(form.password@, u.password) ==> r == Err::<String, LoginError>(
                LoginError::WrongPassword,
            )
            &&& bcrypt_accepts(form.password@, u.password) && has_token(old(sessions)@, token@)
                ==> r == Err::<String, LoginError>(LoginError::TokenInUse)
            &&& bcrypt_accepts(form.password@, u.password) && !has_token(old(sessions)@, token@)
                ==> r is Ok
        },
        r matches Ok(t) ==> t@ == token@ && final(sessions)@ == issued(
            old(sessions)@,
            token@,
            form.username@,
            now,
            old(sessions).lifetime(),
        ),
        r is Err ==> final(sessions)@ == old(sessions)@,
{
    let user = match get_user(store, form.username.as_str()) {
        Some(u) => u,
        None => {
            return Err(LoginError::UnknownUser);
        },
    };
    if !verify_password(form.password.as_str(), user.password.as_str()) {
        return Err(LoginError::WrongPassword);
    }
    let kept = token.clone();
    match sessions.issue(form.username.as_str(), token, now) {
        Ok(()) => Ok(kept),
        Err(IssueError::TokenInUse) => Err(LoginError::TokenInUse),
    }
}

} // verus!
