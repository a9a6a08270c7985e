use vstd::prelude::*;
use crate::store::{CredentialStore, get_user, lookup};
use crate::session::{SessionAuthority, SessionError, status, has_token, issued, lemma_expiry_window};

verus! {

/// Why a request to a protected page is refused. Every variant is answered
/// the same way; the distinction is kept for diagnostics.
#[derive(Debug, PartialEq, Eq, Structural)]
pub enum Unauthorized {
    /// The request carries no session cookie.
    MissingToken,
    /// The cookie names no session, or was altered.
    InvalidToken,
    /// The cookie names a session whose lifetime has run out.
    ExpiredToken,
}

impl Unauthorized {
    /// The text sent with the refusal: the same whatever the reason.
    pub fn message(&self) -> (r: &'static str)
        ensures
            r@ == "auth required"@,
    {
        "auth required"
    }
}

/// The refusal that a session failure leads to.
pub open spec fn refusal(e: SessionError) -> Unauthorized {
    match e {
        SessionError::Invalid => Unauthorized::InvalidToken,
        SessionError::Expired => Unauthorized::ExpiredToken,
    }
}

/// What the guard yields for a token at time `now`.
pub open spec fn token_access(
    authority: &SessionAuthority,
    token: Seq<char>,
    now: int,
) -> Result<Seq<char>, Unauthorized> {
    match status(authority@, token, now) {
        Ok(u) => Ok(u),
        Err(e) => Err(refusal(e)),
    }
}

/// A result with the string replaced by its characters.
pub open spec fn chars_of<E>(r: Result<String, E>) -> Result<Seq<char>, E> {
    match r {
        Ok(s) => Ok(s@),
        Err(e) => Err(e),
    }
}

/// Resolves a session token to the username it was issued to, or refuses.
pub fn check_token(authority: &SessionAuthority, token: &str, now: usize) -> (r: Result<String, Unauthorized>)
    requires
        authority.wf(),
    ensures
        chars_of(r) == token_access(authority, token@, now as int),
{
    match authority.validate(token, now) {
        Ok(u) => Ok(u),
        Err(SessionError::Invalid) => Err(Unauthorized::InvalidToken),
        Err(SessionError::Expired) => Err(Unauthorized::ExpiredToken),
    }
}

/// The guard in front of every protected page: takes the session cookie's
/// value, if the request has one, and yields the logged-in username or a refusal.
pub fn authorize(authority: &SessionAuthority, cookie: Option<&str>, now: usize) -> (r: Result<String, Unauthorized>)
    requires
        authority.wf(),
    ensures
        cookie is None ==> r == Err::<String, Unauthorized>(Unauthorized::MissingToken),
        cookie matches Some(t) ==> chars_of(r) == token_access(authority, t@, now as int),
{
    match cookie {
        None => Err(Unauthorized::MissingToken),
        Some(t) => check_token(authority, t, now),
    }
}

/// Who a request acts for: the logged-in username and the account's
/// administrator flag as the store holds it.
#[derive(Debug, PartialEq, Eq)]
pub struct Identity {
    pub username: String,
    pub admin: bool,
}

/// The guard, followed by a lookup of the account in the store for its
/// administrator flag. A session whose user the store does not hold is refused
/// as invalid.
pub fn authorize_identity(
    store: &CredentialStore,
    authority: &SessionAuthority,
    cookie: Option<&str>,
    now: usize,
) -> (r: Result<Identity, Unauthorized>)
    requires
        store.wf(),
        authority.wf(),
    ensures
        cookie is None ==> r == Err::<Identity, Unauthorized>(Unauthorized::MissingToken),
        cookie matches Some(t) ==> match token_access(authority, t@, now as int) {
            Err(e) => r == Err::<Identity, Unauthorized>(e),
            Ok(u) => match lookup(store@, u) {
                None => r == Err::<Identity, Unauthorized>(Unauthorized::InvalidToken),
                Some(rec) => r matches Ok(id) && id.username@ == u && id.admin == (rec.admin == 1),
            },
        },
{
    let username = match authorize(authority, cookie, now) {
        Ok(u) => u,
        Err(e) => {
            return Err(e);
        },
    };
    match get_user(store, username.as_str()) {
        None => Err(Unauthorized::InvalidToken),
        Some(user) => Ok(Identity { username, admin: user.admin == 1 }),
    }
}

/// Once a session is issued for `username` under `token` at time `t`, the
/// guard admits that token as `username` at every `t2` with `t <= t2 < t + ttl`
/// and refuses it as expired at every later `t2`.
pub proof fn lemma_guard_follows_issue(
    before: &SessionAuthority,
    after: &SessionAuthority,
    username: Seq<char>,
    token: Seq<char>,
    t: usize,
    t2: int,
)
    requires
        before.wf(),
        !has_token(before@, token),
        t + before.lifetime() <= usize::MAX,
        after@ == issued(before@, token, username, t, before.lifetime()),
    ensures
        t <= t2 < t + before.lifetime() ==> token_access(after, token, t2) == Ok::<
            Seq<char>,
            Unauthorized,
        >(username),
        t2 >= t + before.lifetime() ==> token_access(after, token, t2) == Err::<
            Seq<char>,
            Unauthorized,
        >(Unauthorized::ExpiredToken),
{
    lemma_expiry_window(before@, token, username, t, before.lifetime(), t2);
}

} // verus!
