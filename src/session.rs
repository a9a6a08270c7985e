use vstd::prelude::*;
use crate::user::Claims;

verus! {

/// Lifetime of a session in seconds: ten minutes.
pub const SESSION_TTL_SECS: usize = 600;

/// Why a token does not stand for a logged-in user.
#[derive(Debug, PartialEq, Eq, Structural)]
pub enum SessionError {
    /// Malformed, never issued, or altered.
    Invalid,
    /// Issued, but its lifetime has run out.
    Expired,
}

/// Why a session was not issued.
#[derive(Debug, PartialEq, Eq, Structural)]
pub enum IssueError {
    /// The offered token already names a live session.
    TokenInUse,
}

/// One issued session: its token, what it asserts, and when it stops being valid.
#[derive(Debug)]
pub struct Session {
    pub token: String,
    pub claims: Claims,
    pub expires_at: usize,
}

/// The mathematical value of a `Session`.
pub struct SessionRecord {
    pub token: Seq<char>,
    pub username: Seq<char>,
    pub issued_at: usize,
    pub expires_at: usize,
}

impl View for Session {
    type V = SessionRecord;

    open spec fn view(&self) -> SessionRecord {
        SessionRecord {
            token: self.token@,
            username: self.claims.username@,
            issued_at: self.claims.tstamp,
            expires_at: self.expires_at,
        }
    }
}

/// No two sessions share a token.
pub open spec fn tokens_unique(s: Seq<SessionRecord>) -> bool {
    forall|i: int, j: int|
        0 <= i < s.len() && 0 <= j < s.len() && i != j ==> #[trigger] s[i].token
            != #[trigger] s[j].token
}

/// Some session carries exactly this token.
pub open spec fn has_token(s: Seq<SessionRecord>, token: Seq<char>) -> bool {
    exists|i: int| 0 <= i < s.len() && #[trigger] s[i].token == token
}

/// The session named by this token, if any.
pub open spec fn find_session(s: Seq<SessionRecord>, token: Seq<char>) -> Option<SessionRecord> {
    if has_token(s, token) {
        Some(s[choose|i: int| 0 <= i < s.len() && #[trigger] s[i].token == token])
    } else {
        None
    }
}

/// What a token stands for at time `now`: the bound username while `now` is
/// before the session's expiry, `Expired` after, `Invalid` for an unknown token.
pub open spec fn status(s: Seq<SessionRecord>, token: Seq<char>, now: int) -> Result<
    Seq<char>,
    SessionError,
> {
    match find_session(s, token) {
        None => Err(SessionError::Invalid),
        Some(x) => if now < x.expires_at {
            Ok(x.username)
        } else {
            Err(SessionError::Expired)
        },
    }
}

/// The sessions after issuing `token` to `username` at `now` with lifetime `ttl`.
pub open spec fn issued(
    s: Seq<SessionRecord>,
    token: Seq<char>,
    username: Seq<char>,
    now: usize,
    ttl: usize,
) -> Seq<SessionRecord> {
    s.push(
        SessionRecord {
            token,
            username,
            issued_at: now,
            expires_at: (now + ttl) as usize,
        },
    )
}

/// A copy of `x` with the same value.
fn copy_session(x: &Session) -> (r: Session)
    ensures
        r@ == x@,
{
    Session {
        token: x.token.clone(),
        claims: Claims { username: x.claims.username.clone(), tstamp: x.claims.tstamp },
        expires_at: x.expires_at,
    }
}

/// Server-side session table: each token is a random identifier handed to
/// the client, resolved here to the user it was issued to.
pub struct SessionAuthority {
    sessions: Vec<Session>,
    ttl: usize,
}

impl View for SessionAuthority {
    type V = Seq<SessionRecord>;

    closed spec fn view(&self) -> Seq<SessionRecord> {
        self.sessions@.map_values(|x: Session| x@)
    }
}

impl SessionAuthority {
    /// The fixed lifetime of every session issued here.
    pub closed spec fn lifetime(&self) -> usize {
        self.ttl
    }

    /// Tokens are unique, and every session expires one lifetime after issue.
    pub open spec fn wf(&self) -> bool {
        &&& tokens_unique(self@)
        &&& forall|i: int|
            0 <= i < self@.len() ==> (#[trigger] self@[i]).expires_at == self@[i].issued_at
                + self.lifetime()
    }

    pub fn new(ttl: usize) -> (r: SessionAuthority)
        ensures
            r.wf(),
            r@ == Seq::<SessionRecord>::empty(),
            r.lifetime() == ttl,
    {
        let r = SessionAuthority { sessions: Vec::new(), ttl };
        assert(r@ =~= Seq::<SessionRecord>::empty());
        r
    }

    pub fn ttl(&self) -> (r: usize)
        ensures
            r == self.lifetime(),
    {
        self.ttl
    }

    pub fn len(&self) -> (r: usize)
        ensures
            r == self@.len(),
    {
        self.sessions.len()
    }

    /// Index of the session with this token, if any.
    fn position(&self, token: &str) -> (r: Option<usize>)
        requires
            self.wf(),
        ensures
            r is None <==> !has_token(self@, token@),
            r matches Some(i) ==> i < self@.len() && find_session(self@, token@) == Some(self@[i as int]),
    {
        let t = token.to_owned();
        let mut i: usize = 0;
        while i < self.sessions.len()
            invariant
                self.wf(),
                t@ == token@,
                0 <= i <= self.sessions.len(),
                self.sessions@.len() == self@.len(),
                forall|j: int| 0 <= j < i ==> self@[j].token != token@,
            decreases self.sessions.len() - i,
        {
            proof {
                assert(self@[i as int] == self.sessions@[i as int]@);
            }
            if self.sessions[i].token == t {
                proof {
                    assert(self@[i as int].token == token@);
                    assert(has_token(self@, token@));
                    let k = choose|k: int|
                        0 <= k < self@.len() && #[trigger] self@[k].token == token@;
                    assert(k == i);
                }
                return Some(i);
            }
            i = i + 1;
        }
        None
    }

    /// Creates a session for `username` at time `now` under the caller's
    /// random `token`, expiring one lifetime later. A token already in use is
    /// refused and nothing changes.
    pub fn issue(&mut self, username: &str, token: String, now: usize) -> (r: Result<(), IssueError>)
        requires
            old(self).wf(),
            now + old(self).lifetime() <= usize::MAX,
        ensures
            final(self).wf(),
            final(self).lifetime() == old(self).lifetime(),
            r is Ok <==> !has_token(old(self)@, token@),
            r is Ok ==> final(self)@ == issued(old(self)@, token@, username@, now, old(self).lifetime()),
            r is Err ==> final(self)@ == old(self)@,
    {
        if self.position(token.as_str()).is_some() {
            return Err(IssueError::TokenInUse);
        }
        let ghost s0 = self@;
        let expires_at = now + self.ttl;
        let session = Session { token, claims: Claims { username: username.to_owned(), tstamp: now }, expires_at };
        self.sessions.push(session);
        proof {
            assert(self@ =~= issued(s0, token@, username@, now, self.ttl));
            assert(tokens_unique(self@)) by {
                assert forall|i: int, j: int|
                    0 <= i < self@.len() && 0 <= j < self@.len() && i != j implies #[trigger] self@[i].token
                    != #[trigger] self@[j].token by {
                    if i == s0.len() as int {
                        assert(self@[j] == s0[j]);
                    } else if j == s0.len() as int {
                        assert(self@[i] == s0[i]);
                    }
                }
            }
            assert forall|i: int| 0 <= i < self@.len() implies (#[trigger] self@[i]).expires_at
                == self@[i].issued_at + self.lifetime() by {
                if i < s0.len() {
                    assert(self@[i] == s0[i]);
                }
            }
        }
        Ok(())
    }

    /// Drops every session whose lifetime has run out at `now`; the live ones stay.
    pub fn purge_expired(&mut self, now: usize)
        requires
            old(self).wf(),
        ensures
            final(self).wf(),
            final(self).lifetime() == old(self).lifetime(),
            forall|x: SessionRecord|
                #[trigger] final(self)@.contains(x) <==> old(self)@.contains(x) && now < x.expires_at,
    {
        let ghost s0 = self@;
        let mut kept: Vec<Session> = Vec::new();
        let ghost mut src: Seq<int> = Seq::empty();
        let mut i: usize = 0;
        while i < self.sessions.len()
            invariant
                self.wf(),
                self@ == s0,
                self.sessions@.len() == s0.len(),
                0 <= i <= self.sessions.len(),
                src.len() == kept@.len(),
                forall|k: int|
                    0 <= k < kept@.len() ==> 0 <= #[trigger] src[k] < i && s0[src[k]] == kept@[k]@
                        && now < s0[src[k]].expires_at,
                forall|k1: int, k2: int|
                    0 <= k1 < k2 < kept@.len() ==> #[trigger] src[k1] < #[trigger] src[k2],
                forall|j: int|
                    0 <= j < i && now < s0[j].expires_at ==> exists|k: int|
                        0 <= k < kept@.len() && #[trigger] src[k] == j,
            decreases self.sessions.len() - i,
        {
            proof {
                assert(s0[i as int] == self.sessions@[i as int]@);
            }
            if now < self.sessions[i].expires_at {
                let x = copy_session(&self.sessions[i]);
                let ghost old_src = src;
                kept.push(x);
                proof {
                    src = src.push(i as int);
                    assert forall|j: int| 0 <= j < i + 1 && now < s0[j].expires_at implies exists|k: int|
                        0 <= k < kept@.len() && #[trigger] src[k] == j by {
                        if j == i as int {
                            assert(src[old_src.len() as int] == j);
                        } else {
                            let k = choose|k: int| 0 <= k < old_src.len() && #[trigger] old_src[k] == j;
                            assert(src[k] == j);
                        }
                    }
                }
            }
            i = i + 1;
        }
        self.sessions = kept;
        proof {
            assert forall|a: int, b: int|
                0 <= a < self@.len() && 0 <= b < self@.len() && a != b implies #[trigger] self@[a].token
                != #[trigger] self@[b].token by {
                assert(self@[a] == self.sessions@[a]@ && self@[b] == self.sessions@[b]@);
                assert(src[a] != src[b]) by {
                    if a < b {
                        assert(src[a] < src[b]);
                    } else {
                        assert(src[b] < src[a]);
                    }
                }
                assert(s0[src[a]] == self@[a] && s0[src[b]] == self@[b]);
            }
            assert forall|x: SessionRecord| #[trigger] self@.contains(x) implies s0.contains(x) && now
                < x.expires_at by {
                let k = choose|k: int| 0 <= k < self@.len() && self@[k] == x;
                assert(self@[k] == self.sessions@[k]@);
                assert(s0[src[k]] == x);
            }
            assert forall|x: SessionRecord| s0.contains(x) && now < x.expires_at implies #[trigger] self@.contains(x) by {
                let j = choose|j: int| 0 <= j < s0.len() && s0[j] == x;
                let k = choose|k: int| 0 <= k < self.sessions@.len() && #[trigger] src[k] == j;
                assert(self@[k] == self.sessions@[k]@);
                assert(self@[k] == x);
            }
            assert forall|i: int| 0 <= i < self@.len() implies (#[trigger] self@[i]).expires_at
                == self@[i].issued_at + self.lifetime() by {
                assert(self@[i] == self.sessions@[i]@);
                assert(s0[src[i]] == self@[i]);
            }
        }
    }

    /// The username bound to `token` while its session is live at `now`.
    pub fn validate(&self, token: &str, now: usize) -> (r: Result<String, SessionError>)
        requires
            self.wf(),
        ensures
            r matches Ok(u) ==> status(self@, token@, now as int) == Ok::<Seq<char>, SessionError>(u@),
            r matches Err(e) ==> status(self@, token@, now as int) == Err::<Seq<char>, SessionError>(e),
    {
        match self.position(token) {
            None => Err(SessionError::Invalid),
            Some(i) => {
                proof {
                    assert(self@[i as int] == self.sessions@[i as int]@);
                }
                if now < self.sessions[i].expires_at {
                    Ok(self.sessions[i].claims.username.clone())
                } else {
                    Err(SessionError::Expired)
                }
            },
        }
    }
}

/// A session issued at `t` with lifetime `ttl` resolves to its user at every
/// `t2` with `t <= t2 < t + ttl`, and is `Expired` at every `t2 >= t + ttl`.
pub proof fn lemma_expiry_window(
    s: Seq<SessionRecord>,
    token: Seq<char>,
    username: Seq<char>,
    t: usize,
    ttl: usize,
    t2: int,
)
    requires
        tokens_unique(s),
        !has_token(s, token),
        t + ttl <= usize::MAX,
    ensures
        t <= t2 < t + ttl ==> status(issued(s, token, username, t, ttl), token, t2) == Ok::<
            Seq<char>,
            SessionError,
        >(username),
        t2 >= t + ttl ==> status(issued(s, token, username, t, ttl), token, t2) == Err::<
            Seq<char>,
            SessionError,
        >(SessionError::Expired),
{
    let s2 = issued(s, token, username, t, ttl);
    let n = s.len() as int;
    assert(s2[n].token == token);
    assert(has_token(s2, token));
    let k = choose|k: int| 0 <= k < s2.len() && #[trigger] s2[k].token == token;
    if k != n {
        assert(s2[k] == s[k]);
    }
    assert(find_session(s2, token) == Some(s2[n]));
}

/// A token that was never issued, such as an issued token with any bit
/// flipped that does not happen to equal another issued token, is `Invalid`.
pub proof fn lemma_unknown_token_invalid(s: Seq<SessionRecord>, token: Seq<char>, now: int)
    requires
        !has_token(s, token),
    ensures
        status(s, token, now) == Err::<Seq<char>, SessionError>(SessionError::Invalid),
{
}

/// A token resolves only to the username that a session under exactly that
/// token was issued to.
pub proof fn lemma_resolves_to_issued_user(s: Seq<SessionRecord>, token: Seq<char>, now: int)
    ensures
        status(s, token, now) matches Ok(u) ==> exists|i: int|
            0 <= i < s.len() && #[trigger] s[i].token == token && s[i].username == u,
{
    if has_token(s, token) {
        let k = choose|k: int| 0 <= k < s.len() && #[trigger] s[k].token == token;
        assert(s[k].token == token);
    }
}

} // verus!
