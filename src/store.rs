use vstd::prelude::*;
use crate::user::{User, UserRecord};

verus! {

/// Why a record was not stored.
#[derive(Debug, PartialEq, Eq, Structural)]
pub enum StoreError {
    /// A record with the same username is already present.
    AlreadyExists,
    /// The record breaks the schema: empty username, or a flag other than 0 or 1.
    InvalidRecord,
    /// The durable storage behind the store failed.
    StorageError,
}

/// No two records share a username.
pub open spec fn names_unique(s: Seq<UserRecord>) -> bool {
    forall|i: int, j: int|
        0 <= i < s.len() && 0 <= j < s.len() && i != j ==> #[trigger] s[i].username
            != #[trigger] s[j].username
}

/// Some record carries exactly this username.
pub open spec fn has_user(s: Seq<UserRecord>, name: Seq<char>) -> bool {
    exists|i: int| 0 <= i < s.len() && #[trigger] s[i].username == name
}

/// The record stored under exactly this username, if any.
pub open spec fn lookup(s: Seq<UserRecord>, name: Seq<char>) -> Option<UserRecord> {
    if has_user(s, name) {
        Some(s[choose|i: int| 0 <= i < s.len() && #[trigger] s[i].username == name])
    } else {
        None
    }
}

/// What inserting `u` into `s` returns, and the records afterwards.
pub open spec fn insert_outcome(s: Seq<UserRecord>, u: UserRecord) -> (
    Result<(), StoreError>,
    Seq<UserRecord>,
) {
    if !u.valid() {
        (Err(StoreError::InvalidRecord), s)
    } else if has_user(s, u.username) {
        (Err(StoreError::AlreadyExists), s)
    } else {
        (Ok(()), s.push(u))
    }
}

/// The credential store: user records keyed by their exact, case-sensitive username.
pub struct CredentialStore {
    users: Vec<User>,
}

impl View for CredentialStore {
    type V = Seq<UserRecord>;

    closed spec fn view(&self) -> Seq<UserRecord> {
        self.users@.map_values(|u: User| u@)
    }
}

impl CredentialStore {
    /// Usernames are unique and every record is valid.
    pub open spec fn wf(&self) -> bool {
        &&& names_unique(self@)
        &&& forall|i: int| 0 <= i < self@.len() ==> (#[trigger] self@[i]).valid()
    }

    pub fn new() -> (r: CredentialStore)
        ensures
            r.wf(),
            r@ == Seq::<UserRecord>::empty(),
    {
        let r = CredentialStore { users: Vec::new() };
        assert(r@ =~= Seq::<UserRecord>::empty());
        r
    }

    pub fn len(&self) -> (r: usize)
        ensures
            r == self@.len(),
    {
        self.users.len()
    }
}

/// A copy of `u` with the same value.
fn copy_user(u: &User) -> (r: User)
    ensures
        r@ == u@,
{
    User { username: u.username.clone(), password: u.password.clone(), admin: u.admin }
}

/// Exact-match lookup: the record whose username equals `username`, if any.
pub fn get_user(store: &CredentialStore, username: &str) -> (r: Option<User>)
    requires
        store.wf(),
    ensures
        r is Some <==> has_user(store@, username@),
        r matches Some(u) ==> lookup(store@, username@) == Some(u@),
{
    let name = username.to_owned();
    let ghost s = store@;
    let mut i: usize = 0;
    while i < store.users.len()
        invariant
            store.wf(),
            s == store@,
            name@ == username@,
            0 <= i <= store.users.len(),
            store.users@.len() == s.len(),
            forall|j: int| 0 <= j < i ==> s[j].username != username@,
        decreases store.users.len() - i,
    {
        if store.users[i].username == name {
            let u = copy_user(&store.users[i]);
            proof {
                assert(s[i as int] == store.users@[i as int]@);
                assert(has_user(s, username@));
                let k = choose|k: int| 0 <= k < s.len() && #[trigger] s[k].username == username@;
                assert(k == i);
            }
            return Some(u);
        }
        proof {
            assert(s[i as int] == store.users@[i as int]@);
        }
        i = i + 1;
    }
    proof {
        assert(!has_user(s, username@));
    }
    None
}

/// Stores `user` unless the record is invalid or its username is taken; on
/// failure the store is left as it was.
pub fn insert_user(store: &mut CredentialStore, user: User) -> (r: Result<(), StoreError>)
    requires
        old(store).wf(),
    ensures
        final(store).wf(),
        (r, final(store)@) == insert_outcome(old(store)@, user@),
{
    if user.username.as_str().is_empty() || user.admin > 1 {
        return Err(StoreError::InvalidRecord);
    }
    let present = get_user(store, user.username.as_str());
    if present.is_some() {
        return Err(StoreError::AlreadyExists);
    }
    let ghost s0 = store@;
    store.users.push(user);
    proof {
        assert(store@ =~= s0.push(user@));
        assert(names_unique(store@)) by {
            assert forall|i: int, j: int|
                0 <= i < store@.len() && 0 <= j < store@.len() && i != j implies #[trigger] store@[i].username
                != #[trigger] store@[j].username by {
                if i == s0.len() as int {
                    assert(store@[j] == s0[j]);
                } else if j == s0.len() as int {
                    assert(store@[i] == s0[i]);
                }
            }
        }
    }
    Ok(())
}


/// What inserting each of `us` in turn into `s` returns, one result per record.
pub open spec fn insert_results(s: Seq<UserRecord>, us: Seq<UserRecord>) -> Seq<
    Result<(), StoreError>,
>
    decreases us.len(),
{
    if us.len() == 0 {
        Seq::empty()
    } else {
        let (r, s2) = insert_outcome(s, us[0]);
        seq![r] + insert_results(s2, us.drop_first())
    }
}

/// Once a username is present, every further insert under it is refused as
/// already existing.
pub proof fn lemma_taken_stays_taken(s: Seq<UserRecord>, name: Seq<char>, us: Seq<UserRecord>)
    requires
        has_user(s, name),
        forall|i: int| 0 <= i < us.len() ==> (#[trigger] us[i]).username == name && us[i].valid(),
    ensures
        insert_results(s, us).len() == us.len(),
        forall|i: int| 0 <= i < us.len() ==> #[trigger] insert_results(s, us)[i] == Err::<(), StoreError>(StoreError::AlreadyExists),
    decreases us.len(),
{
    if us.len() > 0 {
        let rest = us.drop_first();
        assert forall|i: int| 0 <= i < rest.len() implies (#[trigger] rest[i]).username == name && rest[i].valid() by {
            assert(rest[i] == us[i + 1]);
        }
        lemma_taken_stays_taken(s, name, rest);
        let out = insert_results(s, us);
        assert forall|i: int| 0 <= i < us.len() implies #[trigger] out[i] == Err::<(), StoreError>(StoreError::AlreadyExists) by {
            if i > 0 {
                assert(out[i] == insert_results(s, rest)[i - 1]);
            }
        }
    }
}

/// Registering one username many times over: starting from a store without
/// it, the first insert succeeds and every later one fails with `AlreadyExists`,
/// so exactly one record is created.
pub proof fn lemma_single_winner(s: Seq<UserRecord>, name: Seq<char>, us: Seq<UserRecord>)
    requires
        !has_user(s, name),
        us.len() >= 1,
        forall|i: int| 0 <= i < us.len() ==> (#[trigger] us[i]).username == name && us[i].valid(),
    ensures
        insert_results(s, us).len() == us.len(),
        insert_results(s, us)[0] == Ok::<(), StoreError>(()),
        forall|i: int| 1 <= i < us.len() ==> #[trigger] insert_results(s, us)[i] == Err::<(), StoreError>(StoreError::AlreadyExists),
{
    let first = us[0];
    assert(first.username == name && first.valid());
    let s2 = s.push(first);
    assert(s2[s.len() as int].username == name);
    assert(has_user(s2, name));
    let rest = us.drop_first();
    assert forall|i: int| 0 <= i < rest.len() implies (#[trigger] rest[i]).username == name && rest[i].valid() by {
        assert(rest[i] == us[i + 1]);
    }
    lemma_taken_stays_taken(s2, name, rest);
    let out = insert_results(s, us);
    assert(out == seq![Ok::<(), StoreError>(())] + insert_results(s2, rest));
    assert forall|i: int| 1 <= i < us.len() implies #[trigger] out[i] == Err::<(), StoreError>(StoreError::AlreadyExists) by {
        assert(out[i] == insert_results(s2, rest)[i - 1]);
    }
}

} // verus!
