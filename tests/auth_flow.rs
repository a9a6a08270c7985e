use dashboard_auth::auth::{login, register, LoginError, RegisterError};
use dashboard_auth::guard::{authorize, authorize_identity, check_token, Identity, Unauthorized};
use dashboard_auth::password::{hash_password, verify_password, HashError};
use dashboard_auth::session::{IssueError, SessionAuthority, SessionError, SESSION_TTL_SECS};
use dashboard_auth::store::{get_user, insert_user, CredentialStore, StoreError};
use dashboard_auth::user::{Login, User};

const COST: u32 = 4;

fn form(username: &str, password: &str) -> User {
    User::new(username.to_string(), password.to_string(), 0)
}

fn creds(username: &str, password: &str) -> Login {
    Login::new(username.to_string(), password.to_string())
}

#[test]
fn hashes_differ_but_both_verify() {
    let a = hash_password("pw1", COST).unwrap();
    let b = hash_password("pw1", COST).unwrap();
    assert_ne!(a, b);
    assert_ne!(a, "pw1");
    assert!(verify_password("pw1", &a));
    assert!(verify_password("pw1", &b));
    assert!(!verify_password("pw2", &a));
    assert!(!verify_password("", &a));
}

#[test]
fn malformed_hash_does_not_verify() {
    assert!(!verify_password("pw1", "not a hash"));
    assert!(!verify_password("pw1", ""));
}

#[test]
fn cost_out_of_range_is_refused() {
    assert_eq!(hash_password("pw1", 3), Err(HashError::CostNotAllowed));
    assert_eq!(hash_password("pw1", 32), Err(HashError::CostNotAllowed));
}

#[test]
fn lookup_is_exact_and_case_sensitive() {
    let mut store = CredentialStore::new();
    assert_eq!(insert_user(&mut store, User::new("Alice".to_string(), "h".to_string(), 1)), Ok(()));
    let u = get_user(&store, "Alice").unwrap();
    assert_eq!(u.username, "Alice");
    assert_eq!(u.password, "h");
    assert!(u.is_admin());
    assert!(get_user(&store, "alice").is_none());
    assert!(get_user(&store, "Alic").is_none());
    assert!(get_user(&store, "Alice ").is_none());
}

#[test]
fn invalid_records_are_refused() {
    let mut store = CredentialStore::new();
    assert_eq!(insert_user(&mut store, User::new(String::new(), "h".to_string(), 0)), Err(StoreError::InvalidRecord));
    assert_eq!(insert_user(&mut store, User::new("eve".to_string(), "h".to_string(), 2)), Err(StoreError::InvalidRecord));
    assert_eq!(store.len(), 0);
}

#[test]
fn repeated_registration_has_one_winner() {
    let mut store = CredentialStore::new();
    let mut ok = 0;
    let mut taken = 0;
    for i in 0..8 {
        let r = insert_user(&mut store, User::new("carol".to_string(), format!("h{i}"), 0));
        match r {
            Ok(()) => ok += 1,
            Err(StoreError::AlreadyExists) => taken += 1,
            Err(e) => panic!("unexpected {e:?}"),
        }
    }
    assert_eq!(ok, 1);
    assert_eq!(taken, 7);
    assert_eq!(store.len(), 1);
    assert_eq!(get_user(&store, "carol").unwrap().password, "h0");
}

#[test]
fn scenario_register_twice() {
    let mut store = CredentialStore::new();
    assert_eq!(register(&mut store, &form("alice", "pw1"), COST), Ok(()));
    assert_eq!(
        register(&mut store, &form("alice", "pw1"), COST),
        Err(RegisterError::Store(StoreError::AlreadyExists))
    );
    assert_eq!(store.len(), 1);
    let stored = get_user(&store, "alice").unwrap();
    assert_ne!(stored.password, "pw1");
    assert!(verify_password("pw1", &stored.password));
}

#[test]
fn register_refuses_bad_input() {
    let mut store = CredentialStore::new();
    assert_eq!(register(&mut store, &form("", "pw"), COST), Err(RegisterError::Store(StoreError::InvalidRecord)));
    assert_eq!(
        register(&mut store, &User::new("dan".to_string(), "pw".to_string(), 7), COST),
        Err(RegisterError::Store(StoreError::InvalidRecord))
    );
    assert_eq!(register(&mut store, &form("dan", "pw"), 2), Err(RegisterError::Hash(HashError::CostNotAllowed)));
    assert_eq!(store.len(), 0);
}

#[test]
fn scenario_login_then_dashboard() {
    let mut store = CredentialStore::new();
    let mut sessions = SessionAuthority::new(SESSION_TTL_SECS);
    assert_eq!(register(&mut store, &form("bob", "secret"), COST), Ok(()));
    let token = login(&store, &mut sessions, &creds("bob", "secret"), "tok-1".to_string(), 1000).unwrap();
    assert_eq!(token, "tok-1");
    assert_eq!(authorize(&sessions, Some(token.as_str()), 1000), Ok("bob".to_string()));
    assert_eq!(authorize(&sessions, Some(token.as_str()), 1599), Ok("bob".to_string()));
}

#[test]
fn scenario_wrong_password() {
    let mut store = CredentialStore::new();
    let mut sessions = SessionAuthority::new(SESSION_TTL_SECS);
    assert_eq!(register(&mut store, &form("bob", "secret"), COST), Ok(()));
    assert_eq!(
        login(&store, &mut sessions, &creds("bob", "wrong"), "tok-1".to_string(), 1000),
        Err(LoginError::WrongPassword)
    );
    assert_eq!(sessions.len(), 0);
    assert_eq!(authorize(&sessions, Some("tok-1"), 1000), Err(Unauthorized::InvalidToken));
}

#[test]
fn unknown_user_cannot_log_in() {
    let store = CredentialStore::new();
    let mut sessions = SessionAuthority::new(SESSION_TTL_SECS);
    assert_eq!(
        login(&store, &mut sessions, &creds("nobody", "x"), "tok-1".to_string(), 5),
        Err(LoginError::UnknownUser)
    );
    assert_eq!(sessions.len(), 0);
}

#[test]
fn scenario_session_expires() {
    let mut store = CredentialStore::new();
    let mut sessions = SessionAuthority::new(SESSION_TTL_SECS);
    assert_eq!(register(&mut store, &form("bob", "secret"), COST), Ok(()));
    let token = login(&store, &mut sessions, &creds("bob", "secret"), "tok-9".to_string(), 1000).unwrap();
    assert_eq!(authorize(&sessions, Some(token.as_str()), 1600), Err(Unauthorized::ExpiredToken));
    assert_eq!(authorize(&sessions, Some(token.as_str()), 100_000), Err(Unauthorized::ExpiredToken));
}

#[test]
fn login_refuses_token_in_use() {
    let mut store = CredentialStore::new();
    let mut sessions = SessionAuthority::new(60);
    assert_eq!(register(&mut store, &form("bob", "secret"), COST), Ok(()));
    assert_eq!(register(&mut store, &form("eve", "other"), COST), Ok(()));
    assert!(login(&store, &mut sessions, &creds("bob", "secret"), "same".to_string(), 0).is_ok());
    assert_eq!(
        login(&store, &mut sessions, &creds("eve", "other"), "same".to_string(), 1),
        Err(LoginError::TokenInUse)
    );
    assert_eq!(check_token(&sessions, "same", 2), Ok("bob".to_string()));
}

#[test]
fn expiry_window_is_half_open() {
    let mut sessions = SessionAuthority::new(10);
    assert_eq!(sessions.ttl(), 10);
    assert_eq!(sessions.issue("alice", "t".to_string(), 50), Ok(()));
    assert_eq!(sessions.validate("t", 50), Ok("alice".to_string()));
    assert_eq!(sessions.validate("t", 59), Ok("alice".to_string()));
    assert_eq!(sessions.validate("t", 60), Err(SessionError::Expired));
    assert_eq!(sessions.validate("t", 61), Err(SessionError::Expired));
}

#[test]
fn altered_token_is_invalid() {
    let mut sessions = SessionAuthority::new(600);
    assert_eq!(sessions.issue("alice", "a1b2c3".to_string(), 0), Ok(()));
    assert_eq!(sessions.issue("bob", "ffee00".to_string(), 0), Ok(()));
    let original = "a1b2c3".as_bytes();
    for byte in 0..original.len() {
        for bit in 0..8 {
            let mut flipped = original.to_vec();
            flipped[byte] ^= 1 << bit;
            if let Ok(t) = String::from_utf8(flipped) {
                assert_eq!(sessions.validate(&t, 1), Err(SessionError::Invalid));
            }
        }
    }
    assert_eq!(sessions.validate("a1b2c3", 1), Ok("alice".to_string()));
}

#[test]
fn duplicate_issue_changes_nothing() {
    let mut sessions = SessionAuthority::new(600);
    assert_eq!(sessions.issue("alice", "k".to_string(), 0), Ok(()));
    assert_eq!(sessions.issue("bob", "k".to_string(), 5), Err(IssueError::TokenInUse));
    assert_eq!(sessions.len(), 1);
    assert_eq!(sessions.validate("k", 5), Ok("alice".to_string()));
}

#[test]
fn missing_cookie_is_refused() {
    let sessions = SessionAuthority::new(600);
    assert_eq!(authorize(&sessions, None, 0), Err(Unauthorized::MissingToken));
    assert_eq!(authorize(&sessions, Some(""), 0), Err(Unauthorized::InvalidToken));
}

#[test]
fn purge_drops_only_expired_sessions() {
    let mut sessions = SessionAuthority::new(10);
    assert_eq!(sessions.issue("alice", "a".to_string(), 0), Ok(()));
    assert_eq!(sessions.issue("bob", "b".to_string(), 5), Ok(()));
    assert_eq!(sessions.issue("carol", "c".to_string(), 12), Ok(()));
    sessions.purge_expired(10);
    assert_eq!(sessions.len(), 2);
    assert_eq!(sessions.validate("a", 10), Err(SessionError::Invalid));
    assert_eq!(sessions.validate("b", 10), Ok("bob".to_string()));
    assert_eq!(sessions.validate("c", 10), Ok("carol".to_string()));
    sessions.purge_expired(100);
    assert_eq!(sessions.len(), 0);
}

#[test]
fn user_visible_messages() {
    assert_eq!(LoginError::UnknownUser.message(), "Invalid username or password.");
    assert_eq!(LoginError::WrongPassword.message(), LoginError::UnknownUser.message());
    assert_eq!(RegisterError::Store(StoreError::AlreadyExists).message(), "Username already taken");
    assert_eq!(Unauthorized::ExpiredToken.message(), "auth required");
    assert_eq!(Unauthorized::MissingToken.message(), Unauthorized::InvalidToken.message());
}

#[test]
fn identity_carries_admin_flag() {
    let mut store = CredentialStore::new();
    let mut sessions = SessionAuthority::new(SESSION_TTL_SECS);
    assert_eq!(register(&mut store, &User::new("root".to_string(), "pw".to_string(), 1), COST), Ok(()));
    assert_eq!(register(&mut store, &form("bob", "secret"), COST), Ok(()));
    let t1 = login(&store, &mut sessions, &creds("root", "pw"), "r".to_string(), 0).unwrap();
    let t2 = login(&store, &mut sessions, &creds("bob", "secret"), "b".to_string(), 0).unwrap();
    assert_eq!(
        authorize_identity(&store, &sessions, Some(t1.as_str()), 1),
        Ok(Identity { username: "root".to_string(), admin: true })
    );
    assert_eq!(
        authorize_identity(&store, &sessions, Some(t2.as_str()), 1),
        Ok(Identity { username: "bob".to_string(), admin: false })
    );
    assert_eq!(authorize_identity(&store, &sessions, None, 1), Err(Unauthorized::MissingToken));
    assert_eq!(authorize_identity(&store, &sessions, Some("zz"), 1), Err(Unauthorized::InvalidToken));
    assert_eq!(authorize_identity(&store, &sessions, Some("b"), 600), Err(Unauthorized::ExpiredToken));
    let empty = CredentialStore::new();
    assert_eq!(authorize_identity(&empty, &sessions, Some("b"), 1), Err(Unauthorized::InvalidToken));
}
