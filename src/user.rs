use vstd::prelude::*;

verus! {

/// A stored account: the username, the bcrypt hash of its password, and the
/// administrator flag (0 or 1).
#[derive(Debug)]
pub struct User {
    pub username: String,
    pub password: String,
    pub admin: u8,
}

/// The mathematical value of a `User`.
pub struct UserRecord {
    pub username: Seq<char>,
    pub password: Seq<char>,
    pub admin: u8,
}

impl View for User {
    type V = UserRecord;

    open spec fn view(&self) -> UserRecord {
        UserRecord { username: self.username@, password: self.password@, admin: self.admin }
    }
}

impl UserRecord {
    /// What the schema demands of a row: a non-empty username and a flag of 0 or 1.
    pub open spec fn valid(self) -> bool {
        self.username.len() > 0 && self.admin <= 1
    }
}

impl User {
    pub fn new(username: String, password: String, admin: u8) -> (r: User)
        ensures
            r.username == username,
            r.password == password,
            r.admin == admin,
    {
        User { username, password, admin }
    }

    pub fn is_admin(&self) -> (r: bool)
        ensures
            r == (self.admin == 1),
    {
        self.admin == 1
    }
}

/// The credentials submitted with a login form.
#[derive(Debug)]
pub struct Login {
    pub username: String,
    pub password: String,
}

impl Login {
    pub fn new(username: String, password: String) -> (r: Login)
        ensures
            r.username == username,
            r.password == password,
    {
        Login { username, password }
    }
}

/// What a session asserts: who logged in, and when (seconds on the server's clock).
#[derive(Debug)]
pub struct Claims {
    pub username: String,
    pub tstamp: usize,
}

impl Claims {
    pub fn new(username: String, tstamp: usize) -> (r: Claims)
        ensures
            r.username == username,
            r.tstamp == tstamp,
    {
        Claims { username, tstamp }
    }
}

} // verus!
