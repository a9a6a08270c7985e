use vstd::prelude::*;

verus! {

/// Cost factor used where none is configured.
pub const DEFAULT_COST: u32 = 12;

/// Smallest cost factor that bcrypt accepts.
pub const MIN_COST: u32 = 4;

/// Largest cost factor that bcrypt accepts.
pub const MAX_COST: u32 = 31;

/// Whether `bcrypt::verify(password, hash)` returns `Ok(true)`: the hash parses
/// as a bcrypt hash and re-hashing the password with its cost and salt gives it.
pub uninterp spec fn bcrypt_accepts(password: Seq<char>, hash: Seq<char>) -> bool;

/// Opaque failure of the bcrypt crate (bad cost, no OS randomness, malformed hash).
#[verifier::external_type_specification]
#[verifier::external_body]
pub struct ExBcryptError(bcrypt::BcryptError);

/// Relies on `bcrypt::hash`: it fails when the cost lies outside 4..=31, and
/// otherwise (given OS randomness) formats cost, random salt and digest so that
/// `bcrypt::verify` on the same password recomputes the same digest.
#[verifier::external_body]
fn bcrypt_hash(password: &str, cost: u32) -> (r: Result<String, bcrypt::BcryptError>)
    ensures
        !(MIN_COST <= cost <= MAX_COST) ==> r is Err,
        r matches Ok(h) ==> bcrypt_accepts(password@, h@),
{
    bcrypt::hash(password, cost)
}

/// Relies on `bcrypt::verify`: deterministic in its arguments; `Ok(true)`
/// exactly when the password matches the hash.
#[verifier::external_body]
fn bcrypt_verify(password: &str, hash: &str) -> (r: Result<bool, bcrypt::BcryptError>)
    ensures
        (r matches Ok(b) && b) == bcrypt_accepts(password@, hash@),
{
    bcrypt::verify(password, hash)
}

/// The hash could not be made: the cost factor is out of range, or the
/// operating system gave no randomness for the salt.
#[derive(Debug, PartialEq, Eq, Structural)]
pub enum HashError {
    CostNotAllowed,
    Unavailable,
}

/// Hashes `plain` with a fresh random salt at the given cost. Every hash that
/// comes back verifies against `plain`.
pub fn hash_password(plain: &str, cost: u32) -> (r: Result<String, HashError>)
    ensures
        !(MIN_COST <= cost <= MAX_COST) ==> r == Err::<String, HashError>(HashError::CostNotAllowed),
        MIN_COST <= cost <= MAX_COST ==> (r is Err ==> r == Err::<String, HashError>(HashError::Unavailable)),
        r matches Ok(h) ==> bcrypt_accepts(plain@, h@),
{
    if cost < MIN_COST || cost > MAX_COST {
        return Err(HashError::CostNotAllowed);
    }
    match bcrypt_hash(plain, cost) {
        Ok(h) => Ok(h),
        Err(_) => Err(HashError::Unavailable),
    }
}

/// Whether `plain` matches `hash`. A malformed hash gives `false`, never an error.
pub fn verify_password(plain: &str, hash: &str) -> (r: bool)
    ensures
        r == bcrypt_accepts(plain@, hash@),
{
    match bcrypt_verify(plain, hash) {
        Ok(b) => b,
        Err(_) => false,
    }
}

} // verus!
