//! Password hashing with argon2id.

use vstd::prelude::*;
use vstd::string::*;
use argon2::password_hash::{PasswordHasher, PasswordVerifier};
use crate::errors::AppError;
use crate::text::starts_with;

verus! {

/// Whether `argon2::password_hash::PasswordHash::new` accepts `hash` as a
/// PHC string.
pub uninterp spec fn argon2_phc_parses(hash: Seq<char>) -> bool;

/// Whether `Argon2::default().verify_password` accepts `password` against
/// the parsed PHC string `hash`.
pub uninterp spec fn argon2_accepts(password: Seq<char>, hash: Seq<char>) -> bool;

/// The PHC string that `Argon2::default().hash_password` produces for
/// `password` and the base64 salt `salt`, or `None` when it fails.
pub uninterp spec fn argon2_phc_string(password: Seq<char>, salt: Seq<char>) -> Option<Seq<char>>;

/// Calls `SaltString::generate` with the operating system's random number
/// generator and returns the salt's base64 text. Nothing is claimed of the
/// result: it is random.
#[verifier::external_body]
fn fresh_salt() -> String {
    argon2::password_hash::SaltString::generate(&mut argon2::password_hash::rand_core::OsRng)
        .as_str()
        .to_string()
}

/// Calls `Argon2::default().hash_password` on `password` with the base64
/// salt `salt` (converted by `SaltString::from_b64`) and returns the PHC
/// string. Claims: the result is the named value; a produced string is
/// accepted by `PasswordHash::new` and verifies `password` (the round trip
/// the argon2 crate documents).
#[verifier::external_body]
fn argon2_hash_with_salt(password: &str, salt: &str) -> (r: Result<String, String>)
    ensures
        r is Ok <==> argon2_phc_string(password@, salt@) is Some,
        r matches Ok(h) ==> h@ == argon2_phc_string(password@, salt@).unwrap()
            && argon2_phc_parses(h@) && argon2_accepts(password@, h@),
{
    let salt = argon2::password_hash::SaltString::from_b64(salt).map_err(|e| e.to_string())?;
    argon2::Argon2::default()
        .hash_password(password.as_bytes(), &salt)
        .map(|h| h.to_string())
        .map_err(|e| e.to_string())
}

/// Calls `PasswordHash::new(hash)` and, when it parses, returns whether
/// `Argon2::default().verify_password(password, parsed)` succeeds; the parse
/// error's text otherwise. Claims: the outcome is given by the two names
/// above.
#[verifier::external_body]
fn argon2_verify(password: &str, hash: &str) -> (r: Result<bool, String>)
    ensures
        r is Ok <==> argon2_phc_parses(hash@),
        r matches Ok(b) ==> b == argon2_accepts(password@, hash@),
{
    match argon2::password_hash::PasswordHash::new(hash) {
        Err(e) => Err(e.to_string()),
        Ok(parsed) => Ok(argon2::Argon2::default().verify_password(password.as_bytes(), &parsed).is_ok()),
    }
}

/// What verifying `password` against the stored `hash` yields: `None` when
/// the stored hash is not a PHC string.
pub open spec fn verification(password: Seq<char>, hash: Seq<char>) -> Option<bool> {
    if argon2_phc_parses(hash) {
        Some(argon2_accepts(password, hash))
    } else {
        None
    }
}

/// Argon2id password hashing with the crate's default parameters.
#[derive(Debug, Clone)]
pub struct PasswordService {}

impl PasswordService {
    pub fn new() -> (r: PasswordService) {
        PasswordService {}
    }

    /// Hash a password with a fresh random salt. A hash it returns verifies
    /// the same password.
    pub fn hash_blocking(&self, password: &str) -> (r: Result<String, AppError>)
        ensures
            r matches Ok(h) ==> verification(password@, h@) == Some(true),
            r matches Err(e) ==> (e matches AppError::Infra(m) && starts_with(m@, "argon2 hash: "@)),
    {
        let salt = fresh_salt();
        match argon2_hash_with_salt(password, salt.as_str()) {
            Ok(h) => Ok(h),
            Err(e) => {
                let m = String::from_str("argon2 hash: ").concat(e.as_str());
                assert(m@.subrange(0, "argon2 hash: "@.len() as int) == "argon2 hash: "@);
                Err(AppError::Infra(m))
            },
        }
    }

    /// Verify a password against a stored hash; a stored value that is not a
    /// PHC string is an infrastructure error.
    pub fn verify_blocking(&self, password: &str, hash: &str) -> (r: Result<bool, AppError>)
        ensures
            match verification(password@, hash@) {
                Some(b) => r == Ok::<bool, AppError>(b),
                None => (r matches Err(AppError::Infra(m)) && starts_with(m@, "argon2 parse: "@)),
            },
    {
        match argon2_verify(password, hash) {
            Ok(b) => Ok(b),
            Err(e) => {
                let m = String::from_str("argon2 parse: ").concat(e.as_str());
                assert(m@.subrange(0, "argon2 parse: "@.len() as int) == "argon2 parse: "@);
                Err(AppError::Infra(m))
            },
        }
    }
}

} // verus!
