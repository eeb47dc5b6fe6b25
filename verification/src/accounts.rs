//! Decisions of signing in, rotating refresh tokens and signing out. Each
//! function is one step between the reads and writes the caller performs:
//! it takes what the store answered and says what to do next.

use vstd::prelude::*;
use vstd::string::*;
use crate::errors::{tagged, AppError};
use crate::passwords::{verification, PasswordService};
use crate::roles::UserRole;
use crate::text::starts_with;
use crate::tokens::{TokenClaims, TokenKind};

verus! {

/// A user account as stored.
#[derive(Debug, Clone)]
pub struct StoredUser {
    pub id: u128,
    pub company_id: Option<u128>,
    pub password_hash: String,
    pub role: String,
}

/// Who a token pair is issued to.
#[derive(Debug, Clone, Copy, PartialEq, Eq, Structural)]
pub struct Identity {
    pub user_id: u128,
    pub company_id: Option<u128>,
    pub role: UserRole,
}

/// A token identifier to record as revoked, with its owner, kind and expiry.
#[derive(Debug, Clone)]
pub struct Revocation {
    pub jti: String,
    pub user_id: u128,
    pub kind: TokenKind,
    pub expires_at: usize,
}

/// Whether a revocation records the token with these claims.
pub open spec fn revokes(v: Revocation, c: TokenClaims) -> bool {
    v.jti@ == c.jti@ && v.user_id == c.sub && v.kind == c.kind && v.expires_at == c.exp
}

/// What a stored user is issued tokens as: their id, company and stored role.
pub open spec fn identity_of(u: StoredUser, role: UserRole) -> Identity {
    Identity { user_id: u.id, company_id: u.company_id, role }
}

fn stored_identity(u: &StoredUser) -> (r: Result<Identity, AppError>)
    ensures
        match UserRole::spec_parse(u.role@) {
            Some(role) => r == Ok::<Identity, AppError>(identity_of(*u, role)),
            None => (r matches Err(AppError::Validation(m)) && m@ == "unknown user role: "@
                + u.role@),
        },
{
    match UserRole::parse(u.role.as_str()) {
        Some(role) => Ok(Identity { user_id: u.id, company_id: u.company_id, role }),
        None => Err(AppError::Validation(tagged("unknown user role: ", u.role.as_str()))),
    }
}

/// Sign in, given the account stored under the email (`None` when there is
/// none): the password must verify against the stored hash; tokens are then
/// issued to the account with its stored role. An unknown email and a wrong
/// password are refused alike.
pub fn login_identity(stored: Option<StoredUser>, password: &str) -> (r: Result<Identity, AppError>)
    ensures
        stored is None ==> (r matches Err(AppError::Forbidden(m)) && m@ == "invalid credentials"@),
        stored matches Some(u) ==> match verification(password@, u.password_hash@) {
            None => (r matches Err(AppError::Infra(m)) && starts_with(m@, "argon2 parse: "@)),
            Some(false) => (r matches Err(AppError::Forbidden(m)) && m@ == "invalid credentials"@),
            Some(true) => match UserRole::spec_parse(u.role@) {
                Some(role) => r == Ok::<Identity, AppError>(identity_of(u, role)),
                None => (r matches Err(AppError::Validation(m)) && m@ == "unknown user role: "@
                    + u.role@),
            },
        },
{
    let u = match stored {
        None => {
            return Err(AppError::Forbidden(String::from_str("invalid credentials")));
        },
        Some(u) => u,
    };
    let ok = match PasswordService::new().verify_blocking(password, u.password_hash.as_str()) {
        Ok(b) => b,
        Err(e) => {
            return Err(e);
        },
    };
    if !ok {
        return Err(AppError::Forbidden(String::from_str("invalid credentials")));
    }
    stored_identity(&u)
}

/// First step of a refresh, given the outcome of verifying the presented
/// token as a refresh token: its identifier is to be revoked next; a token
/// that failed verification is refused with the verifier's message.
pub fn refresh_revocation(verified: Result<TokenClaims, AppError>) -> (r: Result<
    Revocation,
    AppError,
>)
    ensures
        match verified {
            Ok(c) => (r matches Ok(v) && revokes(v, c)),
            Err(e) => (r matches Err(AppError::Forbidden(m)) && m@ == e.spec_message()),
        },
{
    match verified {
        Ok(c) => Ok(Revocation { jti: c.jti, user_id: c.sub, kind: c.kind, expires_at: c.exp }),
        Err(e) => Err(AppError::Forbidden(e.message())),
    }
}

/// Second step, given whether recording the revocation wrote a new row:
/// only the refresh that revoked the token may rotate it, so a token that
/// was already revoked is refused; the user is looked up next.
pub fn refresh_after_revocation(user_id: u128, recorded: Result<bool, AppError>) -> (r: Result<
    u128,
    AppError,
>)
    ensures
        recorded == Ok::<bool, AppError>(true) ==> r == Ok::<u128, AppError>(user_id),
        recorded == Ok::<bool, AppError>(false) ==> (r matches Err(AppError::Forbidden(m)) && m@
            == "refresh token already used"@),
        recorded matches Err(e) ==> r == Err::<u128, AppError>(e),
{
    match recorded {
        Ok(true) => Ok(user_id),
        Ok(false) => Err(AppError::Forbidden(String::from_str("refresh token already used"))),
        Err(e) => Err(e),
    }
}

/// Last step, given the user as stored now: the new pair is issued with
/// the stored role, not the role the old token carried; a user that no
/// longer exists is refused.
pub fn refresh_identity(stored: Option<StoredUser>) -> (r: Result<Identity, AppError>)
    ensures
        stored is None ==> (r matches Err(AppError::NotFound(m)) && m@ == "user not found"@),
        stored matches Some(u) ==> match UserRole::spec_parse(u.role@) {
            Some(role) => r == Ok::<Identity, AppError>(identity_of(u, role)),
            None => (r matches Err(AppError::Validation(m)) && m@ == "unknown user role: "@
                + u.role@),
        },
{
    match stored {
        None => Err(AppError::NotFound(String::from_str("user not found"))),
        Some(u) => stored_identity(&u),
    }
}

/// Sign out, given the outcome of verifying the access token and, when one
/// was presented, the refresh token: both identifiers are to be revoked,
/// the access token's first; a token that failed verification stops the
/// sign-out with its error.
pub fn logout_revocations(
    access: Result<TokenClaims, AppError>,
    refresh: Option<Result<TokenClaims, AppError>>,
) -> (r: Result<Vec<Revocation>, AppError>)
    ensures
        access matches Err(e) ==> r == Err::<Vec<Revocation>, AppError>(e),
        access matches Ok(a) ==> match refresh {
            None => (r matches Ok(v) && v@.len() == 1 && revokes(v@[0], a)),
            Some(Err(e)) => r == Err::<Vec<Revocation>, AppError>(e),
            Some(Ok(f)) => (r matches Ok(v) && v@.len() == 2 && revokes(v@[0], a) && revokes(
                v@[1],
                f,
            )),
        },
{
    let a = match access {
        Ok(a) => a,
        Err(e) => {
            return Err(e);
        },
    };
    let mut out: Vec<Revocation> = Vec::new();
    out.push(Revocation { jti: a.jti, user_id: a.sub, kind: a.kind, expires_at: a.exp });
    match refresh {
        None => Ok(out),
        Some(Err(e)) => Err(e),
        Some(Ok(f)) => {
            out.push(Revocation { jti: f.jti, user_id: f.sub, kind: f.kind, expires_at: f.exp });
            Ok(out)
        },
    }
}

} // verus!
