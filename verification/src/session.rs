//! Bearer-token authentication and role gating of routes.

use vstd::prelude::*;
use vstd::string::*;
use crate::errors::{AppError, STATUS_FORBIDDEN, STATUS_UNAUTHORIZED};
use crate::roles::{AuthUser, UserRole};
use crate::text::strip_prefix;
use crate::tokens::TokenClaims;

verus! {

/// Errors raised by the authentication layer.
#[derive(Debug)]
pub enum AuthError {
    /// No `Authorization: Bearer ...` header present.
    MissingToken,
    /// Token failed signature, expiry or kind verification.
    InvalidToken(String),
    /// Token's identifier is revoked (logged out or rotated).
    Revoked,
    /// Authenticated, but the role does not satisfy the route's requirement.
    Forbidden,
}

impl AuthError {
    /// The HTTP status of the error.
    pub open spec fn spec_status(&self) -> u16 {
        match self {
            AuthError::Forbidden => STATUS_FORBIDDEN,
            _ => STATUS_UNAUTHORIZED,
        }
    }

    /// The client-facing message of the error.
    pub open spec fn spec_message(&self) -> Seq<char> {
        match self {
            AuthError::MissingToken => "missing bearer token"@,
            AuthError::InvalidToken(m) => m@,
            AuthError::Revoked => "token revoked"@,
            AuthError::Forbidden => "insufficient role"@,
        }
    }

    /// HTTP status and client-facing message of the error.
    pub fn response_parts(&self) -> (r: (u16, String))
        ensures
            r.0 == self.spec_status(),
            r.1@ == self.spec_message(),
    {
        match self {
            AuthError::MissingToken => (STATUS_UNAUTHORIZED, String::from_str("missing bearer token")),
            AuthError::InvalidToken(m) => (STATUS_UNAUTHORIZED, m.clone()),
            AuthError::Revoked => (STATUS_UNAUTHORIZED, String::from_str("token revoked")),
            AuthError::Forbidden => (STATUS_FORBIDDEN, String::from_str("insufficient role")),
        }
    }
}

/// Extract the token of an `Authorization: Bearer <token>` header; `header`
/// is the header's text, or `None` when the header is absent or not text.
pub fn bearer_token(header: Option<&str>) -> (r: Result<String, AuthError>)
    ensures
        match header {
            None => r matches Err(AuthError::MissingToken),
            Some(h) => if "Bearer "@.len() <= h@.len() && h@.subrange(0, "Bearer "@.len() as int)
                == "Bearer "@ {
                (r matches Ok(t) && t@ == h@.subrange("Bearer "@.len() as int, h@.len() as int))
            } else {
                r matches Err(AuthError::MissingToken)
            },
        },
{
    match header {
        None => Err(AuthError::MissingToken),
        Some(h) => match strip_prefix(h, "Bearer ") {
            Some(t) => Ok(t),
            None => Err(AuthError::MissingToken),
        },
    }
}

/// A token that failed verification is reported as invalid, with the
/// verifier's message.
pub fn claims_outcome(verified: Result<TokenClaims, AppError>) -> (r: Result<
    TokenClaims,
    AuthError,
>)
    ensures
        match verified {
            Ok(c) => r == Ok::<TokenClaims, AuthError>(c),
            Err(e) => (r matches Err(AuthError::InvalidToken(m)) && m@ == e.spec_message()),
        },
{
    match verified {
        Ok(c) => Ok(c),
        Err(e) => Err(AuthError::InvalidToken(e.message())),
    }
}

/// Finish authenticating verified claims, given the revocation lookup:
/// `None` when no storage connection could be had, otherwise the store's
/// answer. A failed lookup counts as revoked (fail closed).
pub fn finish_authentication(claims: TokenClaims, revocation: Option<Result<bool, AppError>>) -> (r:
    Result<AuthUser, AuthError>)
    ensures
        revocation is None ==> (r matches Err(AuthError::InvalidToken(m)) && m@
            == "service unavailable"@),
        revocation matches Some(l) && !(l == Ok::<bool, AppError>(false)) ==> r matches Err(
            AuthError::Revoked,
        ),
        revocation == Some(Ok::<bool, AppError>(false)) ==> match UserRole::spec_parse(
            claims.role@,
        ) {
            Some(role) => r == Ok::<AuthUser, AuthError>(
                AuthUser { user_id: claims.sub, company_id: claims.company_id, role },
            ),
            None => (r matches Err(AuthError::InvalidToken(m)) && m@ == "unknown role: "@
                + claims.role@),
        },
{
    let revoked = match revocation {
        None => {
            return Err(AuthError::InvalidToken(String::from_str("service unavailable")));
        },
        Some(Ok(b)) => b,
        Some(Err(_)) => true,
    };
    if revoked {
        return Err(AuthError::Revoked);
    }
    match UserRole::parse(claims.role.as_str()) {
        Some(role) => Ok(AuthUser { user_id: claims.sub, company_id: claims.company_id, role }),
        None => Err(
            AuthError::InvalidToken(String::from_str("unknown role: ").concat(claims.role.as_str())),
        ),
    }
}

/// Access requirement of a group of routes.
#[derive(Debug, Clone, Copy, PartialEq, Eq, Structural)]
pub enum RouteGuard {
    /// Any authenticated caller.
    Authenticated,
    /// Company administrators and platform administrators.
    CompanyAdmin,
    /// Platform administrators only.
    PlatformAdmin,
}

/// Whether a role satisfies a route group's requirement.
pub open spec fn guard_allows(guard: RouteGuard, role: UserRole) -> bool {
    match guard {
        RouteGuard::Authenticated => true,
        RouteGuard::CompanyAdmin => role.spec_is_admin(),
        RouteGuard::PlatformAdmin => role == UserRole::PlatformAdmin,
    }
}

/// Whether a role satisfies a route group's requirement.
pub fn allows(guard: RouteGuard, role: UserRole) -> (r: bool)
    ensures
        r == guard_allows(guard, role),
{
    match guard {
        RouteGuard::Authenticated => true,
        RouteGuard::CompanyAdmin => role.is_admin(),
        RouteGuard::PlatformAdmin => role.is_platform_admin(),
    }
}

/// The outcome of a gated request: authentication failures pass through
/// unchanged, and an authenticated caller whose role does not satisfy the
/// guard is forbidden.
pub open spec fn gate(guard: RouteGuard, authenticated: Result<AuthUser, AuthError>) -> Result<
    AuthUser,
    AuthError,
> {
    match authenticated {
        Ok(u) => if guard_allows(guard, u.role) {
            Ok(u)
        } else {
            Err(AuthError::Forbidden)
        },
        Err(e) => Err(e),
    }
}

/// Apply a route group's requirement to the outcome of authentication.
pub fn apply_guard(guard: RouteGuard, authenticated: Result<AuthUser, AuthError>) -> (r: Result<
    AuthUser,
    AuthError,
>)
    ensures
        r == gate(guard, authenticated),
{
    match authenticated {
        Ok(u) => if allows(guard, u.role) {
            Ok(u)
        } else {
            Err(AuthError::Forbidden)
        },
        Err(e) => Err(e),
    }
}

/// A request that failed authentication is answered 401 on every route
/// group, and never reaches a role check.
pub proof fn law_unauthenticated_is_401(guard: RouteGuard, e: AuthError)
    requires
        !(e is Forbidden),
    ensures
        gate(guard, Err(e)) == Err::<AuthUser, AuthError>(e),
        e.spec_status() == STATUS_UNAUTHORIZED,
{
}

/// Route groups are nested: whoever passes a stricter group passes every
/// looser one.
pub proof fn law_guards_are_nested(role: UserRole)
    ensures
        guard_allows(RouteGuard::PlatformAdmin, role) ==> guard_allows(RouteGuard::CompanyAdmin, role),
        guard_allows(RouteGuard::CompanyAdmin, role) ==> guard_allows(RouteGuard::Authenticated, role),
{
}

/// An authenticated caller is forbidden exactly when the role does not
/// satisfy the guard; a forbidden outcome is answered 403.
pub proof fn law_forbidden_is_403(guard: RouteGuard, user: AuthUser)
    ensures
        (gate(guard, Ok(user)) is Err) == !guard_allows(guard, user.role),
        gate(guard, Ok(user)) is Err ==> gate(guard, Ok(user)) == Err::<AuthUser, AuthError>(
            AuthError::Forbidden,
        ),
        AuthError::Forbidden.spec_status() == STATUS_FORBIDDEN,
{
}

} // verus!
