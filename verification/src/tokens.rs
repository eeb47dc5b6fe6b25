//! Access and refresh token claims.

use vstd::prelude::*;
use vstd::string::*;
use crate::errors::AppError;
use crate::text::starts_with;

verus! {

/// Access token lifetime: 15 minutes.
pub const ACCESS_TTL_SECS: i64 = 900;
/// Refresh token lifetime: 7 days.
pub const REFRESH_TTL_SECS: i64 = 604800;
/// Issuer claim of every token.
pub const JWT_ISSUER: &'static str = "payplan";
/// Audience claim of every token.
pub const JWT_AUDIENCE: &'static str = "payplan";

/// What a token may be used for.
#[derive(Debug, Clone, Copy, PartialEq, Eq, Structural)]
pub enum TokenKind {
    Access,
    Refresh,
}

impl TokenKind {
    /// The stored text form of the kind.
    pub open spec fn spec_label(self) -> Seq<char> {
        match self {
            TokenKind::Access => "access"@,
            TokenKind::Refresh => "refresh"@,
        }
    }

    /// The stored text form of the kind.
    pub fn as_str(&self) -> (s: &'static str)
        ensures
            s@ == self.spec_label(),
    {
        match self {
            TokenKind::Access => "access",
            TokenKind::Refresh => "refresh",
        }
    }

    /// The name of the kind as it appears in diagnostics.
    pub open spec fn spec_debug_name(self) -> Seq<char> {
        match self {
            TokenKind::Access => "Access"@,
            TokenKind::Refresh => "Refresh"@,
        }
    }

    /// The name of the kind as it appears in diagnostics.
    pub fn debug_name(&self) -> (s: &'static str)
        ensures
            s@ == self.spec_debug_name(),
    {
        match self {
            TokenKind::Access => "Access",
            TokenKind::Refresh => "Refresh",
        }
    }

    /// Lifetime of tokens of this kind, in seconds.
    pub open spec fn spec_ttl(self) -> i64 {
        match self {
            TokenKind::Access => ACCESS_TTL_SECS,
            TokenKind::Refresh => REFRESH_TTL_SECS,
        }
    }
}

/// Claims carried by a signed token.
#[derive(Debug, Clone)]
pub struct TokenClaims {
    pub sub: u128,
    pub company_id: Option<u128>,
    pub role: String,
    pub jti: String,
    pub kind: TokenKind,
    pub iss: String,
    pub aud: String,
    pub exp: usize,
    pub iat: usize,
}

/// A signed timestamp as the `exp` claim stores it: out-of-range values
/// saturate to the largest claim.
pub open spec fn expiry_claim(t: int) -> usize {
    if 0 <= t <= usize::MAX {
        t as usize
    } else {
        usize::MAX
    }
}

/// A signed timestamp as the `iat` claim stores it: out-of-range values
/// become zero.
pub open spec fn issued_claim(t: int) -> usize {
    if 0 <= t <= usize::MAX {
        t as usize
    } else {
        0
    }
}

fn clamp_to_usize(t: i64, fallback: usize) -> (r: usize)
    ensures
        r == (if 0 <= t <= usize::MAX { t as usize } else { fallback }),
{
    if t < 0 {
        fallback
    } else if (t as u64) as u128 > usize::MAX as u128 {
        fallback
    } else {
        t as usize
    }
}

/// Build the claims of a token issued at unix time `now` with identifier
/// `jti`, valid for `ttl_secs` seconds.
pub fn build_claims(
    sub: u128,
    company_id: Option<u128>,
    role: &str,
    kind: TokenKind,
    ttl_secs: i64,
    now: i64,
    jti: String,
) -> (c: TokenClaims)
    requires
        i64::MIN <= now + ttl_secs <= i64::MAX,
    ensures
        c.sub == sub,
        c.company_id == company_id,
        c.role@ == role@,
        c.jti@ == jti@,
        c.kind == kind,
        c.iss@ == JWT_ISSUER@,
        c.aud@ == JWT_AUDIENCE@,
        c.exp == expiry_claim(now + ttl_secs),
        c.iat == issued_claim(now as int),
{
    let exp = clamp_to_usize(now + ttl_secs, usize::MAX);
    let iat = clamp_to_usize(now, 0);
    TokenClaims {
        sub,
        company_id,
        role: String::from_str(role),
        jti,
        kind,
        iss: String::from_str(JWT_ISSUER),
        aud: String::from_str(JWT_AUDIENCE),
        exp,
        iat,
    }
}

/// Claims of a 15-minute access token.
pub fn issue_access(sub: u128, company_id: Option<u128>, role: &str, now: i64, jti: String) -> (c:
    TokenClaims)
    requires
        now <= i64::MAX - ACCESS_TTL_SECS,
    ensures
        c.sub == sub,
        c.company_id == company_id,
        c.role@ == role@,
        c.jti@ == jti@,
        c.kind == TokenKind::Access,
        c.iss@ == JWT_ISSUER@,
        c.aud@ == JWT_AUDIENCE@,
        c.exp == expiry_claim(now + ACCESS_TTL_SECS),
        c.iat == issued_claim(now as int),
{
    build_claims(sub, company_id, role, TokenKind::Access, ACCESS_TTL_SECS, now, jti)
}

/// Claims of a 7-day refresh token.
pub fn issue_refresh(sub: u128, company_id: Option<u128>, role: &str, now: i64, jti: String) -> (c:
    TokenClaims)
    requires
        now <= i64::MAX - REFRESH_TTL_SECS,
    ensures
        c.sub == sub,
        c.company_id == company_id,
        c.role@ == role@,
        c.jti@ == jti@,
        c.kind == TokenKind::Refresh,
        c.iss@ == JWT_ISSUER@,
        c.aud@ == JWT_AUDIENCE@,
        c.exp == expiry_claim(now + REFRESH_TTL_SECS),
        c.iat == issued_claim(now as int),
{
    build_claims(sub, company_id, role, TokenKind::Refresh, REFRESH_TTL_SECS, now, jti)
}

/// A token issued at a representable time expires exactly its kind's
/// lifetime later: 15 minutes for access tokens, 7 days for refresh tokens.
pub proof fn law_token_lifetimes(kind: TokenKind, now: i64)
    requires
        0 <= now,
        now + kind.spec_ttl() <= usize::MAX,
    ensures
        expiry_claim(now + kind.spec_ttl()) == issued_claim(now as int) + kind.spec_ttl(),
        kind == TokenKind::Access ==> kind.spec_ttl() == 15 * 60,
        kind == TokenKind::Refresh ==> kind.spec_ttl() == 7 * 24 * 60 * 60,
{
}

/// The diagnostic of a token presented for the wrong purpose.
pub open spec fn kind_mismatch_message(expected: TokenKind, got: TokenKind) -> Seq<char> {
    "jwt kind mismatch: expected "@ + expected.spec_debug_name() + ", got "@
        + got.spec_debug_name()
}

/// Decide the outcome of verifying a token, given what signature, expiry,
/// issuer and audience validation returned: a validation failure is an
/// infrastructure error, and a token of another kind than `expected` is
/// refused; otherwise its claims are returned unchanged.
pub fn verify_outcome(decoded: Result<TokenClaims, String>, expected: TokenKind) -> (r: Result<
    TokenClaims,
    AppError,
>)
    ensures
        match decoded {
            Err(e) => (r matches Err(AppError::Infra(m)) && m@ == "jwt verify: "@ + e@),
            Ok(c) => if c.kind == expected {
                r == Ok::<TokenClaims, AppError>(c)
            } else {
                (r matches Err(AppError::Infra(m)) && m@ == kind_mismatch_message(expected, c.kind))
            },
        },
{
    match decoded {
        Err(e) => Err(AppError::Infra(String::from_str("jwt verify: ").concat(e.as_str()))),
        Ok(c) => {
            if c.kind == expected {
                Ok(c)
            } else {
                let m = String::from_str("jwt kind mismatch: expected ").concat(
                    expected.debug_name(),
                ).concat(", got ").concat(c.kind.debug_name());
                Err(AppError::Infra(m))
            }
        },
    }
}

/// Leeway, in seconds, allowed on a token's expiry.
pub const JWT_LEEWAY_SECS: u64 = 5;

/// Whether `serde_json::from_str::<serde_json::Value>` accepts `text`.
pub uninterp spec fn json_text_parses(text: Seq<char>) -> bool;

/// The token `jsonwebtoken::encode` produces with an HS256 header
/// (`Header::new(Algorithm::HS256)`), the JSON value read from
/// `claims_json` as its claims, and the HMAC secret `secret`.
pub uninterp spec fn hs256_token(claims_json: Seq<char>, secret: Seq<u8>) -> Seq<char>;

/// Whether a token passes the checks of `jsonwebtoken::decode` that do not
/// depend on the clock, for an HS256 `Validation` with the given issuer,
/// audience and required claims: three dot-separated parts whose header
/// names HS256, an HMAC-SHA256 signature under `secret`, every required
/// claim present, the issuer one of those given and the audience among
/// those accepted.
pub uninterp spec fn hs256_accepts(
    token: Seq<char>,
    secret: Seq<u8>,
    issuer: Seq<char>,
    audience: Seq<char>,
    required: Seq<Seq<char>>,
) -> bool;

/// The claims every token must carry.
pub open spec fn required_claims() -> Seq<Seq<char>> {
    seq!["exp"@, "iat"@, "sub"@, "aud"@, "iss"@]
}

/// The claims a token carries, as the compact JSON text
/// (`serde_json::Value::to_string`) of its decoded payload.
pub uninterp spec fn jwt_claims_text(token: Seq<char>) -> Seq<char>;

/// Reads `claims_json` with `serde_json::from_str` into a
/// `serde_json::Value` and signs it with `jsonwebtoken::encode` under an
/// HS256 header and the HMAC secret `secret`. Claims: it succeeds exactly
/// when the text is JSON (the crate's HS256 signing and the serialisation
/// of a JSON value do not fail), and the token is the named one.
#[verifier::external_body]
fn jwt_encode(claims_json: &str, secret: &[u8]) -> (r: Result<String, String>)
    ensures
        r is Ok <==> json_text_parses(claims_json@),
        r matches Ok(t) ==> t@ == hs256_token(claims_json@, secret@),
{
    let claims: serde_json::Value = serde_json::from_str(claims_json).map_err(|e| e.to_string())?;
    let key = jsonwebtoken::EncodingKey::from_secret(secret);
    let header = jsonwebtoken::Header::new(jsonwebtoken::Algorithm::HS256);
    jsonwebtoken::encode(&header, &claims, &key).map_err(|e| e.to_string())
}

/// Calls `jsonwebtoken::decode::<serde_json::Value>` with the HMAC secret
/// `secret` and a `Validation` for HS256 with the given issuer, audience,
/// required claims and leeway, and returns the claims as compact JSON
/// text. Whether it succeeds also depends on the clock (the expiry check
/// with the leeway), so only what holds of every success is claimed: the
/// token passed the checks that do not depend on the clock, for the
/// secret, issuer, audience and required claims handed in, and the text is
/// the token's own claims.
#[verifier::external_body]
fn jwt_decode(
    token: &str,
    secret: &[u8],
    issuer: &str,
    audience: &str,
    required: &[&str],
    leeway: u64,
) -> (r: Result<String, String>)
    ensures
        r is Ok ==> hs256_accepts(
            token@,
            secret@,
            issuer@,
            audience@,
            required@.map_values(|c: &str| c@),
        ),
        r matches Ok(j) ==> j@ == jwt_claims_text(token@),
{
    let mut v = jsonwebtoken::Validation::new(jsonwebtoken::Algorithm::HS256);
    v.set_audience(&[audience]);
    v.set_issuer(&[issuer]);
    v.set_required_spec_claims(required);
    v.leeway = leeway;
    let key = jsonwebtoken::DecodingKey::from_secret(secret);
    jsonwebtoken::decode::<serde_json::Value>(token, &key, &v)
        .map(|data| data.claims.to_string())
        .map_err(|e| e.to_string())
}

/// Sign a token's claims, given as JSON text, with the HS256 secret: the
/// signed token, or an infrastructure error when the text is not JSON.
pub fn sign_claims(claims_json: &str, secret: &[u8]) -> (r: Result<String, AppError>)
    ensures
        json_text_parses(claims_json@) ==> (r matches Ok(t) && t@ == hs256_token(
            claims_json@,
            secret@,
        )),
        !json_text_parses(claims_json@) ==> (r matches Err(AppError::Infra(m)) && starts_with(
            m@,
            "jwt encode: "@,
        )),
{
    match jwt_encode(claims_json, secret) {
        Ok(t) => Ok(t),
        Err(e) => {
            let m = String::from_str("jwt encode: ").concat(e.as_str());
            assert(m@.subrange(0, "jwt encode: "@.len() as int) == "jwt encode: "@);
            Err(AppError::Infra(m))
        },
    }
}

/// Check a token's signature against the HS256 secret, its expiry (with
/// the leeway), its issuer and audience, and that it carries an expiry,
/// issue time, subject, audience and issuer; the claims it carries, as JSON
/// text, or the reason it was refused.
pub fn verified_claims_text(token: &str, secret: &[u8]) -> (r: Result<String, String>)
    ensures
        r is Ok ==> hs256_accepts(token@, secret@, JWT_ISSUER@, JWT_AUDIENCE@, required_claims()),
        r matches Ok(j) ==> j@ == jwt_claims_text(token@),
{
    let required: [&str; 5] = ["exp", "iat", "sub", "aud", "iss"];
    let claims = required.as_slice();
    assert(claims@.map_values(|c: &str| c@) =~= required_claims());
    jwt_decode(token, secret, JWT_ISSUER, JWT_AUDIENCE, claims, JWT_LEEWAY_SECS)
}

/// Outcome of recording a revoked token identifier: `true` when a new row
/// was written, `false` when the identifier was already revoked.
pub fn revocation_recorded(rows_affected: u64) -> (r: bool)
    ensures
        r == (rows_affected == 1),
{
    rows_affected == 1
}

} // verus!
