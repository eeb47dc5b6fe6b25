use payplan::accounts::{
    login_identity, logout_revocations, refresh_after_revocation, refresh_identity,
    refresh_revocation, Identity, StoredUser,
};
use payplan::errors::{auth_api_error, ApiError, AppError};
use payplan::passwords::PasswordService;
use payplan::roles::{scope, scope_company, AuthUser, TenantScope, UserRole};
use payplan::session::{
    apply_guard, bearer_token, claims_outcome, finish_authentication, AuthError, RouteGuard,
};
use payplan::tokens::{
    issue_access, issue_refresh, revocation_recorded, sign_claims, verified_claims_text,
    verify_outcome, TokenClaims, TokenKind,
};

#[test]
fn hash_then_verify_round_trip() {
    let svc = PasswordService::new();
    let hash = svc.hash_blocking("correct horse battery staple").expect("hash");
    assert!(svc.verify_blocking("correct horse battery staple", &hash).unwrap());
    assert!(!svc.verify_blocking("wrong", &hash).unwrap());
}

#[test]
fn hashes_are_unique_per_call() {
    let svc = PasswordService::new();
    let a = svc.hash_blocking("same").unwrap();
    let b = svc.hash_blocking("same").unwrap();
    assert_ne!(a, b, "different salts should yield different hashes");
}

#[test]
fn password_service_smoke() {
    let svc = PasswordService::new();
    let hash = svc.hash_blocking("hello").expect("hash");
    assert!(svc.verify_blocking("hello", &hash).unwrap());
    assert!(!svc.verify_blocking("nope", &hash).unwrap());
}

#[test]
fn malformed_stored_hash_is_an_infra_error() {
    let svc = PasswordService::new();
    match svc.verify_blocking("pw", "not-a-phc-string") {
        Err(AppError::Infra(m)) => assert!(m.starts_with("argon2 parse: ")),
        other => panic!("unexpected {other:?}"),
    }
}

fn claims(kind: TokenKind, role: &str) -> TokenClaims {
    match kind {
        TokenKind::Access => issue_access(11, Some(22), role, 1_700_000_000, "jti-1".into()),
        TokenKind::Refresh => issue_refresh(11, Some(22), role, 1_700_000_000, "jti-2".into()),
    }
}

#[test]
fn issued_claims_carry_lifetimes_and_audience() {
    let a = claims(TokenKind::Access, "user");
    assert_eq!(a.exp, 1_700_000_900);
    assert_eq!(a.iat, 1_700_000_000);
    assert_eq!(a.iss, "payplan");
    assert_eq!(a.aud, "payplan");
    assert_eq!(a.kind, TokenKind::Access);
    let r = claims(TokenKind::Refresh, "user");
    assert_eq!(r.exp, 1_700_000_000 + 7 * 24 * 60 * 60);
    let early = issue_access(1, None, "user", -10_000, "j".into());
    assert_eq!(early.iat, 0);
    assert_eq!(early.exp, usize::MAX);
}

#[test]
fn access_token_claims_round_trip_through_verification() {
    let c = claims(TokenKind::Access, "user");
    let v = verify_outcome(Ok(c.clone()), TokenKind::Access).unwrap();
    assert_eq!(v.sub, c.sub);
    assert_eq!(v.kind, TokenKind::Access);
}

#[test]
fn refresh_token_is_refused_where_access_is_expected() {
    let c = claims(TokenKind::Refresh, "user");
    match verify_outcome(Ok(c), TokenKind::Access) {
        Err(AppError::Infra(m)) => {
            assert_eq!(m, "jwt kind mismatch: expected Access, got Refresh")
        }
        other => panic!("unexpected {other:?}"),
    }
    match verify_outcome(Err("ExpiredSignature".into()), TokenKind::Access) {
        Err(AppError::Infra(m)) => assert_eq!(m, "jwt verify: ExpiredSignature"),
        other => panic!("unexpected {other:?}"),
    }
}

#[test]
fn token_kinds_have_stored_names() {
    assert_eq!(TokenKind::Access.as_str(), "access");
    assert_eq!(TokenKind::Refresh.as_str(), "refresh");
    assert!(revocation_recorded(1));
    assert!(!revocation_recorded(0));
}

#[test]
fn bearer_header_parsing() {
    assert_eq!(bearer_token(Some("Bearer abc.def")).ok().unwrap(), "abc.def");
    assert!(matches!(bearer_token(Some("Basic abc")), Err(AuthError::MissingToken)));
    assert!(matches!(bearer_token(Some("bearer abc")), Err(AuthError::MissingToken)));
    assert!(matches!(bearer_token(None), Err(AuthError::MissingToken)));
}

#[test]
fn authentication_fails_closed() {
    let c = claims(TokenKind::Access, "company_admin");
    let u = finish_authentication(c.clone(), Some(Ok(false))).ok().unwrap();
    assert_eq!(u.user_id, 11);
    assert_eq!(u.company_id, Some(22));
    assert_eq!(u.role, UserRole::CompanyAdmin);
    assert!(matches!(finish_authentication(c.clone(), Some(Ok(true))), Err(AuthError::Revoked)));
    assert!(matches!(
        finish_authentication(c.clone(), Some(Err(AppError::Infra("db".into())))),
        Err(AuthError::Revoked)
    ));
    match finish_authentication(c, None) {
        Err(AuthError::InvalidToken(m)) => assert_eq!(m, "service unavailable"),
        _ => panic!("expected invalid token"),
    }
    match finish_authentication(claims(TokenKind::Access, "root"), Some(Ok(false))) {
        Err(AuthError::InvalidToken(m)) => assert_eq!(m, "unknown role: root"),
        _ => panic!("expected invalid token"),
    }
    match claims_outcome(Err(AppError::Infra("jwt verify: InvalidSignature".into()))) {
        Err(AuthError::InvalidToken(m)) => assert_eq!(m, "jwt verify: InvalidSignature"),
        _ => panic!("expected invalid token"),
    }
}

#[test]
fn auth_errors_map_to_401_and_403() {
    assert_eq!(AuthError::MissingToken.response_parts(), (401, "missing bearer token".to_string()));
    assert_eq!(AuthError::Revoked.response_parts(), (401, "token revoked".to_string()));
    assert_eq!(AuthError::InvalidToken("bad".into()).response_parts(), (401, "bad".to_string()));
    assert_eq!(AuthError::Forbidden.response_parts(), (403, "insufficient role".to_string()));
}

fn who(role: UserRole) -> AuthUser {
    AuthUser { user_id: 1, company_id: Some(9), role }
}

#[test]
fn route_guards_follow_the_role_tiers() {
    assert!(apply_guard(RouteGuard::Authenticated, Ok(who(UserRole::User))).is_ok());
    assert!(matches!(
        apply_guard(RouteGuard::CompanyAdmin, Ok(who(UserRole::User))),
        Err(AuthError::Forbidden)
    ));
    assert!(apply_guard(RouteGuard::CompanyAdmin, Ok(who(UserRole::CompanyAdmin))).is_ok());
    assert!(matches!(
        apply_guard(RouteGuard::PlatformAdmin, Ok(who(UserRole::CompanyAdmin))),
        Err(AuthError::Forbidden)
    ));
    assert!(apply_guard(RouteGuard::PlatformAdmin, Ok(who(UserRole::PlatformAdmin))).is_ok());
    assert!(matches!(
        apply_guard(RouteGuard::PlatformAdmin, Err(AuthError::MissingToken)),
        Err(AuthError::MissingToken)
    ));
}

#[test]
fn role_predicates_and_scope() {
    assert!(!who(UserRole::User).is_admin());
    assert!(who(UserRole::CompanyAdmin).can_impersonate());
    assert!(!who(UserRole::CompanyAdmin).can_admin_platform());
    assert!(who(UserRole::PlatformAdmin).can_admin_platform());
    assert_eq!(UserRole::parse("platform_admin"), Some(UserRole::PlatformAdmin));
    assert_eq!(UserRole::parse("admin"), None);
    assert_eq!(UserRole::CompanyAdmin.as_str(), "company_admin");
    assert_eq!(scope(&who(UserRole::PlatformAdmin)), TenantScope::Platform);
    assert_eq!(scope(&who(UserRole::User)), TenantScope::Company(9));
    let loose = AuthUser { user_id: 1, company_id: None, role: UserRole::CompanyAdmin };
    assert_eq!(scope(&loose), TenantScope::Platform);
    assert_eq!(scope_company(TenantScope::Company(4)), Some(4));
    assert_eq!(scope_company(TenantScope::Platform), None);
}

#[test]
fn app_errors_map_to_http_errors() {
    let e = ApiError::from_app_error(AppError::Validation("bad input".into()));
    assert_eq!((e.status, e.message.as_str()), (400, "bad input"));
    let e = ApiError::from_app_error(AppError::NotFound("no such package".into()));
    assert_eq!(e.status, 404);
    let e = ApiError::from_app_error(AppError::Conflict("dup".into()));
    assert_eq!(e.status, 409);
    let e = ApiError::from_app_error(AppError::Infra("SELECT failed on host db-1".into()));
    assert_eq!((e.status, e.message.as_str()), (500, "internal server error"));
    let e = auth_api_error(AppError::Forbidden("invalid credentials".into()));
    assert_eq!((e.status, e.message.as_str()), (401, "invalid credentials"));
    let e = auth_api_error(AppError::NotFound("no such user".into()));
    assert_eq!(e.status, 401);
    let e = auth_api_error(AppError::Validation("x".into()));
    assert_eq!(e.status, 400);
}

fn claims_json(exp: u64, kind: &str) -> String {
    format!(
        "{{\"sub\":\"01900000-0000-7000-8000-000000000001\",\"company_id\":null,\"role\":\"user\",\"jti\":\"j1\",\"kind\":\"{kind}\",\"iss\":\"payplan\",\"aud\":\"payplan\",\"exp\":{exp},\"iat\":1}}"
    )
}

fn now_secs() -> u64 {
    std::time::SystemTime::now().duration_since(std::time::UNIX_EPOCH).unwrap().as_secs()
}

#[test]
fn signed_claims_verify_with_the_same_secret_only() {
    let json = claims_json(now_secs() + 600, "access");
    let token = sign_claims(&json, b"test-secret-very-long-and-secure").unwrap();
    assert_eq!(token.split('.').count(), 3);
    let text = verified_claims_text(&token, b"test-secret-very-long-and-secure").unwrap();
    let back: serde_json::Value = serde_json::from_str(&text).unwrap();
    let sent: serde_json::Value = serde_json::from_str(&json).unwrap();
    assert_eq!(back, sent);
    assert!(verified_claims_text(&token, b"another-secret").is_err());
    assert!(verified_claims_text("not.a.token", b"test-secret-very-long-and-secure").is_err());
}

#[test]
fn expired_or_foreign_claims_are_refused() {
    let expired = sign_claims(&claims_json(now_secs() - 3600, "access"), b"k").unwrap();
    assert!(verified_claims_text(&expired, b"k").is_err());
    let foreign = claims_json(now_secs() + 600, "access").replace("\"iss\":\"payplan\"", "\"iss\":\"other\"");
    let token = sign_claims(&foreign, b"k").unwrap();
    assert!(verified_claims_text(&token, b"k").is_err());
    match sign_claims("{not json", b"k") {
        Err(AppError::Infra(m)) => assert!(m.starts_with("jwt encode: ")),
        other => panic!("unexpected {other:?}"),
    }
}

fn stored(hash: &str, role: &str) -> StoredUser {
    StoredUser { id: 7, company_id: Some(3), password_hash: hash.to_string(), role: role.to_string() }
}

#[test]
fn sign_in_checks_the_password_and_takes_the_stored_role() {
    let hash = PasswordService::new().hash_blocking("pw").unwrap();
    let who = login_identity(Some(stored(&hash, "company_admin")), "pw").unwrap();
    assert_eq!(who, Identity { user_id: 7, company_id: Some(3), role: UserRole::CompanyAdmin });
    match login_identity(Some(stored(&hash, "user")), "wrong") {
        Err(AppError::Forbidden(m)) => assert_eq!(m, "invalid credentials"),
        other => panic!("unexpected {other:?}"),
    }
    match login_identity(None, "pw") {
        Err(AppError::Forbidden(m)) => assert_eq!(m, "invalid credentials"),
        other => panic!("unexpected {other:?}"),
    }
    assert!(matches!(login_identity(Some(stored("not-a-hash", "user")), "pw"), Err(AppError::Infra(_))));
    assert!(matches!(login_identity(Some(stored(&hash, "admin")), "pw"), Err(AppError::Validation(_))));
}

#[test]
fn refresh_rotation_is_single_use_and_reissues_the_stored_role() {
    let c = claims(TokenKind::Refresh, "company_admin");
    let v = refresh_revocation(Ok(c.clone())).unwrap();
    assert_eq!((v.jti.as_str(), v.user_id, v.kind, v.expires_at), (c.jti.as_str(), c.sub, TokenKind::Refresh, c.exp));
    match refresh_revocation(Err(AppError::Infra("jwt verify: bad".into()))) {
        Err(e) => assert_eq!(auth_api_error(e).status, 401),
        Ok(_) => panic!("accepted"),
    }
    assert_eq!(refresh_after_revocation(9, Ok(true)).ok(), Some(9));
    match refresh_after_revocation(9, Ok(false)) {
        Err(e) => {
            assert_eq!(e.message(), "refresh token already used");
            assert_eq!(auth_api_error(e).status, 401);
        }
        Ok(_) => panic!("a rotated token was honoured twice"),
    }
    let demoted = refresh_identity(Some(stored("h", "user"))).unwrap();
    assert_eq!(demoted.role, UserRole::User);
    match refresh_identity(None) {
        Err(e) => assert_eq!(auth_api_error(e).status, 401),
        Ok(_) => panic!("issued to a missing user"),
    }
}

#[test]
fn sign_out_revokes_both_tokens() {
    let a = claims(TokenKind::Access, "user");
    let mut r = claims(TokenKind::Refresh, "user");
    r.jti = "other".into();
    let v = logout_revocations(Ok(a.clone()), Some(Ok(r))).unwrap();
    assert_eq!(v.len(), 2);
    assert_eq!((v[0].jti.as_str(), v[0].kind), (a.jti.as_str(), TokenKind::Access));
    assert_eq!((v[1].jti.as_str(), v[1].kind), ("other", TokenKind::Refresh));
    assert_eq!(logout_revocations(Ok(a), None).unwrap().len(), 1);
    assert!(logout_revocations(Err(AppError::Infra("x".into())), None).is_err());
}
