use payplan::admin::{page_total, search_pattern, to_u64};
use payplan::config::PgConfig;
use payplan::routes::{access, cors_origin, health_status, jwt_secret, route, Access, Endpoint};
use payplan::session::RouteGuard;

#[test]
fn from_url_sets_defaults() {
    let cfg = PgConfig::from_url("postgres://localhost/db");
    assert_eq!(cfg.max_connections, 16);
    assert_eq!(cfg.min_connections, 1);
    assert_eq!(cfg.url, "postgres://localhost/db");
    assert_eq!(cfg.connect_timeout_secs, 5);
}

#[test]
fn admin_query_helpers() {
    assert_eq!(to_u64(-3), 0);
    assert_eq!(to_u64(42), 42);
    assert_eq!(search_pattern(Some("acme")).as_deref(), Some("%acme%"));
    assert_eq!(search_pattern(None), None);
    assert_eq!(page_total(None), 0);
    assert_eq!(page_total(Some(17)), 17);
    assert_eq!(page_total(Some(-1)), 0);
}

#[test]
fn route_table_matches_documented_tiers() {
    assert_eq!(route("GET", "/health"), Some(Endpoint::Health));
    assert_eq!(route("POST", "/api/packages"), Some(Endpoint::CreatePackage));
    assert_eq!(route("GET", "/api/packages"), Some(Endpoint::ListPackages));
    assert_eq!(route("DELETE", "/api/packages"), None);
    assert_eq!(route("POST", "/api/unknown"), None);
    assert_eq!(access(Endpoint::RegisterUser), Access::Public);
    assert_eq!(access(Endpoint::Purchase), Access::Guarded(RouteGuard::Authenticated));
    assert_eq!(access(Endpoint::CreateCompany), Access::Guarded(RouteGuard::CompanyAdmin));
    assert_eq!(
        access(route("POST", "/admin/jobs/renewals/run").unwrap()),
        Access::Guarded(RouteGuard::PlatformAdmin)
    );
}

#[test]
fn start_up_settings() {
    assert_eq!(cors_origin(Some("https://a.example")).as_deref(), Some("https://a.example"));
    assert_eq!(cors_origin(Some("")), None);
    assert_eq!(cors_origin(None), None);
    assert_eq!(jwt_secret(Some("s3cret"), false).unwrap(), "s3cret");
    assert!(jwt_secret(None, false).is_err());
    assert!(jwt_secret(Some(""), false).is_err());
    assert_eq!(jwt_secret(None, true).unwrap(), "dev-secret-change-me");
    assert_eq!(jwt_secret(Some(""), true).unwrap(), "");
    assert_eq!(health_status(true), "ok");
    assert_eq!(health_status(false), "degraded");
}
