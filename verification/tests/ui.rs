use payplan::shell::{content_security_policy, css_hash, stylesheet_href, trimmed};
use payplan::roles::{AuthUser, UserRole};
use payplan::ui::{
    action_redirect, admin_nav_items, cookie_secure, expected_host, is_protected_ui_path,
    job_redirect, login_redirect_target, login_result_redirect, origin_allowed, pagination_state,
    removal_cookie, safe_next, token_cookie, ui_auth_after_access, ui_auth_after_refresh,
    ui_auth_start, ui_billing_access, ui_billing_terms, ui_catalog_command,
    ui_platform_admin_only, PaginationState, SameSite, UiAuthStep, UiResponse, ACCESS_COOKIE,
};
use payplan::codes::{BillingType, CatalogItemType, RecurrenceInterval};
use std::collections::HashSet;

#[test]
fn next_redirect_is_restricted_to_known_ui_routes() {
    assert_eq!(safe_next(Some("/packages")), "/packages");
    assert_eq!(safe_next(Some("https://example.com")), "/");
    assert_eq!(safe_next(Some("//example.com")), "/");
}

#[test]
fn token_cookie_is_http_only_and_site_scoped() {
    let cookie = token_cookie(ACCESS_COOKIE, "secret".into(), 60, cookie_secure(None, true));
    assert_eq!(cookie.path, "/");
    assert!(cookie.http_only);
    assert_eq!(cookie.same_site, SameSite::Lax);
}

#[test]
fn api_routes_are_not_ui_cookie_authenticated() {
    assert!(!is_protected_ui_path("/api/packages"));
}

#[test]
fn ui_routes_require_cookie_authentication() {
    assert!(is_protected_ui_path("/packages"));
}

#[test]
fn admin_navigation_paths_are_unique() {
    let items = admin_nav_items();
    let unique = items.iter().map(|(path, _)| *path).collect::<HashSet<_>>();
    assert_eq!(unique.len(), items.len());
}

#[test]
fn admin_navigation_paths_are_absolute() {
    assert!(admin_nav_items().iter().all(|(path, _)| path.starts_with('/')));
}

#[test]
fn pagination_clamps_first_page_links() {
    assert_eq!(
        pagination_state(1, 25, 0),
        PaginationState { last_page: 1, previous: 1, next: 1 }
    );
}

#[test]
fn pagination_calculates_middle_page_links() {
    assert_eq!(
        pagination_state(2, 25, 75),
        PaginationState { last_page: 3, previous: 1, next: 3 }
    );
}

#[test]
fn pagination_rounds_partial_pages_up() {
    assert_eq!(
        pagination_state(3, 25, 76),
        PaginationState { last_page: 4, previous: 2, next: 4 }
    );
    assert_eq!(
        pagination_state(9, 10, 20),
        PaginationState { last_page: 2, previous: 8, next: 2 }
    );
}

#[test]
fn safe_next_keeps_every_known_page() {
    for p in ["/", "/packages", "/companies", "/catalog", "/billing", "/purchases", "/users", "/jobs"] {
        assert_eq!(safe_next(Some(p)), p);
    }
    assert_eq!(safe_next(None), "/");
    assert_eq!(safe_next(Some("/logout")), "/");
}

#[test]
fn protected_paths_cover_jobs_and_server_functions() {
    assert!(is_protected_ui_path("/"));
    assert!(is_protected_ui_path("/jobs/royal-pot"));
    assert!(is_protected_ui_path("/_server/anything"));
    assert!(!is_protected_ui_path("/login"));
    assert!(!is_protected_ui_path("/_server"));
}

#[test]
fn login_redirect_remembers_known_pages() {
    assert_eq!(login_redirect_target("/billing"), "/login?next=/billing");
    assert_eq!(login_redirect_target("/"), "/login");
    assert_eq!(login_redirect_target("/logout"), "/login");
}

#[test]
fn session_check_steps() {
    assert!(matches!(ui_auth_start("/login", false), UiAuthStep::Continue));
    match ui_auth_start("/catalog", false) {
        UiAuthStep::Redirect { target, clear_session } => {
            assert_eq!(target, "/login?next=/catalog");
            assert!(!clear_session);
        }
        _ => panic!("expected a redirect"),
    }
    assert!(matches!(ui_auth_start("/catalog", true), UiAuthStep::VerifyAccess));
    assert!(matches!(ui_auth_after_access("/catalog", true, false), UiAuthStep::Continue));
    assert!(matches!(ui_auth_after_access("/catalog", false, true), UiAuthStep::TryRefresh));
    match ui_auth_after_access("/jobs", false, false) {
        UiAuthStep::Redirect { target, clear_session } => {
            assert_eq!(target, "/login?next=/jobs");
            assert!(clear_session);
        }
        _ => panic!("expected a redirect"),
    }
    assert!(matches!(ui_auth_after_refresh("/", true), UiAuthStep::ContinueRenewed));
    assert!(matches!(
        ui_auth_after_refresh("/", false),
        UiAuthStep::Redirect { clear_session: true, .. }
    ));
}

#[test]
fn removal_cookie_expires_immediately() {
    let c = removal_cookie("payplan_refresh", false);
    assert_eq!(c.value, "");
    assert_eq!(c.max_age_secs, 0);
    assert_eq!(c.path, "/");
    assert!(c.http_only);
}

#[test]
fn cookie_secure_follows_setting_then_build() {
    assert!(!cookie_secure(Some("false"), false));
    assert!(!cookie_secure(Some("0"), false));
    assert!(cookie_secure(Some("yes"), true));
    assert!(cookie_secure(None, false));
    assert!(!cookie_secure(None, true));
}

#[test]
fn origin_check_accepts_matching_origin_or_host() {
    let e = Some("https://pay.example.com/app");
    assert_eq!(expected_host("https://pay.example.com/app"), "pay.example.com");
    assert_eq!(expected_host("pay.example.com"), "pay.example.com");
    assert!(origin_allowed(None, true, Some("https://evil.example"), None));
    assert!(origin_allowed(e, true, Some("https://pay.example.com/app"), None));
    assert!(!origin_allowed(e, true, Some("https://evil.example"), Some("pay.example.com")));
    assert!(origin_allowed(e, false, None, Some("pay.example.com")));
    assert!(!origin_allowed(e, false, None, Some("other.example.com")));
    assert!(!origin_allowed(e, true, None, Some("pay.example.com")));
}

#[test]
fn form_action_redirects() {
    assert_eq!(action_redirect(true, "/companies"), "/companies?status=created");
    assert_eq!(action_redirect(false, "/billing"), "/billing?error=validation");
    assert_eq!(job_redirect(true), "/jobs?status=completed");
    assert_eq!(job_redirect(false), "/jobs?error=job_failed");
    assert_eq!(login_result_redirect(true, Some("/users")), "/users");
    assert_eq!(login_result_redirect(false, Some("/users")), "/login?error=invalid_credentials");
}

fn user(role: UserRole, company: Option<u128>) -> AuthUser {
    AuthUser { user_id: 7, company_id: company, role }
}

#[test]
fn ui_jobs_are_for_platform_admins() {
    assert_eq!(ui_platform_admin_only(&user(UserRole::PlatformAdmin, None)), None);
    assert_eq!(ui_platform_admin_only(&user(UserRole::CompanyAdmin, Some(1))), Some(403));
}

#[test]
fn ui_catalog_form_rules() {
    let admin = user(UserRole::CompanyAdmin, Some(5));
    let c = ui_catalog_command(&admin, "Item".into(), Some("  \t".into()), Some("SKU-1".into()), "service")
        .ok()
        .unwrap();
    assert_eq!(c.company_id, 5);
    assert_eq!(c.item_type, CatalogItemType::Service);
    assert_eq!(c.description, None);
    assert_eq!(c.sku.as_deref(), Some("SKU-1"));
    assert!(matches!(
        ui_catalog_command(&user(UserRole::PlatformAdmin, None), "x".into(), None, None, "product"),
        Err(UiResponse::Status(403))
    ));
    assert!(matches!(
        ui_catalog_command(&user(UserRole::User, Some(5)), "x".into(), None, None, "product"),
        Err(UiResponse::Status(403))
    ));
    match ui_catalog_command(&admin, "x".into(), None, None, "gadget") {
        Err(UiResponse::Redirect(t)) => assert_eq!(t, "/catalog?error=invalid_item_type"),
        _ => panic!("expected a redirect"),
    }
}

#[test]
fn ui_billing_form_rules() {
    let admin = user(UserRole::CompanyAdmin, Some(5));
    assert!(ui_billing_access(&admin, Ok(Some(5))).is_ok());
    assert!(matches!(ui_billing_access(&admin, Ok(Some(6))), Err(UiResponse::Status(403))));
    assert!(ui_billing_access(&user(UserRole::PlatformAdmin, None), Ok(Some(6))).is_ok());
    match ui_billing_access(&admin, Ok(None)) {
        Err(UiResponse::Redirect(t)) => assert_eq!(t, "/billing?error=not_found"),
        _ => panic!("expected a redirect"),
    }
    match ui_billing_access(&admin, Err(())) {
        Err(UiResponse::Redirect(t)) => assert_eq!(t, "/billing?error=internal"),
        _ => panic!("expected a redirect"),
    }
    let (t, r) = ui_billing_terms("recurring", Some("weekly")).ok().unwrap();
    assert_eq!(t, BillingType::Recurring);
    let r = r.unwrap();
    assert_eq!(r.interval, RecurrenceInterval::Weekly);
    assert_eq!((r.interval_count, r.trial_days, r.grace_period_days), (1, 0, 0));
    match ui_billing_terms("recurring", None) {
        Err(UiResponse::Redirect(t)) => assert_eq!(t, "/billing?error=invalid_interval"),
        _ => panic!("expected a redirect"),
    }
    match ui_billing_terms("weekly", None) {
        Err(UiResponse::Redirect(t)) => assert_eq!(t, "/billing?error=invalid_type"),
        _ => panic!("expected a redirect"),
    }
    assert!(ui_billing_terms("one_time", Some("bogus")).ok().unwrap().1.is_none());
}

#[test]
fn shell_policy_allows_only_the_nonced_scripts() {
    assert_eq!(
        content_security_policy("abc123"),
        "default-src 'self'; script-src 'self' 'nonce-abc123' 'wasm-unsafe-eval'; \
         style-src 'self'; img-src 'self' data:; object-src 'none'; base-uri 'self'; \
         frame-ancestors 'none'"
    );
}

#[test]
fn stylesheet_hash_comes_from_the_first_css_line() {
    assert_eq!(trimmed("  a b \t\r"), "a b");
    assert_eq!(trimmed(" \n "), "");
    assert_eq!(css_hash("js: 111\ncss: abc123 \r\nwasm: 222\n"), Some("abc123".to_string()));
    assert_eq!(css_hash("css:   \ncss:xyz"), Some("xyz".to_string()));
    assert_eq!(css_hash(" css: no\n"), None);
    assert_eq!(css_hash(""), None);
    assert_eq!(stylesheet_href("pkg", "payplan-ui", false, Some("css: abc")), "/pkg/payplan-ui.css");
    assert_eq!(stylesheet_href("pkg", "payplan-ui", true, Some("css: abc")), "/pkg/payplan-ui.abc.css");
    assert_eq!(stylesheet_href("pkg", "payplan-ui", true, None), "/pkg/payplan-ui.css");
    assert_eq!(stylesheet_href("pkg", "payplan-ui", true, Some("js: 1")), "/pkg/payplan-ui.css");
}
