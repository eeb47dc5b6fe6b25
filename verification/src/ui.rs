//! Rules of the server-rendered administration UI: which paths need a
//! session, where redirects may lead, session cookies, request-origin
//! checks, pagination and the UI form actions.

use vstd::prelude::*;
use vstd::string::*;
use crate::codes::{
    parse_billing_type, parse_catalog_item_type, BillingType, CatalogItemType, RecurrenceInterval,
};
use crate::errors::{tagged, STATUS_FORBIDDEN};
use crate::requests::{CreateCatalogItemCommand, RecurringSettings};
use crate::roles::{AuthUser, UserRole};
use crate::text::{find, find_from, has_prefix, is_blank, is_white_space, lemma_find_from_bounds, str_eq};

verus! {

/// Name of the cookie holding the access token.
pub const ACCESS_COOKIE: &'static str = "payplan_access";
/// Name of the cookie holding the refresh token.
pub const REFRESH_COOKIE: &'static str = "payplan_refresh";
/// Lifetime of the access cookie, in seconds.
pub const ACCESS_COOKIE_MAX_AGE: i64 = 900;
/// Lifetime of the refresh cookie, in seconds.
pub const REFRESH_COOKIE_MAX_AGE: i64 = 604800;

/// The UI pages a login may send the browser back to.
pub open spec fn is_ui_destination(s: Seq<char>) -> bool {
    s == "/"@ || s == "/packages"@ || s == "/companies"@ || s == "/catalog"@ || s == "/billing"@
        || s == "/purchases"@ || s == "/users"@ || s == "/jobs"@
}

fn ui_destination(s: &str) -> (r: Option<&'static str>)
    ensures
        is_ui_destination(s@) ==> (r matches Some(t) && t@ == s@),
        !is_ui_destination(s@) ==> r is None,
{
    if str_eq(s, "/") {
        Some("/")
    } else if str_eq(s, "/packages") {
        Some("/packages")
    } else if str_eq(s, "/companies") {
        Some("/companies")
    } else if str_eq(s, "/catalog") {
        Some("/catalog")
    } else if str_eq(s, "/billing") {
        Some("/billing")
    } else if str_eq(s, "/purchases") {
        Some("/purchases")
    } else if str_eq(s, "/users") {
        Some("/users")
    } else if str_eq(s, "/jobs") {
        Some("/jobs")
    } else {
        None
    }
}

/// Where a login may send the browser: a known UI page, otherwise the
/// dashboard.
pub open spec fn spec_safe_next(next: Option<Seq<char>>) -> Seq<char> {
    match next {
        Some(s) => if is_ui_destination(s) {
            s
        } else {
            "/"@
        },
        None => "/"@,
    }
}

/// Restrict a post-login redirect to the known UI pages.
pub fn safe_next(next: Option<&str>) -> (r: &'static str)
    ensures
        r@ == spec_safe_next(
            match next {
                Some(s) => Some(s@),
                None => None,
            },
        ),
        is_ui_destination(r@),
{
    match next {
        None => "/",
        Some(s) => match ui_destination(s) {
            Some(t) => t,
            None => "/",
        },
    }
}

/// A login never sends the browser off the site: where it leads is a path
/// on this host (it starts with one `/`, never `//` or a scheme).
pub proof fn law_login_redirect_stays_on_site(next: Option<Seq<char>>)
    ensures
        spec_safe_next(next).len() > 0,
        spec_safe_next(next)[0] == '/',
        spec_safe_next(next).len() == 1 || spec_safe_next(next)[1] != '/',
{
    reveal_strlit("/");
    reveal_strlit("/packages");
    reveal_strlit("/companies");
    reveal_strlit("/catalog");
    reveal_strlit("/billing");
    reveal_strlit("/purchases");
    reveal_strlit("/users");
    reveal_strlit("/jobs");
    let r = spec_safe_next(next);
    if r == "/packages"@ {
        assert(r[1] == 'p');
    } else if r == "/companies"@ {
        assert(r[1] == 'c');
    } else if r == "/catalog"@ {
        assert(r[1] == 'c');
    } else if r == "/billing"@ {
        assert(r[1] == 'b');
    } else if r == "/purchases"@ {
        assert(r[1] == 'p');
    } else if r == "/users"@ {
        assert(r[1] == 'u');
    } else if r == "/jobs"@ {
        assert(r[1] == 'j');
    } else {
        assert(r == "/"@);
    }
}

/// The login page to send an unauthenticated browser to: it remembers a
/// known page other than the dashboard.
pub open spec fn spec_login_redirect(path: Seq<char>) -> Seq<char> {
    if is_ui_destination(path) && path != "/"@ {
        "/login?next="@ + path
    } else {
        "/login"@
    }
}

/// The login page to send an unauthenticated browser to.
pub fn login_redirect_target(path: &str) -> (r: String)
    ensures
        r@ == spec_login_redirect(path@),
{
    if str_eq(path, "/") {
        return String::from_str("/login");
    }
    match ui_destination(path) {
        Some(_) => tagged("/login?next=", path),
        None => String::from_str("/login"),
    }
}

/// Paths of the UI that need a session.
pub open spec fn spec_protected(path: Seq<char>) -> bool {
    is_ui_destination(path) || path == "/logout"@ || path == "/jobs/renewals"@ || path
        == "/jobs/royal-pot"@ || path == "/jobs/binary-cycle"@ || ("/_server/"@.len() <= path.len()
        && path.subrange(0, "/_server/"@.len() as int) == "/_server/"@)
}

/// Whether a UI path needs a session.
pub fn is_protected_ui_path(path: &str) -> (r: bool)
    ensures
        r == spec_protected(path@),
{
    match ui_destination(path) {
        Some(_) => true,
        None => str_eq(path, "/logout") || str_eq(path, "/jobs/renewals") || str_eq(
            path,
            "/jobs/royal-pot",
        ) || str_eq(path, "/jobs/binary-cycle") || has_prefix(path, "/_server/"),
    }
}

/// The JSON API authenticates with bearer tokens only: no path under
/// `/api/` is cookie-authenticated by the UI layer.
pub proof fn law_api_paths_are_not_ui_protected(path: Seq<char>)
    requires
        5 <= path.len(),
        path.subrange(0, 5) == "/api/"@,
    ensures
        !spec_protected(path),
{
    reveal_strlit("/api/");
    assert("/api/"@[1] == 'a');
    assert(path.subrange(0, 5)[1] == path[1]);
    assert(path[1] == 'a');
    reveal_strlit("/");
    reveal_strlit("/packages");
    reveal_strlit("/companies");
    reveal_strlit("/catalog");
    reveal_strlit("/billing");
    reveal_strlit("/purchases");
    reveal_strlit("/users");
    reveal_strlit("/jobs");
    reveal_strlit("/logout");
    reveal_strlit("/jobs/renewals");
    reveal_strlit("/jobs/royal-pot");
    reveal_strlit("/jobs/binary-cycle");
    reveal_strlit("/_server/");
    assert("/"@.len() == 1);
    assert("/packages"@[1] == 'p');
    assert("/companies"@[1] == 'c');
    assert("/catalog"@[1] == 'c');
    assert("/billing"@[1] == 'b');
    assert("/purchases"@[1] == 'p');
    assert("/users"@[1] == 'u');
    assert("/jobs"@[1] == 'j');
    assert("/logout"@[1] == 'l');
    assert("/jobs/renewals"@[1] == 'j');
    assert("/jobs/royal-pot"@[1] == 'j');
    assert("/jobs/binary-cycle"@[1] == 'j');
    assert("/_server/"@.len() == 9);
    assert("/_server/"@[1] == '_');
    if "/_server/"@.len() <= path.len() && path.subrange(0, 9) == "/_server/"@ {
        assert(path.subrange(0, 9)[1] == path[1]);
    }
}

/// Every known UI page needs a session.
pub proof fn law_ui_pages_are_protected(path: Seq<char>)
    requires
        is_ui_destination(path),
    ensures
        spec_protected(path),
{
}

/// The form actions the admin UI posts to: signing in and out, creating
/// companies, catalog items and billing plans, and running the operations
/// jobs.
pub open spec fn is_ui_action(path: Seq<char>) -> bool {
    path == "/login"@ || path == "/logout"@ || path == "/companies"@ || path == "/catalog"@
        || path == "/billing"@ || path == "/jobs/renewals"@ || path == "/jobs/royal-pot"@
        || path == "/jobs/binary-cycle"@
}

/// Every UI form action needs a session except signing in: in particular
/// no operations job and no sign-out is served to a browser without one.
pub proof fn law_ui_actions_need_a_session_but_login(path: Seq<char>)
    requires
        is_ui_action(path),
    ensures
        spec_protected(path) <==> path != "/login"@,
{
    reveal_strlit("/login");
    reveal_strlit("/");
    reveal_strlit("/packages");
    reveal_strlit("/companies");
    reveal_strlit("/catalog");
    reveal_strlit("/billing");
    reveal_strlit("/purchases");
    reveal_strlit("/users");
    reveal_strlit("/jobs");
    reveal_strlit("/logout");
    reveal_strlit("/jobs/renewals");
    reveal_strlit("/jobs/royal-pot");
    reveal_strlit("/jobs/binary-cycle");
    reveal_strlit("/_server/");
    if path == "/login"@ {
        assert(path.len() == 6);
        assert(path[1] == 'l' && path[4] == 'i');
        assert("/"@.len() == 1);
        assert("/packages"@.len() == 9);
        assert("/companies"@.len() == 10);
        assert("/catalog"@.len() == 8);
        assert("/billing"@.len() == 8);
        assert("/purchases"@.len() == 10);
        assert("/users"@[1] == 'u');
        assert("/jobs"@.len() == 5);
        assert("/logout"@.len() == 7);
        assert("/jobs/renewals"@.len() == 14);
        assert("/jobs/royal-pot"@.len() == 15);
        assert("/jobs/binary-cycle"@.len() == 18);
        assert("/_server/"@.len() == 9);
    } else {
        assert(path != "/login"@);
    }
}

/// Step of the UI session check.
#[derive(Debug, Clone)]
pub enum UiAuthStep {
    /// Serve the request with the session as it is.
    Continue,
    /// Serve the request and store the freshly issued tokens.
    ContinueRenewed,
    /// Verify the access cookie next.
    VerifyAccess,
    /// Try to rotate the refresh cookie next.
    TryRefresh,
    /// Send the browser to the login page, dropping the session cookies when
    /// `clear_session` is set.
    Redirect { target: String, clear_session: bool },
}

/// First step: unprotected paths pass; a protected path without an access
/// cookie goes to the login page.
pub fn ui_auth_start(path: &str, has_access_cookie: bool) -> (r: UiAuthStep)
    ensures
        !spec_protected(path@) ==> r is Continue,
        spec_protected(path@) && !has_access_cookie ==> (r matches UiAuthStep::Redirect {
            target,
            clear_session,
        } && target@ == spec_login_redirect(path@) && !clear_session),
        spec_protected(path@) && has_access_cookie ==> r is VerifyAccess,
{
    if !is_protected_ui_path(path) {
        UiAuthStep::Continue
    } else if !has_access_cookie {
        UiAuthStep::Redirect { target: login_redirect_target(path), clear_session: false }
    } else {
        UiAuthStep::VerifyAccess
    }
}

/// Second step, after verifying the access cookie: a valid one passes; an
/// invalid one is replaced through the refresh cookie when there is one,
/// and otherwise the session is dropped.
pub fn ui_auth_after_access(path: &str, access_ok: bool, has_refresh_cookie: bool) -> (r:
    UiAuthStep)
    ensures
        access_ok ==> r is Continue,
        !access_ok && has_refresh_cookie ==> r is TryRefresh,
        !access_ok && !has_refresh_cookie ==> (r matches UiAuthStep::Redirect {
            target,
            clear_session,
        } && target@ == spec_login_redirect(path@) && clear_session),
{
    if access_ok {
        UiAuthStep::Continue
    } else if has_refresh_cookie {
        UiAuthStep::TryRefresh
    } else {
        UiAuthStep::Redirect { target: login_redirect_target(path), clear_session: true }
    }
}

/// Last step, after trying to rotate the refresh cookie.
pub fn ui_auth_after_refresh(path: &str, refresh_ok: bool) -> (r: UiAuthStep)
    ensures
        refresh_ok ==> r is ContinueRenewed,
        !refresh_ok ==> (r matches UiAuthStep::Redirect { target, clear_session }
            && target@ == spec_login_redirect(path@) && clear_session),
{
    if refresh_ok {
        UiAuthStep::ContinueRenewed
    } else {
        UiAuthStep::Redirect { target: login_redirect_target(path), clear_session: true }
    }
}

/// Whether the session check serves a request, given the cookies the
/// browser sent and what verifying them gave.
pub open spec fn ui_auth_serves(
    path: Seq<char>,
    has_access_cookie: bool,
    access_ok: bool,
    has_refresh_cookie: bool,
    refresh_ok: bool,
) -> bool {
    !spec_protected(path) || (has_access_cookie && (access_ok || (has_refresh_cookie
        && refresh_ok)))
}

/// A protected page is served only to a browser whose access cookie
/// verified, or whose refresh cookie was rotated; following the three steps
/// serves exactly those requests.
pub proof fn law_ui_session_required(
    path: Seq<char>,
    has_access_cookie: bool,
    access_ok: bool,
    has_refresh_cookie: bool,
    refresh_ok: bool,
)
    requires
        spec_protected(path),
        ui_auth_serves(path, has_access_cookie, access_ok, has_refresh_cookie, refresh_ok),
    ensures
        has_access_cookie,
        access_ok || (has_refresh_cookie && refresh_ok),
{
}

/// Attribute `SameSite` of a cookie.
#[derive(Debug, Clone, Copy, PartialEq, Eq, Structural)]
pub enum SameSite {
    Strict,
    Lax,
    NoRestriction,
}

/// A session cookie as the UI sets it.
#[derive(Debug, Clone)]
pub struct CookieSpec {
    pub name: String,
    pub value: String,
    pub http_only: bool,
    pub secure: bool,
    pub same_site: SameSite,
    pub path: String,
    pub max_age_secs: i64,
}

/// A session token cookie: HTTP-only, site-wide, `SameSite=Lax`.
pub fn token_cookie(name: &str, value: String, max_age_seconds: i64, secure: bool) -> (c: CookieSpec)
    ensures
        c.name@ == name@,
        c.value@ == value@,
        c.http_only,
        c.secure == secure,
        c.same_site == SameSite::Lax,
        c.path@ == "/"@,
        c.max_age_secs == max_age_seconds,
{
    CookieSpec {
        name: String::from_str(name),
        value,
        http_only: true,
        secure,
        same_site: SameSite::Lax,
        path: String::from_str("/"),
        max_age_secs: max_age_seconds,
    }
}

/// A cookie that removes a session token cookie.
pub fn removal_cookie(name: &str, secure: bool) -> (c: CookieSpec)
    ensures
        c.name@ == name@,
        c.value@ == Seq::<char>::empty(),
        c.http_only,
        c.secure == secure,
        c.same_site == SameSite::Lax,
        c.path@ == "/"@,
        c.max_age_secs == 0,
{
    CookieSpec {
        name: String::from_str(name),
        value: String::new(),
        http_only: true,
        secure,
        same_site: SameSite::Lax,
        path: String::from_str("/"),
        max_age_secs: 0,
    }
}

/// Whether cookies carry the `Secure` attribute: `COOKIE_SECURE` decides when
/// set (only "false" and "0" turn it off); otherwise release builds set it.
pub fn cookie_secure(setting: Option<&str>, debug_build: bool) -> (r: bool)
    ensures
        match setting {
            Some(v) => r == (v@ != "false"@ && v@ != "0"@),
            None => r == !debug_build,
        },
{
    match setting {
        Some(v) => !str_eq(v, "false") && !str_eq(v, "0"),
        None => !debug_build,
    }
}

/// The host part of the configured public origin: what follows the first
/// "://" (or the whole text), up to the first "/".
pub open spec fn spec_expected_host(e: Seq<char>) -> Seq<char> {
    let rest = match find_from(e, "://"@, 0) {
        Some(i) => e.subrange(i + "://"@.len(), e.len() as int),
        None => e,
    };
    match find_from(rest, "/"@, 0) {
        Some(j) => rest.subrange(0, j),
        None => rest,
    }
}

/// The host part of the configured public origin.
pub fn expected_host(e: &str) -> (r: String)
    ensures
        r@ == spec_expected_host(e@),
{
    let n = e.unicode_len();
    let rest: &str = match find(e, "://") {
        Some(i) => {
            proof {
                lemma_find_from_bounds(e@, "://"@, 0);
            }
            let k = "://".unicode_len();
            e.substring_char(i + k, n)
        },
        None => e,
    };
    let m = rest.unicode_len();
    match find(rest, "/") {
        Some(j) => {
            proof {
                lemma_find_from_bounds(rest@, "/"@, 0);
            }
            String::from_str(rest.substring_char(0, j))
        },
        None => String::from_str(rest),
    }
}

/// Cross-site request check of the UI's form actions. With no configured
/// public origin every request passes; otherwise the `Origin` header must be
/// the public origin, or, when the request has no `Origin` header, the
/// `Host` header must be the origin's host. `origin` and `host` are the
/// headers' text when present and readable.
pub fn origin_allowed(
    expected: Option<&str>,
    origin_header_present: bool,
    origin: Option<&str>,
    host: Option<&str>,
) -> (r: bool)
    ensures
        match expected {
            None => r,
            Some(e) => r == ((origin matches Some(o) && o@ == e@) || (!origin_header_present
                && (host matches Some(h) && h@ == spec_expected_host(e@)))),
        },
{
    match expected {
        None => true,
        Some(e) => {
            let origin_matches = match origin {
                Some(o) => str_eq(o, e),
                None => false,
            };
            let host_name = expected_host(e);
            let host_matches = match host {
                Some(h) => str_eq(h, host_name.as_str()),
                None => false,
            };
            origin_matches || (!origin_header_present && host_matches)
        },
    }
}

/// Pagination links of a list page.
#[derive(Debug, Clone, Copy, PartialEq, Eq, Structural)]
pub struct PaginationState {
    pub last_page: u64,
    pub previous: u32,
    pub next: u64,
}

/// Number of pages needed for `total` rows of `page_size`, at least one.
pub open spec fn spec_last_page(total: u64, page_size: u32) -> int {
    let pages: int = if total % (page_size as u64) == 0 {
        (total / (page_size as u64)) as int
    } else {
        total / (page_size as u64) + 1
    };
    if pages < 1 {
        1
    } else {
        pages
    }
}

/// Links of a list page: the previous page is at least the first, the next
/// page at most the last.
pub fn pagination_state(page: u32, page_size: u32, total: u64) -> (r: PaginationState)
    requires
        page_size > 0,
    ensures
        r.last_page == spec_last_page(total, page_size),
        r.previous == (if page <= 1 { 1 } else { page - 1 }),
        r.next == (if page as int + 1 <= r.last_page { page as int + 1 } else { r.last_page as int }),
{
    let ps = page_size as u64;
    let q = total / ps;
    let pages = if total % ps == 0 {
        q
    } else {
        assert(q < u64::MAX) by (nonlinear_arith)
            requires
                q == total / ps,
                ps >= 1,
                total % ps != 0,
        ;
        q + 1
    };
    let last_page = if pages < 1 {
        1
    } else {
        pages
    };
    let previous = if page <= 1 {
        1
    } else {
        page - 1
    };
    let candidate = page as u64 + 1;
    let next = if candidate <= last_page {
        candidate
    } else {
        last_page
    };
    PaginationState { last_page, previous, next }
}

/// Pages reachable from the pagination links never leave the range of pages.
pub proof fn law_pagination_links_in_range(page: u32, page_size: u32, total: u64, s: PaginationState)
    requires
        page_size > 0,
        s.last_page == spec_last_page(total, page_size),
        s.previous == (if page <= 1 { 1 } else { page - 1 }),
        s.next == (if page as int + 1 <= s.last_page { page as int + 1 } else { s.last_page as int }),
    ensures
        1 <= s.previous,
        1 <= s.next <= s.last_page,
        1 <= s.last_page,
{
}

/// Paths and labels of the administration navigation.
pub open spec fn admin_nav_paths() -> Seq<Seq<char>> {
    seq![
        "/dashboard"@,
        "/packages"@,
        "/companies"@,
        "/catalog"@,
        "/billing"@,
        "/purchases"@,
        "/users"@,
        "/jobs"@,
    ]
}

/// The administration navigation: path and label of each entry.
pub fn admin_nav_items() -> (r: Vec<(&'static str, &'static str)>)
    ensures
        r@.len() == admin_nav_paths().len(),
        forall|i: int| 0 <= i < r@.len() ==> (#[trigger] r@[i]).0@ == admin_nav_paths()[i],
{
    let mut v: Vec<(&'static str, &'static str)> = Vec::new();
    v.push(("/dashboard", "Dashboard"));
    v.push(("/packages", "Packages"));
    v.push(("/companies", "Companies"));
    v.push(("/catalog", "Catalog"));
    v.push(("/billing", "Billing"));
    v.push(("/purchases", "Purchases"));
    v.push(("/users", "Users"));
    v.push(("/jobs", "Jobs"));
    v
}

/// Navigation paths are absolute and no two entries share a path.
pub proof fn law_admin_nav_paths_unique_and_absolute()
    ensures
        forall|i: int, j: int|
            0 <= i < admin_nav_paths().len() && 0 <= j < admin_nav_paths().len() && i != j
                ==> admin_nav_paths()[i] != admin_nav_paths()[j],
        forall|i: int|
            0 <= i < admin_nav_paths().len() ==> admin_nav_paths()[i].len() > 0
                && admin_nav_paths()[i][0] == '/',
{
    reveal_strlit("/dashboard");
    reveal_strlit("/packages");
    reveal_strlit("/companies");
    reveal_strlit("/catalog");
    reveal_strlit("/billing");
    reveal_strlit("/purchases");
    reveal_strlit("/users");
    reveal_strlit("/jobs");
    let p = admin_nav_paths();
    assert(p[0].len() == 10 && p[0][0] == '/' && p[0][1] == 'd');
    assert(p[1].len() == 9 && p[1][0] == '/' && p[1][1] == 'p');
    assert(p[2].len() == 10 && p[2][0] == '/' && p[2][1] == 'c');
    assert(p[3].len() == 8 && p[3][0] == '/' && p[3][1] == 'c');
    assert(p[4].len() == 8 && p[4][0] == '/' && p[4][1] == 'b');
    assert(p[5].len() == 10 && p[5][0] == '/' && p[5][1] == 'p');
    assert(p[6].len() == 6 && p[6][0] == '/' && p[6][1] == 'u');
    assert(p[7].len() == 5 && p[7][0] == '/' && p[7][1] == 'j');
}

/// Answer of a UI form action.
#[derive(Debug, Clone)]
pub enum UiResponse {
    /// A bare HTTP status.
    Status(u16),
    /// A redirect to the given location.
    Redirect(String),
}

/// Where a form action sends the browser after the command ran.
pub fn action_redirect(ok: bool, path: &str) -> (r: String)
    ensures
        ok ==> r@ == path@ + "?status=created"@,
        !ok ==> r@ == path@ + "?error=validation"@,
{
    if ok {
        String::from_str(path).concat("?status=created")
    } else {
        String::from_str(path).concat("?error=validation")
    }
}

/// Where the login form sends the browser.
pub fn login_result_redirect(ok: bool, next: Option<&str>) -> (r: &'static str)
    ensures
        ok ==> r@ == spec_safe_next(
            match next {
                Some(s) => Some(s@),
                None => None,
            },
        ),
        !ok ==> r@ == "/login?error=invalid_credentials"@,
{
    if ok {
        safe_next(next)
    } else {
        "/login?error=invalid_credentials"
    }
}

/// Operations jobs and company creation from the UI are for platform admins
/// only; others get 403.
pub fn ui_platform_admin_only(auth: &AuthUser) -> (r: Option<u16>)
    ensures
        auth.role == UserRole::PlatformAdmin ==> r is None,
        auth.role != UserRole::PlatformAdmin ==> r == Some(STATUS_FORBIDDEN),
{
    if auth.role.is_platform_admin() {
        None
    } else {
        Some(STATUS_FORBIDDEN)
    }
}

/// Where the jobs form sends the browser after a job ran.
pub fn job_redirect(ok: bool) -> (r: &'static str)
    ensures
        ok ==> r@ == "/jobs?status=completed"@,
        !ok ==> r@ == "/jobs?error=job_failed"@,
{
    if ok {
        "/jobs?status=completed"
    } else {
        "/jobs?error=job_failed"
    }
}

/// An optional form field: blank input counts as absent.
pub open spec fn non_blank(v: Option<String>) -> Option<String> {
    match v {
        Some(s) => if (forall|i: int| 0 <= i < s@.len() ==> is_white_space(#[trigger] s@[i])) {
            None
        } else {
            Some(s)
        },
        None => None,
    }
}

fn filter_blank(v: Option<String>) -> (r: Option<String>)
    ensures
        r == non_blank(v),
{
    match v {
        Some(s) => if is_blank(s.as_str()) {
            None
        } else {
            Some(s)
        },
        None => None,
    }
}

/// The catalog form: the caller must belong to a company and administer
/// it; the item goes to the caller's own company.
pub fn ui_catalog_command(
    auth: &AuthUser,
    name: String,
    description: Option<String>,
    sku: Option<String>,
    item_type: &str,
) -> (r: Result<CreateCatalogItemCommand, UiResponse>)
    ensures
        auth.company_id is None ==> (r matches Err(UiResponse::Status(s)) && s == STATUS_FORBIDDEN),
        auth.company_id is Some && !auth.role.spec_is_admin() ==> (r matches Err(
            UiResponse::Status(s),
        ) && s == STATUS_FORBIDDEN),
        auth.company_id is Some && auth.role.spec_is_admin() && CatalogItemType::spec_parse(
            item_type@,
        ) is None ==> (r matches Err(UiResponse::Redirect(t)) && t@
            == "/catalog?error=invalid_item_type"@),
        r matches Ok(c) ==> auth.company_id == Some(c.company_id) && auth.role.spec_is_admin()
            && CatalogItemType::spec_parse(item_type@) == Some(c.item_type) && c.name@ == name@
            && c.description == non_blank(description) && c.sku == non_blank(sku),
        auth.company_id is Some && auth.role.spec_is_admin() && CatalogItemType::spec_parse(
            item_type@,
        ) is Some ==> r is Ok,
{
    let company_id = match auth.company_id {
        Some(c) => c,
        None => {
            return Err(UiResponse::Status(STATUS_FORBIDDEN));
        },
    };
    if !auth.role.can_admin_company() {
        return Err(UiResponse::Status(STATUS_FORBIDDEN));
    }
    let t = match parse_catalog_item_type(item_type) {
        Ok(t) => t,
        Err(_) => {
            return Err(UiResponse::Redirect(String::from_str("/catalog?error=invalid_item_type")));
        },
    };
    Ok(CreateCatalogItemCommand {
        company_id,
        name,
        description: filter_blank(description),
        sku: filter_blank(sku),
        item_type: t,
    })
}

/// The billing form's access check: company administrators and platform
/// admins only; given the looked-up catalog item (`Err` when the lookup
/// failed, `Ok(None)` when there is no such item, otherwise its company),
/// the item must belong to the caller's company unless the caller is a
/// platform admin.
pub fn ui_billing_access(auth: &AuthUser, lookup: Result<Option<u128>, ()>) -> (r: Result<
    (),
    UiResponse,
>)
    ensures
        !auth.role.spec_is_admin() ==> (r matches Err(UiResponse::Status(s)) && s
            == STATUS_FORBIDDEN),
        auth.role.spec_is_admin() ==> match lookup {
            Err(_) => (r matches Err(UiResponse::Redirect(t)) && t@ == "/billing?error=internal"@),
            Ok(None) => (r matches Err(UiResponse::Redirect(t)) && t@
                == "/billing?error=not_found"@),
            Ok(Some(c)) => if auth.role == UserRole::PlatformAdmin || auth.company_id == Some(c) {
                r is Ok
            } else {
                (r matches Err(UiResponse::Status(s)) && s == STATUS_FORBIDDEN)
            },
        },
{
    if !auth.role.can_admin_company() {
        return Err(UiResponse::Status(STATUS_FORBIDDEN));
    }
    match lookup {
        Err(_) => Err(UiResponse::Redirect(String::from_str("/billing?error=internal"))),
        Ok(None) => Err(UiResponse::Redirect(String::from_str("/billing?error=not_found"))),
        Ok(Some(c)) => {
            let same = match auth.company_id {
                Some(own) => own == c,
                None => false,
            };
            if !auth.role.is_platform_admin() && !same {
                Err(UiResponse::Status(STATUS_FORBIDDEN))
            } else {
                Ok(())
            }
        },
    }
}

/// The billing form's terms: recurring plans recur once per chosen period,
/// with no trial and no grace period.
pub fn ui_billing_terms(billing_type: &str, recurrence_interval: Option<&str>) -> (r: Result<
    (BillingType, Option<RecurringSettings>),
    UiResponse,
>)
    ensures
        BillingType::spec_parse(billing_type@) is None ==> (r matches Err(UiResponse::Redirect(t))
            && t@ == "/billing?error=invalid_type"@),
        BillingType::spec_parse(billing_type@) == Some(BillingType::OneTime) ==> (r matches Ok(p)
            && p.0 == BillingType::OneTime && p.1 is None),
        BillingType::spec_parse(billing_type@) == Some(BillingType::Recurring) ==> match recurrence_interval {
            Some(i) => match RecurrenceInterval::spec_parse(i@) {
                Some(iv) => (r matches Ok(p) && p.0 == BillingType::Recurring && p.1 == Some(
                    RecurringSettings {
                        interval: iv,
                        interval_count: 1,
                        trial_days: 0,
                        grace_period_days: 0,
                    },
                )),
                None => (r matches Err(UiResponse::Redirect(t)) && t@
                    == "/billing?error=invalid_interval"@),
            },
            None => (r matches Err(UiResponse::Redirect(t)) && t@
                == "/billing?error=invalid_interval"@),
        },
{
    let bt = match parse_billing_type(billing_type) {
        Ok(t) => t,
        Err(_) => {
            return Err(UiResponse::Redirect(String::from_str("/billing?error=invalid_type")));
        },
    };
    match bt {
        BillingType::OneTime => Ok((BillingType::OneTime, None)),
        BillingType::Recurring => {
            let iv = match recurrence_interval {
                Some(i) => match crate::codes::parse_interval(i) {
                    Ok(v) => v,
                    Err(_) => {
                        return Err(
                            UiResponse::Redirect(String::from_str("/billing?error=invalid_interval")),
                        );
                    },
                },
                None => {
                    return Err(
                        UiResponse::Redirect(String::from_str("/billing?error=invalid_interval")),
                    );
                },
            };
            Ok(
                (
                    BillingType::Recurring,
                    Some(
                        RecurringSettings {
                            interval: iv,
                            interval_count: 1,
                            trial_days: 0,
                            grace_period_days: 0,
                        },
                    ),
                ),
            )
        },
    }
}

} // verus!
