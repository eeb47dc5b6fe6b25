//! The JSON API's route table and its access requirements, and the
//! server's start-up settings.

use vstd::prelude::*;
use vstd::string::*;
use crate::session::RouteGuard;
use crate::text::str_eq;

verus! {

/// Endpoints of the JSON API.
#[derive(Debug, Clone, Copy, PartialEq, Eq, Structural)]
pub enum Endpoint {
    Health,
    Login,
    Refresh,
    RegisterUser,
    Logout,
    Purchase,
    ListPackages,
    CreateCompany,
    CreateCatalogItem,
    CreateBillingPlan,
    CreatePackage,
    RunRenewals,
    RunRoyalPotDistribution,
    CloseBinaryCycles,
}

/// Who may call an endpoint.
#[derive(Debug, Clone, Copy, PartialEq, Eq, Structural)]
pub enum Access {
    /// Anyone.
    Public,
    /// Callers passing the guard.
    Guarded(RouteGuard),
}

/// Who may call an endpoint: health, login, refresh and signup are public;
/// logout, purchases and the package list need a session; company, catalog,
/// billing plan and package creation need an administrator; the operations
/// jobs need a platform admin.
pub open spec fn spec_access(e: Endpoint) -> Access {
    match e {
        Endpoint::Health | Endpoint::Login | Endpoint::Refresh | Endpoint::RegisterUser => Access::Public,
        Endpoint::Logout | Endpoint::Purchase | Endpoint::ListPackages => Access::Guarded(
            RouteGuard::Authenticated,
        ),
        Endpoint::CreateCompany | Endpoint::CreateCatalogItem | Endpoint::CreateBillingPlan
        | Endpoint::CreatePackage => Access::Guarded(RouteGuard::CompanyAdmin),
        Endpoint::RunRenewals | Endpoint::RunRoyalPotDistribution | Endpoint::CloseBinaryCycles => Access::Guarded(
            RouteGuard::PlatformAdmin,
        ),
    }
}

/// Who may call an endpoint.
pub fn access(e: Endpoint) -> (r: Access)
    ensures
        r == spec_access(e),
{
    match e {
        Endpoint::Health | Endpoint::Login | Endpoint::Refresh | Endpoint::RegisterUser => Access::Public,
        Endpoint::Logout | Endpoint::Purchase | Endpoint::ListPackages => Access::Guarded(
            RouteGuard::Authenticated,
        ),
        Endpoint::CreateCompany | Endpoint::CreateCatalogItem | Endpoint::CreateBillingPlan
        | Endpoint::CreatePackage => Access::Guarded(RouteGuard::CompanyAdmin),
        Endpoint::RunRenewals | Endpoint::RunRoyalPotDistribution | Endpoint::CloseBinaryCycles => Access::Guarded(
            RouteGuard::PlatformAdmin,
        ),
    }
}

/// The endpoint serving a method and path, if any.
pub open spec fn spec_route(method: Seq<char>, path: Seq<char>) -> Option<Endpoint> {
    if method == "GET"@ {
        if path == "/health"@ {
            Some(Endpoint::Health)
        } else if path == "/api/packages"@ {
            Some(Endpoint::ListPackages)
        } else {
            None
        }
    } else if method == "POST"@ {
        if path == "/api/auth/login"@ {
            Some(Endpoint::Login)
        } else if path == "/api/auth/refresh"@ {
            Some(Endpoint::Refresh)
        } else if path == "/api/users"@ {
            Some(Endpoint::RegisterUser)
        } else if path == "/api/auth/logout"@ {
            Some(Endpoint::Logout)
        } else if path == "/api/purchases"@ {
            Some(Endpoint::Purchase)
        } else if path == "/api/companies"@ {
            Some(Endpoint::CreateCompany)
        } else if path == "/api/catalog_items"@ {
            Some(Endpoint::CreateCatalogItem)
        } else if path == "/api/billing_plans"@ {
            Some(Endpoint::CreateBillingPlan)
        } else if path == "/api/packages"@ {
            Some(Endpoint::CreatePackage)
        } else if path == "/admin/jobs/renewals/run"@ {
            Some(Endpoint::RunRenewals)
        } else if path == "/admin/jobs/royal_pot_distribution/run"@ {
            Some(Endpoint::RunRoyalPotDistribution)
        } else if path == "/admin/jobs/binary_cycle_close/run"@ {
            Some(Endpoint::CloseBinaryCycles)
        } else {
            None
        }
    } else {
        None
    }
}

/// The endpoint serving a method and path, if any.
pub fn route(method: &str, path: &str) -> (r: Option<Endpoint>)
    ensures
        r == spec_route(method@, path@),
{
    if str_eq(method, "GET") {
        if str_eq(path, "/health") {
            Some(Endpoint::Health)
        } else if str_eq(path, "/api/packages") {
            Some(Endpoint::ListPackages)
        } else {
            None
        }
    } else if str_eq(method, "POST") {
        if str_eq(path, "/api/auth/login") {
            Some(Endpoint::Login)
        } else if str_eq(path, "/api/auth/refresh") {
            Some(Endpoint::Refresh)
        } else if str_eq(path, "/api/users") {
            Some(Endpoint::RegisterUser)
        } else if str_eq(path, "/api/auth/logout") {
            Some(Endpoint::Logout)
        } else if str_eq(path, "/api/purchases") {
            Some(Endpoint::Purchase)
        } else if str_eq(path, "/api/companies") {
            Some(Endpoint::CreateCompany)
        } else if str_eq(path, "/api/catalog_items") {
            Some(Endpoint::CreateCatalogItem)
        } else if str_eq(path, "/api/billing_plans") {
            Some(Endpoint::CreateBillingPlan)
        } else if str_eq(path, "/api/packages") {
            Some(Endpoint::CreatePackage)
        } else if str_eq(path, "/admin/jobs/renewals/run") {
            Some(Endpoint::RunRenewals)
        } else if str_eq(path, "/admin/jobs/royal_pot_distribution/run") {
            Some(Endpoint::RunRoyalPotDistribution)
        } else if str_eq(path, "/admin/jobs/binary_cycle_close/run") {
            Some(Endpoint::CloseBinaryCycles)
        } else {
            None
        }
    } else {
        None
    }
}

/// The method and path the JSON API documents for each endpoint.
pub open spec fn documented_route(e: Endpoint) -> (Seq<char>, Seq<char>) {
    match e {
        Endpoint::Health => ("GET"@, "/health"@),
        Endpoint::Login => ("POST"@, "/api/auth/login"@),
        Endpoint::Refresh => ("POST"@, "/api/auth/refresh"@),
        Endpoint::RegisterUser => ("POST"@, "/api/users"@),
        Endpoint::Logout => ("POST"@, "/api/auth/logout"@),
        Endpoint::Purchase => ("POST"@, "/api/purchases"@),
        Endpoint::ListPackages => ("GET"@, "/api/packages"@),
        Endpoint::CreateCompany => ("POST"@, "/api/companies"@),
        Endpoint::CreateCatalogItem => ("POST"@, "/api/catalog_items"@),
        Endpoint::CreateBillingPlan => ("POST"@, "/api/billing_plans"@),
        Endpoint::CreatePackage => ("POST"@, "/api/packages"@),
        Endpoint::RunRenewals => ("POST"@, "/admin/jobs/renewals/run"@),
        Endpoint::RunRoyalPotDistribution => ("POST"@, "/admin/jobs/royal_pot_distribution/run"@),
        Endpoint::CloseBinaryCycles => ("POST"@, "/admin/jobs/binary_cycle_close/run"@),
    }
}

/// Each endpoint is served at its documented method and path, and a method
/// and path that are served reach exactly the endpoint documented there:
/// no two documented routes run each other's handler.
pub proof fn law_routes_reach_their_documented_endpoint(e: Endpoint, method: Seq<char>, path: Seq<char>)
    ensures
        spec_route(documented_route(e).0, documented_route(e).1) == Some(e),
        spec_route(method, path) == Some(e) ==> method == documented_route(e).0 && path
            == documented_route(e).1,
{
    reveal_strlit("GET");
    reveal_strlit("POST");
    reveal_strlit("/health");
    reveal_strlit("/api/auth/login");
    reveal_strlit("/api/auth/refresh");
    reveal_strlit("/api/users");
    reveal_strlit("/api/auth/logout");
    reveal_strlit("/api/purchases");
    reveal_strlit("/api/packages");
    reveal_strlit("/api/companies");
    reveal_strlit("/api/catalog_items");
    reveal_strlit("/api/billing_plans");
    reveal_strlit("/admin/jobs/renewals/run");
    reveal_strlit("/admin/jobs/royal_pot_distribution/run");
    reveal_strlit("/admin/jobs/binary_cycle_close/run");
    assert("GET"@.len() == 3);
    assert("POST"@.len() == 4);
    assert("/health"@.len() == 7);
    assert("/api/auth/login"@.len() == 15);
    assert("/api/auth/refresh"@.len() == 17);
    assert("/api/users"@.len() == 10);
    assert("/api/auth/logout"@.len() == 16);
    assert("/api/purchases"@.len() == 14);
    assert("/api/packages"@.len() == 13);
    assert("/api/companies"@.len() == 14);
    assert("/api/catalog_items"@.len() == 18);
    assert("/api/billing_plans"@.len() == 18);
    assert("/admin/jobs/renewals/run"@.len() == 24);
    assert("/admin/jobs/royal_pot_distribution/run"@.len() == 38);
    assert("/admin/jobs/binary_cycle_close/run"@.len() == 34);
    assert("/api/purchases"@[5] == 'p');
    assert("/api/companies"@[5] == 'c');
    assert("/api/catalog_items"@[5] == 'c');
    assert("/api/billing_plans"@[5] == 'b');
}

/// Every route that changes compensation state through an operations job
/// is reserved to platform admins, and every write of catalog data to
/// administrators.
pub proof fn law_sensitive_routes_are_guarded(method: Seq<char>, path: Seq<char>)
    ensures
        match spec_route(method, path) {
            Some(e) => ((e == Endpoint::RunRenewals || e == Endpoint::RunRoyalPotDistribution || e
                == Endpoint::CloseBinaryCycles) ==> spec_access(e) == Access::Guarded(
                RouteGuard::PlatformAdmin,
            )) && ((e == Endpoint::CreateCompany || e == Endpoint::CreateCatalogItem || e
                == Endpoint::CreateBillingPlan || e == Endpoint::CreatePackage) ==> spec_access(e)
                == Access::Guarded(RouteGuard::CompanyAdmin)),
            None => true,
        },
{
}

/// The single cross-origin caller the API admits: the configured
/// `CORS_ORIGIN` when it is set and not empty; otherwise none.
pub fn cors_origin(setting: Option<&str>) -> (r: Option<String>)
    ensures
        match setting {
            Some(s) => if s@.len() > 0 {
                (r matches Some(o) && o@ == s@)
            } else {
                r is None
            },
            None => r is None,
        },
{
    match setting {
        Some(s) => if s.unicode_len() > 0 {
            Some(String::from_str(s))
        } else {
            None
        },
        None => None,
    }
}

/// The signing secret of the JWT service: a non-empty `JWT_SECRET`; release
/// builds refuse to start without one; debug builds fall back to the value
/// of `JWT_SECRET` as it is (even empty), or to a development default.
pub fn jwt_secret(setting: Option<&str>, debug_build: bool) -> (r: Result<String, String>)
    ensures
        (setting matches Some(s) && s@.len() > 0) ==> (r matches Ok(k) && k@ == setting->0@),
        !(setting matches Some(s) && s@.len() > 0) && !debug_build ==> (r matches Err(m) && m@
            == "JWT_SECRET must be set to a non-empty value in release builds"@),
        !(setting matches Some(s) && s@.len() > 0) && debug_build ==> match setting {
            Some(s) => (r matches Ok(k) && k@ == s@),
            None => (r matches Ok(k) && k@ == "dev-secret-change-me"@),
        },
{
    match setting {
        Some(s) => if s.unicode_len() > 0 {
            return Ok(String::from_str(s));
        },
        None => {},
    }
    if !debug_build {
        return Err(String::from_str("JWT_SECRET must be set to a non-empty value in release builds"));
    }
    match setting {
        Some(s) => Ok(String::from_str(s)),
        None => Ok(String::from_str("dev-secret-change-me")),
    }
}

/// The health endpoint's status word.
pub fn health_status(database_ok: bool) -> (r: &'static str)
    ensures
        database_ok ==> r@ == "ok"@,
        !database_ok ==> r@ == "degraded"@,
{
    if database_ok {
        "ok"
    } else {
        "degraded"
    }
}

} // verus!
