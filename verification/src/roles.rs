//! Roles, the authenticated principal and tenant scoping.

use vstd::prelude::*;
use crate::text::str_eq;

verus! {

/// Role of a platform account.
#[derive(Debug, Clone, Copy, PartialEq, Eq, Structural)]
pub enum UserRole {
    /// A regular member.
    User,
    /// Administrator of one company.
    CompanyAdmin,
    /// Administrator of the whole platform.
    PlatformAdmin,
}

impl UserRole {
    /// The stored form of the role.
    pub open spec fn spec_label(self) -> Seq<char> {
        match self {
            UserRole::User => "user"@,
            UserRole::CompanyAdmin => "company_admin"@,
            UserRole::PlatformAdmin => "platform_admin"@,
        }
    }

    /// The stored form of the role.
    pub fn as_str(&self) -> (s: &'static str)
        ensures
            s@ == self.spec_label(),
    {
        match self {
            UserRole::User => "user",
            UserRole::CompanyAdmin => "company_admin",
            UserRole::PlatformAdmin => "platform_admin",
        }
    }

    /// The role whose stored form is `s`, if any.
    pub open spec fn spec_parse(s: Seq<char>) -> Option<UserRole> {
        if s == "user"@ {
            Some(UserRole::User)
        } else if s == "company_admin"@ {
            Some(UserRole::CompanyAdmin)
        } else if s == "platform_admin"@ {
            Some(UserRole::PlatformAdmin)
        } else {
            None
        }
    }

    /// Parse the stored form of a role.
    pub fn parse(s: &str) -> (r: Option<UserRole>)
        ensures
            r == UserRole::spec_parse(s@),
    {
        if str_eq(s, "user") {
            Some(UserRole::User)
        } else if str_eq(s, "company_admin") {
            Some(UserRole::CompanyAdmin)
        } else if str_eq(s, "platform_admin") {
            Some(UserRole::PlatformAdmin)
        } else {
            None
        }
    }

    /// Company administrators and platform administrators.
    pub open spec fn spec_is_admin(self) -> bool {
        self == UserRole::CompanyAdmin || self == UserRole::PlatformAdmin
    }

    /// True for company administrators and platform administrators.
    pub fn is_admin(&self) -> (r: bool)
        ensures
            r == self.spec_is_admin(),
    {
        match self {
            UserRole::User => false,
            _ => true,
        }
    }

    /// True for roles that may administer a company's catalog.
    pub fn can_admin_company(&self) -> (r: bool)
        ensures
            r == self.spec_is_admin(),
    {
        self.is_admin()
    }

    /// True only for platform administrators.
    pub fn is_platform_admin(&self) -> (r: bool)
        ensures
            r == (*self == UserRole::PlatformAdmin),
    {
        match self {
            UserRole::PlatformAdmin => true,
            _ => false,
        }
    }
}

/// Parsing a stored role gives back the role that was stored.
pub proof fn law_role_label_round_trip(role: UserRole)
    ensures
        UserRole::spec_parse(role.spec_label()) == Some(role),
{
    reveal_strlit("user");
    reveal_strlit("company_admin");
    reveal_strlit("platform_admin");
    assert("user"@.len() == 4);
    assert("company_admin"@.len() == 13);
    assert("platform_admin"@.len() == 14);
}

/// Distinct roles are stored under distinct labels.
pub proof fn law_role_labels_distinct(a: UserRole, b: UserRole)
    requires
        a != b,
    ensures
        a.spec_label() != b.spec_label(),
{
    law_role_label_round_trip(a);
    law_role_label_round_trip(b);
}

/// The authenticated principal.
#[derive(Debug, Clone)]
pub struct AuthUser {
    pub user_id: u128,
    pub company_id: Option<u128>,
    pub role: UserRole,
}

impl AuthUser {
    /// True if the caller is an administrator.
    pub fn is_admin(&self) -> (r: bool)
        ensures
            r == self.role.spec_is_admin(),
    {
        self.role.is_admin()
    }

    /// True if the caller may act on behalf of any user.
    pub fn can_impersonate(&self) -> (r: bool)
        ensures
            r == self.role.spec_is_admin(),
    {
        self.role.is_admin()
    }

    /// True only for platform admins, who may target any company.
    pub fn can_admin_platform(&self) -> (r: bool)
        ensures
            r == (self.role == UserRole::PlatformAdmin),
    {
        self.role.is_platform_admin()
    }
}

/// The set of records a query may see.
#[derive(Debug, Clone, Copy, PartialEq, Eq, Structural)]
pub enum TenantScope {
    /// One company's records.
    Company(u128),
    /// Every company's records.
    Platform,
}

/// The scope of the administration views for a caller: platform admins see
/// everything, other callers their company, and callers with no company the
/// whole platform.
pub fn scope(auth: &AuthUser) -> (r: TenantScope)
    ensures
        auth.role == UserRole::PlatformAdmin ==> r == TenantScope::Platform,
        auth.role != UserRole::PlatformAdmin ==> r == match auth.company_id {
            Some(c) => TenantScope::Company(c),
            None => TenantScope::Platform,
        },
{
    if auth.role.is_platform_admin() {
        TenantScope::Platform
    } else {
        match auth.company_id {
            Some(c) => TenantScope::Company(c),
            None => TenantScope::Platform,
        }
    }
}

/// The company a scope is restricted to, if any.
pub fn scope_company(scope: TenantScope) -> (r: Option<u128>)
    ensures
        r == match scope {
            TenantScope::Company(c) => Some(c),
            TenantScope::Platform => None::<u128>,
        },
{
    match scope {
        TenantScope::Company(c) => Some(c),
        TenantScope::Platform => None,
    }
}

} // verus!
