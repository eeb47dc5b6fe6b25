//! Validation of API request bodies into application commands, including
//! the tenant (IDOR) guards.

use vstd::prelude::*;
use vstd::string::*;
use crate::codes::{
    parse_billing_type, parse_catalog_item_type, parse_interval, BillingType, CatalogItemType,
    PackageItemRole, RecurrenceInterval,
};
use crate::errors::{tagged, ApiError, AppError, STATUS_NOT_FOUND};
use crate::roles::{AuthUser, UserRole};
use crate::text::str_eq;

verus! {

/// The company a write may target. Platform admins may target any company;
/// everyone else is pinned to their own company, and a body naming another
/// company is refused with 403.
pub fn effective_company(auth: &AuthUser, body_company_id: u128) -> (r: Result<u128, ApiError>)
    ensures
        auth.role == UserRole::PlatformAdmin ==> r == Ok::<u128, ApiError>(body_company_id),
        r matches Ok(c) ==> c == body_company_id,
        r is Ok <==> (auth.role == UserRole::PlatformAdmin || auth.company_id == Some(body_company_id)),
        auth.role != UserRole::PlatformAdmin ==> match auth.company_id {
            None => (r matches Err(e) && e.status == 403 && e.message@
                == "caller is not scoped to a company"@),
            Some(own) => if own == body_company_id {
                r == Ok::<u128, ApiError>(own)
            } else {
                (r matches Err(e) && e.status == 403 && e.message@
                    == "cannot create resources for another company"@)
            },
        },
{
    if auth.can_admin_platform() {
        return Ok(body_company_id);
    }
    match auth.company_id {
        None => Err(ApiError::forbidden(String::from_str("caller is not scoped to a company"))),
        Some(own) => {
            if own != body_company_id {
                Err(ApiError::forbidden(String::from_str("cannot create resources for another company")))
            } else {
                Ok(own)
            }
        },
    }
}

/// Body of a catalog item creation request.
#[derive(Debug, Clone)]
pub struct CreateCatalogItemBody {
    pub company_id: u128,
    pub name: String,
    pub description: Option<String>,
    pub sku: Option<String>,
    pub item_type: String,
}

/// Command creating a catalog item.
#[derive(Debug, Clone)]
pub struct CreateCatalogItemCommand {
    pub company_id: u128,
    pub name: String,
    pub description: Option<String>,
    pub sku: Option<String>,
    pub item_type: CatalogItemType,
}

/// Validate a catalog item request: the item type is checked first, then
/// the tenant guard.
pub fn catalog_item_command(auth: &AuthUser, body: CreateCatalogItemBody) -> (r: Result<
    CreateCatalogItemCommand,
    ApiError,
>)
    ensures
        CatalogItemType::spec_parse(body.item_type@) is None ==> (r matches Err(e) && e.status
            == 400 && e.message@ == "unknown item_type: "@ + body.item_type@),
        r matches Ok(c) ==> CatalogItemType::spec_parse(body.item_type@) == Some(c.item_type)
            && c.company_id == body.company_id && c.name@ == body.name@ && c.description
            == body.description && c.sku == body.sku,
        CatalogItemType::spec_parse(body.item_type@) is Some ==> (r is Ok <==> (auth.role
            == UserRole::PlatformAdmin || auth.company_id == Some(body.company_id))),
{
    let item_type = match parse_catalog_item_type(body.item_type.as_str()) {
        Ok(t) => t,
        Err(_) => {
            return Err(ApiError::bad_request(tagged("unknown item_type: ", body.item_type.as_str())));
        },
    };
    let company_id = match effective_company(auth, body.company_id) {
        Ok(c) => c,
        Err(e) => {
            return Err(e);
        },
    };
    Ok(CreateCatalogItemCommand {
        company_id,
        name: body.name,
        description: body.description,
        sku: body.sku,
        item_type,
    })
}

/// Recurrence settings of a recurring billing plan.
#[derive(Debug, Clone, Copy, PartialEq, Eq, Structural)]
pub struct RecurringSettings {
    pub interval: RecurrenceInterval,
    pub interval_count: u32,
    pub trial_days: u32,
    pub grace_period_days: u32,
}

/// The billing terms of a billing plan request, or the message of the 400
/// refusing it: one-time plans ignore the recurrence fields; recurring plans
/// need a known interval and a positive interval count (default 1), with
/// trial and grace days defaulting to 0.
pub open spec fn billing_terms_outcome(
    billing_type: Seq<char>,
    recurring_interval: Option<Seq<char>>,
    recurring_interval_count: Option<u32>,
    trial_days: Option<u32>,
    grace_period_days: Option<u32>,
) -> Result<(BillingType, Option<RecurringSettings>), Seq<char>> {
    match BillingType::spec_parse(billing_type) {
        None => Err("unknown billing_type: "@ + billing_type),
        Some(BillingType::OneTime) => Ok((BillingType::OneTime, None)),
        Some(BillingType::Recurring) => match recurring_interval {
            None => Err("recurring billing requires recurring_interval"@),
            Some(i) => match RecurrenceInterval::spec_parse(i) {
                None => Err("unknown interval: "@ + i),
                Some(iv) => {
                    let count = match recurring_interval_count {
                        Some(n) => n,
                        None => 1u32,
                    };
                    if count == 0 {
                        Err("recurring_interval_count must be > 0"@)
                    } else {
                        Ok(
                            (
                                BillingType::Recurring,
                                Some(
                                    RecurringSettings {
                                        interval: iv,
                                        interval_count: count,
                                        trial_days: match trial_days {
                                            Some(d) => d,
                                            None => 0u32,
                                        },
                                        grace_period_days: match grace_period_days {
                                            Some(d) => d,
                                            None => 0u32,
                                        },
                                    },
                                ),
                            ),
                        )
                    }
                },
            },
        },
    }
}

/// A recurring plan with a known interval is billed every requested number
/// of intervals (every one when no count is given), whatever that count
/// is, as long as it is positive; trial and grace days are the requested
/// ones (0 when absent). Whenever a plan gets recurrence settings at all,
/// they carry exactly that count.
pub proof fn law_recurring_terms_keep_requested_count(
    billing_type: Seq<char>,
    recurring_interval: Option<Seq<char>>,
    recurring_interval_count: Option<u32>,
    trial_days: Option<u32>,
    grace_period_days: Option<u32>,
)
    ensures
        ({
            let count: u32 = match recurring_interval_count {
                Some(n) => n,
                None => 1u32,
            };
            let out = billing_terms_outcome(
                billing_type,
                recurring_interval,
                recurring_interval_count,
                trial_days,
                grace_period_days,
            );
            let known_interval = match recurring_interval {
                Some(i) => RecurrenceInterval::spec_parse(i),
                None => None,
            };
            &&& (BillingType::spec_parse(billing_type) == Some(BillingType::Recurring)
                && known_interval is Some && count > 0) ==> (match out {
                Ok((BillingType::Recurring, Some(settings))) => {
                    &&& settings.interval_count == count
                    &&& Some(settings.interval) == known_interval
                    &&& settings.trial_days == (match trial_days {
                        Some(d) => d,
                        None => 0u32,
                    })
                    &&& settings.grace_period_days == (match grace_period_days {
                        Some(d) => d,
                        None => 0u32,
                    })
                },
                _ => false,
            })
            &&& (match out {
                Ok((_, Some(settings))) => settings.interval_count == count && count > 0,
                _ => true,
            })
        }),
{
}

/// The text of an optional string slice.
pub open spec fn opt_text(s: Option<&str>) -> Option<Seq<char>> {
    match s {
        Some(t) => Some(t@),
        None => None,
    }
}

/// The billing terms of a billing plan request; a refused request is
/// answered 400.
pub fn billing_plan_terms(
    billing_type: &str,
    recurring_interval: Option<&str>,
    recurring_interval_count: Option<u32>,
    trial_days: Option<u32>,
    grace_period_days: Option<u32>,
) -> (r: Result<(BillingType, Option<RecurringSettings>), ApiError>)
    ensures
        match billing_terms_outcome(
            billing_type@,
            opt_text(recurring_interval),
            recurring_interval_count,
            trial_days,
            grace_period_days,
        ) {
            Ok(t) => r == Ok::<(BillingType, Option<RecurringSettings>), ApiError>(t),
            Err(m) => (r matches Err(e) && e.status == 400 && e.message@ == m),
        },
{
    let bt = match parse_billing_type(billing_type) {
        Ok(t) => t,
        Err(_) => {
            return Err(ApiError::bad_request(tagged("unknown billing_type: ", billing_type)));
        },
    };
    match bt {
        BillingType::OneTime => Ok((BillingType::OneTime, None)),
        BillingType::Recurring => {
            let interval = match recurring_interval {
                None => {
                    return Err(
                        ApiError::bad_request(
                            String::from_str("recurring billing requires recurring_interval"),
                        ),
                    );
                },
                Some(i) => i,
            };
            let iv = match parse_interval(interval) {
                Ok(v) => v,
                Err(_) => {
                    return Err(ApiError::bad_request(tagged("unknown interval: ", interval)));
                },
            };
            let count = match recurring_interval_count {
                Some(n) => n,
                None => 1,
            };
            if count == 0 {
                return Err(
                    ApiError::bad_request(String::from_str("recurring_interval_count must be > 0")),
                );
            }
            let trial = match trial_days {
                Some(d) => d,
                None => 0,
            };
            let grace = match grace_period_days {
                Some(d) => d,
                None => 0,
            };
            Ok(
                (
                    BillingType::Recurring,
                    Some(
                        RecurringSettings {
                            interval: iv,
                            interval_count: count,
                            trial_days: trial,
                            grace_period_days: grace,
                        },
                    ),
                ),
            )
        },
    }
}

/// A billing plan inherits its tenant from the catalog item it references:
/// given the referenced item's company (`None` when the item does not
/// exist), decide whether the caller may attach a plan to it.
pub fn billing_plan_tenant_check(auth: &AuthUser, item_company_id: Option<u128>) -> (r: Result<
    (),
    ApiError,
>)
    ensures
        item_company_id is None ==> (r matches Err(e) && e.status == STATUS_NOT_FOUND
            && e.message@ == "catalog item not found"@),
        item_company_id matches Some(c) ==> if auth.role == UserRole::PlatformAdmin
            || auth.company_id == Some(c) {
            r is Ok
        } else {
            (r matches Err(e) && e.status == 403 && e.message@
                == "catalog item belongs to a different company"@)
        },
{
    match item_company_id {
        None => Err(ApiError::new(STATUS_NOT_FOUND, String::from_str("catalog item not found"))),
        Some(c) => {
            let same = match auth.company_id {
                Some(own) => own == c,
                None => false,
            };
            if !auth.can_admin_platform() && !same {
                Err(ApiError::forbidden(String::from_str("catalog item belongs to a different company")))
            } else {
                Ok(())
            }
        },
    }
}

/// A decimal amount of `rust_decimal`, carried through unread.
#[verifier::external_type_specification]
#[verifier::external_body]
pub struct ExDecimal(rust_decimal::Decimal);

/// Request creating a billing plan.
#[derive(Debug)]
pub struct CreateBillingPlanBody {
    pub catalog_item_id: u128,
    pub billing_type: String,
    pub price_amount: rust_decimal::Decimal,
    pub currency: String,
    pub recurring_interval: Option<String>,
    pub recurring_interval_count: Option<u32>,
    pub trial_days: Option<u32>,
    pub grace_period_days: Option<u32>,
}

/// Command creating a billing plan.
#[derive(Debug)]
pub struct CreateBillingPlanCommand {
    pub catalog_item_id: u128,
    pub billing_type: BillingType,
    pub price_amount: rust_decimal::Decimal,
    pub currency: String,
    pub recurring: Option<RecurringSettings>,
}

/// The text of an optional string.
pub open spec fn opt_string(s: Option<String>) -> Option<Seq<char>> {
    match s {
        Some(t) => Some(t@),
        None => None,
    }
}

/// Validate a billing plan request, given the company of the catalog item
/// it references (`None` when there is no such item): the billing terms
/// first, then the tenant of the item.
pub fn billing_plan_command(
    auth: &AuthUser,
    body: CreateBillingPlanBody,
    item_company_id: Option<u128>,
) -> (r: Result<CreateBillingPlanCommand, ApiError>)
    ensures
        match billing_terms_outcome(
            body.billing_type@,
            opt_string(body.recurring_interval),
            body.recurring_interval_count,
            body.trial_days,
            body.grace_period_days,
        ) {
            Err(m) => (r matches Err(e) && e.status == 400 && e.message@ == m),
            Ok(t) => match item_company_id {
                None => (r matches Err(e) && e.status == STATUS_NOT_FOUND && e.message@
                    == "catalog item not found"@),
                Some(c) => if auth.role == UserRole::PlatformAdmin || auth.company_id == Some(c) {
                    (r matches Ok(cmd) && cmd.catalog_item_id == body.catalog_item_id
                        && cmd.billing_type == t.0 && cmd.recurring == t.1 && cmd.price_amount
                        == body.price_amount && cmd.currency@ == body.currency@)
                } else {
                    (r matches Err(e) && e.status == 403 && e.message@
                        == "catalog item belongs to a different company"@)
                },
            },
        },
{
    let terms = match &body.recurring_interval {
        Some(i) => billing_plan_terms(
            body.billing_type.as_str(),
            Some(i.as_str()),
            body.recurring_interval_count,
            body.trial_days,
            body.grace_period_days,
        ),
        None => billing_plan_terms(
            body.billing_type.as_str(),
            None,
            body.recurring_interval_count,
            body.trial_days,
            body.grace_period_days,
        ),
    };
    let (billing_type, recurring) = match terms {
        Ok(t) => t,
        Err(e) => {
            return Err(e);
        },
    };
    match billing_plan_tenant_check(auth, item_company_id) {
        Ok(()) => {},
        Err(e) => {
            return Err(e);
        },
    }
    Ok(
        CreateBillingPlanCommand {
            catalog_item_id: body.catalog_item_id,
            billing_type,
            price_amount: body.price_amount,
            currency: body.currency,
            recurring,
        },
    )
}

/// One item of a package creation request.
#[derive(Debug, Clone)]
pub struct PackageItemBody {
    pub catalog_item_id: u128,
    pub billing_plan_id: u128,
    pub quantity: u32,
    pub role: String,
    pub is_commissionable: bool,
    pub commissionable_volume: u32,
    pub points_value: u32,
}

/// One item of a package.
#[derive(Debug, Clone, Copy, PartialEq, Eq, Structural)]
pub struct PackageItem {
    pub catalog_item_id: u128,
    pub billing_plan_id: u128,
    pub quantity: u32,
    pub role: PackageItemRole,
    pub is_commissionable: bool,
    pub commissionable_volume: u32,
    pub points_value: u32,
}

/// The role a request names for a package item; anything unrecognised is
/// an included item.
pub open spec fn requested_role(s: Seq<char>) -> PackageItemRole {
    if s == "required"@ {
        PackageItemRole::Required
    } else if s == "optional_addon"@ {
        PackageItemRole::OptionalAddon
    } else if s == "upsell"@ {
        PackageItemRole::Upsell
    } else {
        PackageItemRole::Included
    }
}

/// The package item a request body describes.
pub open spec fn spec_package_item(b: PackageItemBody) -> PackageItem {
    PackageItem {
        catalog_item_id: b.catalog_item_id,
        billing_plan_id: b.billing_plan_id,
        quantity: b.quantity,
        role: requested_role(b.role@),
        is_commissionable: b.is_commissionable,
        commissionable_volume: b.commissionable_volume,
        points_value: b.points_value,
    }
}

/// Convert a package item request body.
pub fn package_item_from_body(b: &PackageItemBody) -> (r: PackageItem)
    ensures
        r == spec_package_item(*b),
{
    let role = if str_eq(b.role.as_str(), "required") {
        PackageItemRole::Required
    } else if str_eq(b.role.as_str(), "optional_addon") {
        PackageItemRole::OptionalAddon
    } else if str_eq(b.role.as_str(), "upsell") {
        PackageItemRole::Upsell
    } else {
        PackageItemRole::Included
    };
    PackageItem {
        catalog_item_id: b.catalog_item_id,
        billing_plan_id: b.billing_plan_id,
        quantity: b.quantity,
        role,
        is_commissionable: b.is_commissionable,
        commissionable_volume: b.commissionable_volume,
        points_value: b.points_value,
    }
}

/// Body of a package creation request.
#[derive(Debug, Clone)]
pub struct CreatePackageBody {
    pub company_id: u128,
    pub name: String,
    pub description: Option<String>,
    pub pay_plan_stack_id: Option<u128>,
    pub items: Vec<PackageItemBody>,
}

/// Command creating a package.
#[derive(Debug, Clone)]
pub struct CreatePackageCommand {
    pub company_id: u128,
    pub name: String,
    pub description: Option<String>,
    pub pay_plan_stack_id: Option<u128>,
    pub items: Vec<PackageItem>,
}

/// Validate a package creation request: the tenant guard decides, and the
/// items are converted one for one, in order.
pub fn package_command(auth: &AuthUser, body: CreatePackageBody) -> (r: Result<
    CreatePackageCommand,
    ApiError,
>)
    ensures
        r is Ok <==> (auth.role == UserRole::PlatformAdmin || auth.company_id == Some(
            body.company_id,
        )),
        r matches Ok(c) ==> c.company_id == body.company_id && c.name@ == body.name@
            && c.description == body.description && c.pay_plan_stack_id == body.pay_plan_stack_id
            && c.items@ == body.items@.map_values(|b: PackageItemBody| spec_package_item(b)),
{
    let company_id = match effective_company(auth, body.company_id) {
        Ok(c) => c,
        Err(e) => {
            return Err(e);
        },
    };
    let mut items: Vec<PackageItem> = Vec::new();
    let n = body.items.len();
    for i in 0..n
        invariant
            n == body.items@.len(),
            items@ == body.items@.take(i as int).map_values(|b: PackageItemBody| spec_package_item(b)),
    {
        let it = package_item_from_body(&body.items[i]);
        items.push(it);
        assert(body.items@.take(i + 1) == body.items@.take(i as int).push(body.items@[i as int]));
    }
    assert(body.items@.take(n as int) == body.items@);
    Ok(CreatePackageCommand {
        company_id,
        name: body.name,
        description: body.description,
        pay_plan_stack_id: body.pay_plan_stack_id,
        items,
    })
}

/// Body of a purchase request.
#[derive(Debug, Clone)]
pub struct PurchaseBody {
    pub company_id: u128,
    pub user_id: u128,
    pub package_id: u128,
    pub sponsor_user_id: Option<u128>,
}

/// Command running the purchase flow.
#[derive(Debug, Clone, Copy, PartialEq, Eq, Structural)]
pub struct PurchasePackageCommand {
    pub company_id: u128,
    pub user_id: u128,
    pub package_id: u128,
    pub sponsor_user_id: Option<u128>,
}

/// Validate a purchase request: only administrators may purchase on behalf
/// of another user.
pub fn purchase_command(auth: &AuthUser, body: PurchaseBody) -> (r: Result<
    PurchasePackageCommand,
    ApiError,
>)
    ensures
        (auth.role.spec_is_admin() || body.user_id == auth.user_id) ==> r == Ok::<
            PurchasePackageCommand,
            ApiError,
        >(
            PurchasePackageCommand {
                company_id: body.company_id,
                user_id: body.user_id,
                package_id: body.package_id,
                sponsor_user_id: body.sponsor_user_id,
            },
        ),
        !(auth.role.spec_is_admin() || body.user_id == auth.user_id) ==> (r matches Err(e)
            && e.status == 403 && e.message@ == "cannot purchase on behalf of another user"@),
{
    if !auth.can_impersonate() && body.user_id != auth.user_id {
        return Err(ApiError::forbidden(String::from_str("cannot purchase on behalf of another user")));
    }
    Ok(PurchasePackageCommand {
        company_id: body.company_id,
        user_id: body.user_id,
        package_id: body.package_id,
        sponsor_user_id: body.sponsor_user_id,
    })
}

/// Body of a self-service signup.
#[derive(Debug, Clone)]
pub struct RegisterUserBody {
    pub email: String,
    pub password: String,
    pub company_id: Option<u128>,
}

/// Command registering a user.
#[derive(Debug, Clone)]
pub struct RegisterUserCommand {
    pub email: String,
    pub password: String,
    pub role: UserRole,
    pub company_id: Option<u128>,
}

/// Signup always creates a regular user: clients cannot choose a role.
pub fn register_command(body: RegisterUserBody) -> (r: RegisterUserCommand)
    ensures
        r.role == UserRole::User,
        r.email@ == body.email@,
        r.password@ == body.password@,
        r.company_id == body.company_id,
{
    RegisterUserCommand {
        email: body.email,
        password: body.password,
        role: UserRole::User,
        company_id: body.company_id,
    }
}

/// Body of a company creation request.
#[derive(Debug, Clone)]
pub struct CreateCompanyBody {
    pub name: String,
    pub slug: String,
}

/// Body of a login request.
#[derive(Debug, Clone)]
pub struct LoginBody {
    pub email: String,
    pub password: String,
}

/// Body of a refresh request.
#[derive(Debug, Clone)]
pub struct RefreshBody {
    pub refresh_token: String,
}

/// Body of a logout request.
#[derive(Debug, Clone)]
pub struct LogoutBody {
    pub access_token: String,
    pub refresh_token: Option<String>,
}

/// Result of an operations job.
#[derive(Debug, Clone, Copy, PartialEq, Eq, Structural)]
pub struct JobResult {
    pub processed: usize,
}

/// Access and refresh tokens handed to a caller.
#[derive(Debug, Clone)]
pub struct TokenPair {
    pub access_token: String,
    pub refresh_token: String,
    pub user_id: u128,
    pub role: String,
}

/// Response of a successful purchase.
#[derive(Debug, Clone)]
pub struct PurchaseResponse {
    pub purchase_id: u128,
    pub enrollment_id: u128,
    pub subscription_ids: Vec<u128>,
    pub entitlement_ids: Vec<u128>,
    pub events_emitted: usize,
    pub ledger_entries: usize,
}

/// The token pair answered to a caller: the role is reported in its stored
/// form.
pub fn token_pair(access_token: String, refresh_token: String, user_id: u128, role: UserRole) -> (r:
    TokenPair)
    ensures
        r.access_token@ == access_token@,
        r.refresh_token@ == refresh_token@,
        r.user_id == user_id,
        r.role@ == role.spec_label(),
{
    TokenPair { access_token, refresh_token, user_id, role: String::from_str(role.as_str()) }
}

} // verus!
