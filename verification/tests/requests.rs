use payplan::codes::{BillingType, CatalogItemType, PackageItemRole, RecurrenceInterval};
use payplan::requests::{
    billing_plan_tenant_check, billing_plan_terms, catalog_item_command, effective_company,
    package_command, package_item_from_body, purchase_command, register_command, token_pair,
    billing_plan_command, CreateBillingPlanBody, CreateCatalogItemBody, CreatePackageBody, PackageItemBody, PurchaseBody, RegisterUserBody,
};
use payplan::roles::{AuthUser, UserRole};

fn who(role: UserRole, company: Option<u128>) -> AuthUser {
    AuthUser { user_id: 100, company_id: company, role }
}

#[test]
fn company_admin_cannot_target_another_company() {
    let a = who(UserRole::CompanyAdmin, Some(1));
    let e = effective_company(&a, 2).err().unwrap();
    assert_eq!((e.status, e.message.as_str()), (403, "cannot create resources for another company"));
    assert_eq!(effective_company(&a, 1).ok(), Some(1));
    assert_eq!(effective_company(&who(UserRole::PlatformAdmin, None), 2).ok(), Some(2));
    let e = effective_company(&who(UserRole::CompanyAdmin, None), 2).err().unwrap();
    assert_eq!((e.status, e.message.as_str()), (403, "caller is not scoped to a company"));
}

fn item(role: &str) -> PackageItemBody {
    PackageItemBody {
        catalog_item_id: 3,
        billing_plan_id: 4,
        quantity: 2,
        role: role.into(),
        is_commissionable: true,
        commissionable_volume: 10,
        points_value: 5,
    }
}

#[test]
fn package_requests_keep_items_and_guard_tenant() {
    let body = CreatePackageBody {
        company_id: 1,
        name: "Own pkg".into(),
        description: None,
        pay_plan_stack_id: Some(8),
        items: vec![item("required"), item("whatever")],
    };
    let cmd = package_command(&who(UserRole::CompanyAdmin, Some(1)), body).ok().unwrap();
    assert_eq!(cmd.items.len(), 2);
    assert_eq!(cmd.items[0].role, PackageItemRole::Required);
    assert_eq!(cmd.items[1].role, PackageItemRole::Included);
    assert_eq!(cmd.pay_plan_stack_id, Some(8));
    let other = CreatePackageBody {
        company_id: 2,
        name: "Cross-tenant pkg".into(),
        description: None,
        pay_plan_stack_id: None,
        items: vec![],
    };
    let e = package_command(&who(UserRole::CompanyAdmin, Some(1)), other).err().unwrap();
    assert_eq!(e.status, 403);
    assert_eq!(package_item_from_body(&item("upsell")).role, PackageItemRole::Upsell);
    assert_eq!(package_item_from_body(&item("optional_addon")).role, PackageItemRole::OptionalAddon);
}

#[test]
fn catalog_requests_check_type_then_tenant() {
    let body = |t: &str, c: u128| CreateCatalogItemBody {
        company_id: c,
        name: "Item".into(),
        description: Some("d".into()),
        sku: None,
        item_type: t.into(),
    };
    let admin = who(UserRole::CompanyAdmin, Some(1));
    let cmd = catalog_item_command(&admin, body("product", 1)).ok().unwrap();
    assert_eq!(cmd.item_type, CatalogItemType::Product);
    assert_eq!(cmd.company_id, 1);
    let e = catalog_item_command(&admin, body("gadget", 2)).err().unwrap();
    assert_eq!((e.status, e.message.as_str()), (400, "unknown item_type: gadget"));
    assert_eq!(catalog_item_command(&admin, body("service", 2)).err().unwrap().status, 403);
}

#[test]
fn billing_plan_terms_validation() {
    assert_eq!(billing_plan_terms("one_time", Some("bogus"), Some(0), None, None).ok(), Some((BillingType::OneTime, None)));
    let (t, r) = billing_plan_terms("recurring", Some("monthly"), None, Some(14), None).ok().unwrap();
    assert_eq!(t, BillingType::Recurring);
    let r = r.unwrap();
    assert_eq!(r.interval, RecurrenceInterval::Monthly);
    assert_eq!((r.interval_count, r.trial_days, r.grace_period_days), (1, 14, 0));
    let e = billing_plan_terms("recurring", None, None, None, None).err().unwrap();
    assert_eq!((e.status, e.message.as_str()), (400, "recurring billing requires recurring_interval"));
    let e = billing_plan_terms("recurring", Some("hourly"), None, None, None).err().unwrap();
    assert_eq!(e.message, "unknown interval: hourly");
    let e = billing_plan_terms("recurring", Some("daily"), Some(0), None, None).err().unwrap();
    assert_eq!(e.message, "recurring_interval_count must be > 0");
    let e = billing_plan_terms("monthly", None, None, None, None).err().unwrap();
    assert_eq!(e.message, "unknown billing_type: monthly");
}

#[test]
fn billing_plans_inherit_the_item_tenant() {
    let a = who(UserRole::CompanyAdmin, Some(1));
    assert!(billing_plan_tenant_check(&a, Some(1)).is_ok());
    let e = billing_plan_tenant_check(&a, Some(2)).err().unwrap();
    assert_eq!((e.status, e.message.as_str()), (403, "catalog item belongs to a different company"));
    let e = billing_plan_tenant_check(&a, None).err().unwrap();
    assert_eq!((e.status, e.message.as_str()), (404, "catalog item not found"));
    assert!(billing_plan_tenant_check(&who(UserRole::PlatformAdmin, None), Some(2)).is_ok());
}

#[test]
fn purchase_for_other_user_is_403_for_regular_user_request() {
    let body = |u: u128| PurchaseBody { company_id: 1, user_id: u, package_id: 2, sponsor_user_id: None };
    let regular = who(UserRole::User, Some(1));
    let e = purchase_command(&regular, body(999)).err().unwrap();
    assert_eq!((e.status, e.message.as_str()), (403, "cannot purchase on behalf of another user"));
    let cmd = purchase_command(&regular, body(100)).ok().unwrap();
    assert_eq!(cmd.user_id, 100);
    assert!(purchase_command(&who(UserRole::CompanyAdmin, Some(1)), body(999)).is_ok());
}

#[test]
fn signup_always_creates_a_regular_user() {
    let cmd = register_command(RegisterUserBody {
        email: "a@b.test".into(),
        password: "pw".into(),
        company_id: Some(3),
    });
    assert_eq!(cmd.role, UserRole::User);
    assert_eq!(cmd.company_id, Some(3));
    let pair = token_pair("a".into(), "r".into(), 5, UserRole::PlatformAdmin);
    assert_eq!(pair.role, "platform_admin");
}

fn plan_body(billing_type: &str, interval: Option<&str>) -> CreateBillingPlanBody {
    CreateBillingPlanBody {
        catalog_item_id: 7,
        billing_type: billing_type.to_string(),
        price_amount: rust_decimal::Decimal::new(1999, 2),
        currency: "USD".to_string(),
        recurring_interval: interval.map(|s| s.to_string()),
        recurring_interval_count: None,
        trial_days: Some(14),
        grace_period_days: None,
    }
}

#[test]
fn billing_plan_commands_check_terms_before_the_tenant() {
    let a = who(UserRole::CompanyAdmin, Some(1));
    let cmd = billing_plan_command(&a, plan_body("recurring", Some("monthly")), Some(1)).unwrap();
    assert_eq!((cmd.catalog_item_id, cmd.billing_type), (7, BillingType::Recurring));
    assert_eq!(cmd.price_amount, rust_decimal::Decimal::new(1999, 2));
    assert_eq!(cmd.currency, "USD");
    let r = cmd.recurring.unwrap();
    assert_eq!((r.interval, r.interval_count, r.trial_days, r.grace_period_days), (RecurrenceInterval::Monthly, 1, 14, 0));
    let e = billing_plan_command(&a, plan_body("recurring", None), Some(2)).err().unwrap();
    assert_eq!((e.status, e.message.as_str()), (400, "recurring billing requires recurring_interval"));
    let e = billing_plan_command(&a, plan_body("one_time", None), Some(2)).err().unwrap();
    assert_eq!((e.status, e.message.as_str()), (403, "catalog item belongs to a different company"));
    let e = billing_plan_command(&a, plan_body("one_time", None), None).err().unwrap();
    assert_eq!((e.status, e.message.as_str()), (404, "catalog item not found"));
    let cmd = billing_plan_command(&who(UserRole::PlatformAdmin, None), plan_body("one_time", Some("weekly")), Some(2)).unwrap();
    assert!(cmd.recurring.is_none());
}
