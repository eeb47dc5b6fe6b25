use payplan::codes::{
    LedgerStatus, ledger_status_str, SubscriptionStatus, subscription_status_str, parse_subscription_status, EntitlementStatus, entitlement_status_str, parse_entitlement_status, PurchaseStatus, purchase_status_str, parse_purchase_status, EnrollmentStatus, enrollment_status_str, parse_enrollment_status, CatalogItemType, catalog_item_type_str, CatalogItemStatus, catalog_item_status_str, parse_catalog_item_status, BillingType, billing_type_str, parse_billing_type, RecurrenceInterval, parse_interval, PackageStatus, package_status_str, parse_package_status, PackageItemRole, package_item_role_str, parse_package_item_role, PayPlanStackStatus, stack_status_str, parse_stack_status, BinaryLeg, leg_str, BinaryVolumeStatus, volume_status_str,
};
use payplan::errors::AppError;
use payplan::requests::{PackageItem, RecurringSettings};
use payplan::stores::{
    billing_terms_from_columns, count_column, count_from_column, next_stack_version, package_item_columns,
    package_item_from_columns, period_columns, period_from_columns, recurrence_columns,
    recurring_from_columns, Period, PgAllocationRepo, PgLedgerStore, PgUserRepo,
};
use payplan::roles::UserRole;

#[test]
fn stored_status_text_round_trips() {
    for s in [SubscriptionStatus::Trialing, SubscriptionStatus::Active, SubscriptionStatus::PastDue, SubscriptionStatus::Cancelled, SubscriptionStatus::Expired] {
        assert_eq!(parse_subscription_status(subscription_status_str(s)).ok(), Some(s));
    }
    for s in [PurchaseStatus::Pending, PurchaseStatus::Paid, PurchaseStatus::Failed, PurchaseStatus::Refunded, PurchaseStatus::Cancelled] {
        assert_eq!(parse_purchase_status(purchase_status_str(s)).ok(), Some(s));
    }
    for s in [EnrollmentStatus::Active, EnrollmentStatus::Suspended, EnrollmentStatus::Cancelled, EnrollmentStatus::Expired] {
        assert_eq!(parse_enrollment_status(enrollment_status_str(s)).ok(), Some(s));
    }
    for s in [PackageItemRole::Included, PackageItemRole::Required, PackageItemRole::OptionalAddon, PackageItemRole::Upsell] {
        assert_eq!(parse_package_item_role(package_item_role_str(s)).ok(), Some(s));
    }
    assert_eq!(subscription_status_str(SubscriptionStatus::PastDue), "past_due");
    assert_eq!(ledger_status_str(LedgerStatus::Voided), "voided");
    assert_eq!(leg_str(BinaryLeg::Right), "right");
    assert_eq!(volume_status_str(BinaryVolumeStatus::Open), "open");
    assert_eq!(entitlement_status_str(EntitlementStatus::Revoked), "revoked");
    assert_eq!(stack_status_str(PayPlanStackStatus::Archived), "archived");
    assert_eq!(package_status_str(PackageStatus::Draft), "draft");
    assert_eq!(catalog_item_status_str(CatalogItemStatus::Inactive), "inactive");
    assert_eq!(billing_type_str(BillingType::OneTime), "one_time");
    assert_eq!(catalog_item_type_str(CatalogItemType::Service), "service");
}

#[test]
fn unknown_stored_text_is_a_validation_error() {
    match parse_subscription_status("paused") {
        Err(AppError::Validation(m)) => assert_eq!(m, "unknown sub status: paused"),
        other => panic!("unexpected {other:?}"),
    }
    match parse_entitlement_status("x") {
        Err(AppError::Validation(m)) => assert_eq!(m, "unknown entitlement status: x"),
        other => panic!("unexpected {other:?}"),
    }
    match parse_stack_status("live") {
        Err(AppError::Validation(m)) => assert_eq!(m, "unknown stack status: live"),
        other => panic!("unexpected {other:?}"),
    }
    match parse_catalog_item_status("gone") {
        Err(AppError::Validation(m)) => assert_eq!(m, "unknown item status: gone"),
        other => panic!("unexpected {other:?}"),
    }
    match parse_package_status("") {
        Err(AppError::Validation(m)) => assert_eq!(m, "unknown package status: "),
        other => panic!("unexpected {other:?}"),
    }
    assert_eq!(parse_interval("yearly").ok(), Some(RecurrenceInterval::Yearly));
    assert_eq!(parse_billing_type("recurring").ok(), Some(BillingType::Recurring));
}

#[test]
fn counts_and_recurrence_survive_storage() {
    assert_eq!(count_column(u32::MAX), i32::MAX);
    assert_eq!(count_from_column(-4), 0);
    let s = Some(RecurringSettings { interval: RecurrenceInterval::Quarterly, interval_count: 2, trial_days: 7, grace_period_days: 3 });
    let (i, c, t, g) = recurrence_columns(s);
    assert_eq!((i, c, t, g), (Some("quarterly"), Some(2), 7, 3));
    assert_eq!(recurring_from_columns(i, c, t, g).ok(), Some(s));
    assert_eq!(recurrence_columns(None), (None, None, 0, 0));
    assert_eq!(recurring_from_columns(None, None, 0, 0).ok(), Some(None));
    assert!(recurring_from_columns(Some("fortnightly"), Some(1), 0, 0).is_err());
    let big = RecurringSettings { interval: RecurrenceInterval::Daily, interval_count: u32::MAX, trial_days: u32::MAX, grace_period_days: 1 };
    assert_eq!(recurrence_columns(Some(big)), (Some("daily"), Some(i32::MAX), 0, 1));
}

#[test]
fn billing_terms_read_back_type_first() {
    let s = Some(RecurringSettings { interval: RecurrenceInterval::Weekly, interval_count: 1, trial_days: 0, grace_period_days: 2 });
    let (i, c, t, g) = recurrence_columns(s);
    let terms = billing_terms_from_columns(billing_type_str(BillingType::Recurring), i, c, t, g).ok();
    assert_eq!(terms, Some((BillingType::Recurring, s)));
    match billing_terms_from_columns("lease", Some("fortnightly"), None, 0, 0) {
        Err(AppError::Validation(m)) => assert_eq!(m, "unknown billing_type: lease"),
        other => panic!("unexpected {other:?}"),
    }
    match billing_terms_from_columns("one_time", Some("fortnightly"), None, 0, 0) {
        Err(AppError::Validation(m)) => assert_eq!(m, "unknown interval: fortnightly"),
        other => panic!("unexpected {other:?}"),
    }
    assert_eq!(billing_terms_from_columns("one_time", None, None, 0, 0).ok(), Some((BillingType::OneTime, None)));
}

#[test]
fn package_items_survive_storage() {
    let item = PackageItem { catalog_item_id: 1, billing_plan_id: 2, quantity: 3, role: PackageItemRole::Upsell, is_commissionable: true, commissionable_volume: 10, points_value: 5 };
    let (a, b, q, r, ic, cv, pv) = package_item_columns(&item);
    assert_eq!(r, "upsell");
    assert_eq!(package_item_from_columns(a, b, q, r, ic, cv, pv).ok(), Some(item));
    assert!(package_item_from_columns(a, b, q, "bonus", ic, cv, pv).is_err());
}

#[test]
fn periods_and_versions() {
    let p = Some(Period { starts_at: 10, ends_at: Some(20) });
    let (s, e) = period_columns(p);
    assert_eq!(period_from_columns(s, e), p);
    assert_eq!(period_from_columns(None, Some(3)), None);
    assert_eq!(next_stack_version(0), 1);
    assert_eq!(next_stack_version(4), 5);
    assert_eq!(next_stack_version(-2), 1);
}

#[test]
fn repositories_lay_out_rows() {
    let users = PgUserRepo::new();
    assert_eq!(users.role_column(UserRole::CompanyAdmin), "company_admin");
    assert_eq!(users.role_from_column("user").ok(), Some(UserRole::User));
    match users.role_from_column("admin") {
        Err(AppError::Validation(m)) => assert_eq!(m, "unknown user role: admin"),
        other => panic!("unexpected {other:?}"),
    }
    assert!(!PgAllocationRepo::new().needs_lookup(&vec![]));
    assert!(PgAllocationRepo::new().needs_lookup(&vec![7]));
    let rows = PgLedgerStore::new().rows(&vec![(1, LedgerStatus::Pending), (2, LedgerStatus::Paid)]);
    assert_eq!(rows, vec![(1, "pending"), (2, "paid")]);
    assert!(PgLedgerStore::new().rows(&vec![]).is_empty());
}
