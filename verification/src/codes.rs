//! Status and kind codes and their stored text forms.

use vstd::prelude::*;
use crate::errors::{tagged, AppError};
use crate::text::str_eq;

verus! {

/// Status of a reward ledger entry.
#[derive(Debug, Clone, Copy, PartialEq, Eq, Structural)]
pub enum LedgerStatus {
    Pending,
    Approved,
    Paid,
    Reversed,
    Voided,
}

impl LedgerStatus {
    /// The stored text form.
    pub open spec fn spec_label(self) -> Seq<char> {
        match self {
            LedgerStatus::Pending => "pending"@,
            LedgerStatus::Approved => "approved"@,
            LedgerStatus::Paid => "paid"@,
            LedgerStatus::Reversed => "reversed"@,
            LedgerStatus::Voided => "voided"@,
        }
    }

}

/// The stored text form of a `LedgerStatus`.
pub fn ledger_status_str(v: LedgerStatus) -> (s: &'static str)
    ensures
        s@ == v.spec_label(),
{
    match v {
        LedgerStatus::Pending => "pending",
        LedgerStatus::Approved => "approved",
        LedgerStatus::Paid => "paid",
        LedgerStatus::Reversed => "reversed",
        LedgerStatus::Voided => "voided",
    }
}

/// Status of a subscription.
#[derive(Debug, Clone, Copy, PartialEq, Eq, Structural)]
pub enum SubscriptionStatus {
    Trialing,
    Active,
    PastDue,
    Cancelled,
    Expired,
}

impl SubscriptionStatus {
    /// The stored text form.
    pub open spec fn spec_label(self) -> Seq<char> {
        match self {
            SubscriptionStatus::Trialing => "trialing"@,
            SubscriptionStatus::Active => "active"@,
            SubscriptionStatus::PastDue => "past_due"@,
            SubscriptionStatus::Cancelled => "cancelled"@,
            SubscriptionStatus::Expired => "expired"@,
        }
    }

    /// The value whose stored text form is `s`, if any.
    pub open spec fn spec_parse(s: Seq<char>) -> Option<SubscriptionStatus> {
        if s == "trialing"@ {
            Some(SubscriptionStatus::Trialing)
        } else if s == "active"@ {
            Some(SubscriptionStatus::Active)
        } else if s == "past_due"@ {
            Some(SubscriptionStatus::PastDue)
        } else if s == "cancelled"@ {
            Some(SubscriptionStatus::Cancelled)
        } else if s == "expired"@ {
            Some(SubscriptionStatus::Expired)
        } else {
            None
        }
    }
}

/// The stored text form of a `SubscriptionStatus`.
pub fn subscription_status_str(v: SubscriptionStatus) -> (s: &'static str)
    ensures
        s@ == v.spec_label(),
{
    match v {
        SubscriptionStatus::Trialing => "trialing",
        SubscriptionStatus::Active => "active",
        SubscriptionStatus::PastDue => "past_due",
        SubscriptionStatus::Cancelled => "cancelled",
        SubscriptionStatus::Expired => "expired",
    }
}

/// Parse the stored text form of a `SubscriptionStatus`; any other text is a validation error.
pub fn parse_subscription_status(s: &str) -> (r: Result<SubscriptionStatus, AppError>)
    ensures
        match SubscriptionStatus::spec_parse(s@) {
            Some(v) => r == Ok::<SubscriptionStatus, AppError>(v),
            None => r matches Err(AppError::Validation(m)) && m@ == "unknown sub status: "@ + s@,
        },
{
    if str_eq(s, "trialing") {
        Ok(SubscriptionStatus::Trialing)
    } else if str_eq(s, "active") {
        Ok(SubscriptionStatus::Active)
    } else if str_eq(s, "past_due") {
        Ok(SubscriptionStatus::PastDue)
    } else if str_eq(s, "cancelled") {
        Ok(SubscriptionStatus::Cancelled)
    } else if str_eq(s, "expired") {
        Ok(SubscriptionStatus::Expired)
    } else {
        Err(AppError::Validation(tagged("unknown sub status: ", s)))
    }
}

/// Parsing the stored form of a `SubscriptionStatus` gives back the value that was stored.
pub proof fn law_subscription_status_round_trip(v: SubscriptionStatus)
    ensures
        SubscriptionStatus::spec_parse(v.spec_label()) == Some(v),
{
    reveal_strlit("trialing");
    reveal_strlit("active");
    reveal_strlit("past_due");
    reveal_strlit("cancelled");
    reveal_strlit("expired");
    assert("trialing"@.len() == 8);
    assert("active"@.len() == 6);
    assert("past_due"@.len() == 8);
    assert("cancelled"@.len() == 9);
    assert("expired"@.len() == 7);
    assert("trialing"@[0] == 't');
    assert("active"@[0] == 'a');
    assert("past_due"@[0] == 'p');
    assert("cancelled"@[0] == 'c');
    assert("expired"@[0] == 'e');
}

/// Status of an entitlement.
#[derive(Debug, Clone, Copy, PartialEq, Eq, Structural)]
pub enum EntitlementStatus {
    Active,
    Suspended,
    Expired,
    Revoked,
}

impl EntitlementStatus {
    /// The stored text form.
    pub open spec fn spec_label(self) -> Seq<char> {
        match self {
            EntitlementStatus::Active => "active"@,
            EntitlementStatus::Suspended => "suspended"@,
            EntitlementStatus::Expired => "expired"@,
            EntitlementStatus::Revoked => "revoked"@,
        }
    }

    /// The value whose stored text form is `s`, if any.
    pub open spec fn spec_parse(s: Seq<char>) -> Option<EntitlementStatus> {
        if s == "active"@ {
            Some(EntitlementStatus::Active)
        } else if s == "suspended"@ {
            Some(EntitlementStatus::Suspended)
        } else if s == "expired"@ {
            Some(EntitlementStatus::Expired)
        } else if s == "revoked"@ {
            Some(EntitlementStatus::Revoked)
        } else {
            None
        }
    }
}

/// The stored text form of a `EntitlementStatus`.
pub fn entitlement_status_str(v: EntitlementStatus) -> (s: &'static str)
    ensures
        s@ == v.spec_label(),
{
    match v {
        EntitlementStatus::Active => "active",
        EntitlementStatus::Suspended => "suspended",
        EntitlementStatus::Expired => "expired",
        EntitlementStatus::Revoked => "revoked",
    }
}

/// Parse the stored text form of a `EntitlementStatus`; any other text is a validation error.
pub fn parse_entitlement_status(s: &str) -> (r: Result<EntitlementStatus, AppError>)
    ensures
        match EntitlementStatus::spec_parse(s@) {
            Some(v) => r == Ok::<EntitlementStatus, AppError>(v),
            None => r matches Err(AppError::Validation(m)) && m@ == "unknown entitlement status: "@ + s@,
        },
{
    if str_eq(s, "active") {
        Ok(EntitlementStatus::Active)
    } else if str_eq(s, "suspended") {
        Ok(EntitlementStatus::Suspended)
    } else if str_eq(s, "expired") {
        Ok(EntitlementStatus::Expired)
    } else if str_eq(s, "revoked") {
        Ok(EntitlementStatus::Revoked)
    } else {
        Err(AppError::Validation(tagged("unknown entitlement status: ", s)))
    }
}

/// Parsing the stored form of a `EntitlementStatus` gives back the value that was stored.
pub proof fn law_entitlement_status_round_trip(v: EntitlementStatus)
    ensures
        EntitlementStatus::spec_parse(v.spec_label()) == Some(v),
{
    reveal_strlit("active");
    reveal_strlit("suspended");
    reveal_strlit("expired");
    reveal_strlit("revoked");
    assert("active"@.len() == 6);
    assert("suspended"@.len() == 9);
    assert("expired"@.len() == 7);
    assert("revoked"@.len() == 7);
    assert("active"@[0] == 'a');
    assert("suspended"@[0] == 's');
    assert("expired"@[0] == 'e');
    assert("revoked"@[0] == 'r');
}

/// Status of a purchase.
#[derive(Debug, Clone, Copy, PartialEq, Eq, Structural)]
pub enum PurchaseStatus {
    Pending,
    Paid,
    Failed,
    Refunded,
    Cancelled,
}

impl PurchaseStatus {
    /// The stored text form.
    pub open spec fn spec_label(self) -> Seq<char> {
        match self {
            PurchaseStatus::Pending => "pending"@,
            PurchaseStatus::Paid => "paid"@,
            PurchaseStatus::Failed => "failed"@,
            PurchaseStatus::Refunded => "refunded"@,
            PurchaseStatus::Cancelled => "cancelled"@,
        }
    }

    /// The value whose stored text form is `s`, if any.
    pub open spec fn spec_parse(s: Seq<char>) -> Option<PurchaseStatus> {
        if s == "pending"@ {
            Some(PurchaseStatus::Pending)
        } else if s == "paid"@ {
            Some(PurchaseStatus::Paid)
        } else if s == "failed"@ {
            Some(PurchaseStatus::Failed)
        } else if s == "refunded"@ {
            Some(PurchaseStatus::Refunded)
        } else if s == "cancelled"@ {
            Some(PurchaseStatus::Cancelled)
        } else {
            None
        }
    }
}

/// The stored text form of a `PurchaseStatus`.
pub fn purchase_status_str(v: PurchaseStatus) -> (s: &'static str)
    ensures
        s@ == v.spec_label(),
{
    match v {
        PurchaseStatus::Pending => "pending",
        PurchaseStatus::Paid => "paid",
        PurchaseStatus::Failed => "failed",
        PurchaseStatus::Refunded => "refunded",
        PurchaseStatus::Cancelled => "cancelled",
    }
}

/// Parse the stored text form of a `PurchaseStatus`; any other text is a validation error.
pub fn parse_purchase_status(s: &str) -> (r: Result<PurchaseStatus, AppError>)
    ensures
        match PurchaseStatus::spec_parse(s@) {
            Some(v) => r == Ok::<PurchaseStatus, AppError>(v),
            None => r matches Err(AppError::Validation(m)) && m@ == "unknown purchase status: "@ + s@,
        },
{
    if str_eq(s, "pending") {
        Ok(PurchaseStatus::Pending)
    } else if str_eq(s, "paid") {
        Ok(PurchaseStatus::Paid)
    } else if str_eq(s, "failed") {
        Ok(PurchaseStatus::Failed)
    } else if str_eq(s, "refunded") {
        Ok(PurchaseStatus::Refunded)
    } else if str_eq(s, "cancelled") {
        Ok(PurchaseStatus::Cancelled)
    } else {
        Err(AppError::Validation(tagged("unknown purchase status: ", s)))
    }
}

/// Parsing the stored form of a `PurchaseStatus` gives back the value that was stored.
pub proof fn law_purchase_status_round_trip(v: PurchaseStatus)
    ensures
        PurchaseStatus::spec_parse(v.spec_label()) == Some(v),
{
    reveal_strlit("pending");
    reveal_strlit("paid");
    reveal_strlit("failed");
    reveal_strlit("refunded");
    reveal_strlit("cancelled");
    assert("pending"@.len() == 7);
    assert("paid"@.len() == 4);
    assert("failed"@.len() == 6);
    assert("refunded"@.len() == 8);
    assert("cancelled"@.len() == 9);
    assert("pending"@[0] == 'p');
    assert("paid"@[0] == 'p');
    assert("failed"@[0] == 'f');
    assert("refunded"@[0] == 'r');
    assert("cancelled"@[0] == 'c');
}

/// Status of an enrollment.
#[derive(Debug, Clone, Copy, PartialEq, Eq, Structural)]
pub enum EnrollmentStatus {
    Active,
    Suspended,
    Cancelled,
    Expired,
}

impl EnrollmentStatus {
    /// The stored text form.
    pub open spec fn spec_label(self) -> Seq<char> {
        match self {
            EnrollmentStatus::Active => "active"@,
            EnrollmentStatus::Suspended => "suspended"@,
            EnrollmentStatus::Cancelled => "cancelled"@,
            EnrollmentStatus::Expired => "expired"@,
        }
    }

    /// The value whose stored text form is `s`, if any.
    pub open spec fn spec_parse(s: Seq<char>) -> Option<EnrollmentStatus> {
        if s == "active"@ {
            Some(EnrollmentStatus::Active)
        } else if s == "suspended"@ {
            Some(EnrollmentStatus::Suspended)
        } else if s == "cancelled"@ {
            Some(EnrollmentStatus::Cancelled)
        } else if s == "expired"@ {
            Some(EnrollmentStatus::Expired)
        } else {
            None
        }
    }
}

/// The stored text form of a `EnrollmentStatus`.
pub fn enrollment_status_str(v: EnrollmentStatus) -> (s: &'static str)
    ensures
        s@ == v.spec_label(),
{
    match v {
        EnrollmentStatus::Active => "active",
        EnrollmentStatus::Suspended => "suspended",
        EnrollmentStatus::Cancelled => "cancelled",
        EnrollmentStatus::Expired => "expired",
    }
}

/// Parse the stored text form of a `EnrollmentStatus`; any other text is a validation error.
pub fn parse_enrollment_status(s: &str) -> (r: Result<EnrollmentStatus, AppError>)
    ensures
        match EnrollmentStatus::spec_parse(s@) {
            Some(v) => r == Ok::<EnrollmentStatus, AppError>(v),
            None => r matches Err(AppError::Validation(m)) && m@ == "unknown enrollment status: "@ + s@,
        },
{
    if str_eq(s, "active") {
        Ok(EnrollmentStatus::Active)
    } else if str_eq(s, "suspended") {
        Ok(EnrollmentStatus::Suspended)
    } else if str_eq(s, "cancelled") {
        Ok(EnrollmentStatus::Cancelled)
    } else if str_eq(s, "expired") {
        Ok(EnrollmentStatus::Expired)
    } else {
        Err(AppError::Validation(tagged("unknown enrollment status: ", s)))
    }
}

/// Parsing the stored form of a `EnrollmentStatus` gives back the value that was stored.
pub proof fn law_enrollment_status_round_trip(v: EnrollmentStatus)
    ensures
        EnrollmentStatus::spec_parse(v.spec_label()) == Some(v),
{
    reveal_strlit("active");
    reveal_strlit("suspended");
    reveal_strlit("cancelled");
    reveal_strlit("expired");
    assert("active"@.len() == 6);
    assert("suspended"@.len() == 9);
    assert("cancelled"@.len() == 9);
    assert("expired"@.len() == 7);
    assert("active"@[0] == 'a');
    assert("suspended"@[0] == 's');
    assert("cancelled"@[0] == 'c');
    assert("expired"@[0] == 'e');
}

/// Kind of catalog item.
#[derive(Debug, Clone, Copy, PartialEq, Eq, Structural)]
pub enum CatalogItemType {
    Product,
    Service,
}

impl CatalogItemType {
    /// The stored text form.
    pub open spec fn spec_label(self) -> Seq<char> {
        match self {
            CatalogItemType::Product => "product"@,
            CatalogItemType::Service => "service"@,
        }
    }

    /// The value whose stored text form is `s`, if any.
    pub open spec fn spec_parse(s: Seq<char>) -> Option<CatalogItemType> {
        if s == "product"@ {
            Some(CatalogItemType::Product)
        } else if s == "service"@ {
            Some(CatalogItemType::Service)
        } else {
            None
        }
    }
}

/// The stored text form of a `CatalogItemType`.
pub fn catalog_item_type_str(v: CatalogItemType) -> (s: &'static str)
    ensures
        s@ == v.spec_label(),
{
    match v {
        CatalogItemType::Product => "product",
        CatalogItemType::Service => "service",
    }
}

/// Parse the stored text form of a `CatalogItemType`; any other text is a validation error.
pub fn parse_catalog_item_type(s: &str) -> (r: Result<CatalogItemType, AppError>)
    ensures
        match CatalogItemType::spec_parse(s@) {
            Some(v) => r == Ok::<CatalogItemType, AppError>(v),
            None => r matches Err(AppError::Validation(m)) && m@ == "unknown item_type: "@ + s@,
        },
{
    if str_eq(s, "product") {
        Ok(CatalogItemType::Product)
    } else if str_eq(s, "service") {
        Ok(CatalogItemType::Service)
    } else {
        Err(AppError::Validation(tagged("unknown item_type: ", s)))
    }
}

/// Parsing the stored form of a `CatalogItemType` gives back the value that was stored.
pub proof fn law_catalog_item_type_round_trip(v: CatalogItemType)
    ensures
        CatalogItemType::spec_parse(v.spec_label()) == Some(v),
{
    reveal_strlit("product");
    reveal_strlit("service");
    assert("product"@.len() == 7);
    assert("service"@.len() == 7);
    assert("product"@[0] == 'p');
    assert("service"@[0] == 's');
}

/// Status of a catalog item.
#[derive(Debug, Clone, Copy, PartialEq, Eq, Structural)]
pub enum CatalogItemStatus {
    Active,
    Inactive,
    Archived,
}

impl CatalogItemStatus {
    /// The stored text form.
    pub open spec fn spec_label(self) -> Seq<char> {
        match self {
            CatalogItemStatus::Active => "active"@,
            CatalogItemStatus::Inactive => "inactive"@,
            CatalogItemStatus::Archived => "archived"@,
        }
    }

    /// The value whose stored text form is `s`, if any.
    pub open spec fn spec_parse(s: Seq<char>) -> Option<CatalogItemStatus> {
        if s == "active"@ {
            Some(CatalogItemStatus::Active)
        } else if s == "inactive"@ {
            Some(CatalogItemStatus::Inactive)
        } else if s == "archived"@ {
            Some(CatalogItemStatus::Archived)
        } else {
            None
        }
    }
}

/// The stored text form of a `CatalogItemStatus`.
pub fn catalog_item_status_str(v: CatalogItemStatus) -> (s: &'static str)
    ensures
        s@ == v.spec_label(),
{
    match v {
        CatalogItemStatus::Active => "active",
        CatalogItemStatus::Inactive => "inactive",
        CatalogItemStatus::Archived => "archived",
    }
}

/// Parse the stored text form of a `CatalogItemStatus`; any other text is a validation error.
pub fn parse_catalog_item_status(s: &str) -> (r: Result<CatalogItemStatus, AppError>)
    ensures
        match CatalogItemStatus::spec_parse(s@) {
            Some(v) => r == Ok::<CatalogItemStatus, AppError>(v),
            None => r matches Err(AppError::Validation(m)) && m@ == "unknown item status: "@ + s@,
        },
{
    if str_eq(s, "active") {
        Ok(CatalogItemStatus::Active)
    } else if str_eq(s, "inactive") {
        Ok(CatalogItemStatus::Inactive)
    } else if str_eq(s, "archived") {
        Ok(CatalogItemStatus::Archived)
    } else {
        Err(AppError::Validation(tagged("unknown item status: ", s)))
    }
}

/// Parsing the stored form of a `CatalogItemStatus` gives back the value that was stored.
pub proof fn law_catalog_item_status_round_trip(v: CatalogItemStatus)
    ensures
        CatalogItemStatus::spec_parse(v.spec_label()) == Some(v),
{
    reveal_strlit("active");
    reveal_strlit("inactive");
    reveal_strlit("archived");
    assert("active"@.len() == 6);
    assert("inactive"@.len() == 8);
    assert("archived"@.len() == 8);
    assert("active"@[0] == 'a');
    assert("inactive"@[0] == 'i');
    assert("archived"@[0] == 'a');
}

/// How a billing plan charges.
#[derive(Debug, Clone, Copy, PartialEq, Eq, Structural)]
pub enum BillingType {
    OneTime,
    Recurring,
}

impl BillingType {
    /// The stored text form.
    pub open spec fn spec_label(self) -> Seq<char> {
        match self {
            BillingType::OneTime => "one_time"@,
            BillingType::Recurring => "recurring"@,
        }
    }

    /// The value whose stored text form is `s`, if any.
    pub open spec fn spec_parse(s: Seq<char>) -> Option<BillingType> {
        if s == "one_time"@ {
            Some(BillingType::OneTime)
        } else if s == "recurring"@ {
            Some(BillingType::Recurring)
        } else {
            None
        }
    }
}

/// The stored text form of a `BillingType`.
pub fn billing_type_str(v: BillingType) -> (s: &'static str)
    ensures
        s@ == v.spec_label(),
{
    match v {
        BillingType::OneTime => "one_time",
        BillingType::Recurring => "recurring",
    }
}

/// Parse the stored text form of a `BillingType`; any other text is a validation error.
pub fn parse_billing_type(s: &str) -> (r: Result<BillingType, AppError>)
    ensures
        match BillingType::spec_parse(s@) {
            Some(v) => r == Ok::<BillingType, AppError>(v),
            None => r matches Err(AppError::Validation(m)) && m@ == "unknown billing_type: "@ + s@,
        },
{
    if str_eq(s, "one_time") {
        Ok(BillingType::OneTime)
    } else if str_eq(s, "recurring") {
        Ok(BillingType::Recurring)
    } else {
        Err(AppError::Validation(tagged("unknown billing_type: ", s)))
    }
}

/// Parsing the stored form of a `BillingType` gives back the value that was stored.
pub proof fn law_billing_type_round_trip(v: BillingType)
    ensures
        BillingType::spec_parse(v.spec_label()) == Some(v),
{
    reveal_strlit("one_time");
    reveal_strlit("recurring");
    assert("one_time"@.len() == 8);
    assert("recurring"@.len() == 9);
    assert("one_time"@[0] == 'o');
    assert("recurring"@[0] == 'r');
}

/// Period of a recurring billing plan.
#[derive(Debug, Clone, Copy, PartialEq, Eq, Structural)]
pub enum RecurrenceInterval {
    Daily,
    Weekly,
    Monthly,
    Quarterly,
    Yearly,
}

impl RecurrenceInterval {
    /// The stored text form.
    pub open spec fn spec_label(self) -> Seq<char> {
        match self {
            RecurrenceInterval::Daily => "daily"@,
            RecurrenceInterval::Weekly => "weekly"@,
            RecurrenceInterval::Monthly => "monthly"@,
            RecurrenceInterval::Quarterly => "quarterly"@,
            RecurrenceInterval::Yearly => "yearly"@,
        }
    }

    /// The value whose stored text form is `s`, if any.
    pub open spec fn spec_parse(s: Seq<char>) -> Option<RecurrenceInterval> {
        if s == "daily"@ {
            Some(RecurrenceInterval::Daily)
        } else if s == "weekly"@ {
            Some(RecurrenceInterval::Weekly)
        } else if s == "monthly"@ {
            Some(RecurrenceInterval::Monthly)
        } else if s == "quarterly"@ {
            Some(RecurrenceInterval::Quarterly)
        } else if s == "yearly"@ {
            Some(RecurrenceInterval::Yearly)
        } else {
            None
        }
    }
}

/// The stored text form of a `RecurrenceInterval`.
pub fn interval_str(v: RecurrenceInterval) -> (s: &'static str)
    ensures
        s@ == v.spec_label(),
{
    match v {
        RecurrenceInterval::Daily => "daily",
        RecurrenceInterval::Weekly => "weekly",
        RecurrenceInterval::Monthly => "monthly",
        RecurrenceInterval::Quarterly => "quarterly",
        RecurrenceInterval::Yearly => "yearly",
    }
}

/// Parse the stored text form of a `RecurrenceInterval`; any other text is a validation error.
pub fn parse_interval(s: &str) -> (r: Result<RecurrenceInterval, AppError>)
    ensures
        match RecurrenceInterval::spec_parse(s@) {
            Some(v) => r == Ok::<RecurrenceInterval, AppError>(v),
            None => r matches Err(AppError::Validation(m)) && m@ == "unknown interval: "@ + s@,
        },
{
    if str_eq(s, "daily") {
        Ok(RecurrenceInterval::Daily)
    } else if str_eq(s, "weekly") {
        Ok(RecurrenceInterval::Weekly)
    } else if str_eq(s, "monthly") {
        Ok(RecurrenceInterval::Monthly)
    } else if str_eq(s, "quarterly") {
        Ok(RecurrenceInterval::Quarterly)
    } else if str_eq(s, "yearly") {
        Ok(RecurrenceInterval::Yearly)
    } else {
        Err(AppError::Validation(tagged("unknown interval: ", s)))
    }
}

/// Parsing the stored form of a `RecurrenceInterval` gives back the value that was stored.
pub proof fn law_recurrence_interval_round_trip(v: RecurrenceInterval)
    ensures
        RecurrenceInterval::spec_parse(v.spec_label()) == Some(v),
{
    reveal_strlit("daily");
    reveal_strlit("weekly");
    reveal_strlit("monthly");
    reveal_strlit("quarterly");
    reveal_strlit("yearly");
    assert("daily"@.len() == 5);
    assert("weekly"@.len() == 6);
    assert("monthly"@.len() == 7);
    assert("quarterly"@.len() == 9);
    assert("yearly"@.len() == 6);
    assert("daily"@[0] == 'd');
    assert("weekly"@[0] == 'w');
    assert("monthly"@[0] == 'm');
    assert("quarterly"@[0] == 'q');
    assert("yearly"@[0] == 'y');
}

/// Status of a package.
#[derive(Debug, Clone, Copy, PartialEq, Eq, Structural)]
pub enum PackageStatus {
    Draft,
    Active,
    Inactive,
    Archived,
}

impl PackageStatus {
    /// The stored text form.
    pub open spec fn spec_label(self) -> Seq<char> {
        match self {
            PackageStatus::Draft => "draft"@,
            PackageStatus::Active => "active"@,
            PackageStatus::Inactive => "inactive"@,
            PackageStatus::Archived => "archived"@,
        }
    }

    /// The value whose stored text form is `s`, if any.
    pub open spec fn spec_parse(s: Seq<char>) -> Option<PackageStatus> {
        if s == "draft"@ {
            Some(PackageStatus::Draft)
        } else if s == "active"@ {
            Some(PackageStatus::Active)
        } else if s == "inactive"@ {
            Some(PackageStatus::Inactive)
        } else if s == "archived"@ {
            Some(PackageStatus::Archived)
        } else {
            None
        }
    }
}

/// The stored text form of a `PackageStatus`.
pub fn package_status_str(v: PackageStatus) -> (s: &'static str)
    ensures
        s@ == v.spec_label(),
{
    match v {
        PackageStatus::Draft => "draft",
        PackageStatus::Active => "active",
        PackageStatus::Inactive => "inactive",
        PackageStatus::Archived => "archived",
    }
}

/// Parse the stored text form of a `PackageStatus`; any other text is a validation error.
pub fn parse_package_status(s: &str) -> (r: Result<PackageStatus, AppError>)
    ensures
        match PackageStatus::spec_parse(s@) {
            Some(v) => r == Ok::<PackageStatus, AppError>(v),
            None => r matches Err(AppError::Validation(m)) && m@ == "unknown package status: "@ + s@,
        },
{
    if str_eq(s, "draft") {
        Ok(PackageStatus::Draft)
    } else if str_eq(s, "active") {
        Ok(PackageStatus::Active)
    } else if str_eq(s, "inactive") {
        Ok(PackageStatus::Inactive)
    } else if str_eq(s, "archived") {
        Ok(PackageStatus::Archived)
    } else {
        Err(AppError::Validation(tagged("unknown package status: ", s)))
    }
}

/// Parsing the stored form of a `PackageStatus` gives back the value that was stored.
pub proof fn law_package_status_round_trip(v: PackageStatus)
    ensures
        PackageStatus::spec_parse(v.spec_label()) == Some(v),
{
    reveal_strlit("draft");
    reveal_strlit("active");
    reveal_strlit("inactive");
    reveal_strlit("archived");
    assert("draft"@.len() == 5);
    assert("active"@.len() == 6);
    assert("inactive"@.len() == 8);
    assert("archived"@.len() == 8);
    assert("draft"@[0] == 'd');
    assert("active"@[0] == 'a');
    assert("inactive"@[0] == 'i');
    assert("archived"@[0] == 'a');
}

/// Role of an item inside a package.
#[derive(Debug, Clone, Copy, PartialEq, Eq, Structural)]
pub enum PackageItemRole {
    Included,
    Required,
    OptionalAddon,
    Upsell,
}

impl PackageItemRole {
    /// The stored text form.
    pub open spec fn spec_label(self) -> Seq<char> {
        match self {
            PackageItemRole::Included => "included"@,
            PackageItemRole::Required => "required"@,
            PackageItemRole::OptionalAddon => "optional_addon"@,
            PackageItemRole::Upsell => "upsell"@,
        }
    }

    /// The value whose stored text form is `s`, if any.
    pub open spec fn spec_parse(s: Seq<char>) -> Option<PackageItemRole> {
        if s == "included"@ {
            Some(PackageItemRole::Included)
        } else if s == "required"@ {
            Some(PackageItemRole::Required)
        } else if s == "optional_addon"@ {
            Some(PackageItemRole::OptionalAddon)
        } else if s == "upsell"@ {
            Some(PackageItemRole::Upsell)
        } else {
            None
        }
    }
}

/// The stored text form of a `PackageItemRole`.
pub fn package_item_role_str(v: PackageItemRole) -> (s: &'static str)
    ensures
        s@ == v.spec_label(),
{
    match v {
        PackageItemRole::Included => "included",
        PackageItemRole::Required => "required",
        PackageItemRole::OptionalAddon => "optional_addon",
        PackageItemRole::Upsell => "upsell",
    }
}

/// Parse the stored text form of a `PackageItemRole`; any other text is a validation error.
pub fn parse_package_item_role(s: &str) -> (r: Result<PackageItemRole, AppError>)
    ensures
        match PackageItemRole::spec_parse(s@) {
            Some(v) => r == Ok::<PackageItemRole, AppError>(v),
            None => r matches Err(AppError::Validation(m)) && m@ == "unknown item_role: "@ + s@,
        },
{
    if str_eq(s, "included") {
        Ok(PackageItemRole::Included)
    } else if str_eq(s, "required") {
        Ok(PackageItemRole::Required)
    } else if str_eq(s, "optional_addon") {
        Ok(PackageItemRole::OptionalAddon)
    } else if str_eq(s, "upsell") {
        Ok(PackageItemRole::Upsell)
    } else {
        Err(AppError::Validation(tagged("unknown item_role: ", s)))
    }
}

/// Parsing the stored form of a `PackageItemRole` gives back the value that was stored.
pub proof fn law_package_item_role_round_trip(v: PackageItemRole)
    ensures
        PackageItemRole::spec_parse(v.spec_label()) == Some(v),
{
    reveal_strlit("included");
    reveal_strlit("required");
    reveal_strlit("optional_addon");
    reveal_strlit("upsell");
    assert("included"@.len() == 8);
    assert("required"@.len() == 8);
    assert("optional_addon"@.len() == 14);
    assert("upsell"@.len() == 6);
    assert("included"@[0] == 'i');
    assert("required"@[0] == 'r');
    assert("optional_addon"@[0] == 'o');
    assert("upsell"@[0] == 'u');
}

/// Status of a pay plan stack.
#[derive(Debug, Clone, Copy, PartialEq, Eq, Structural)]
pub enum PayPlanStackStatus {
    Draft,
    Active,
    Archived,
}

impl PayPlanStackStatus {
    /// The stored text form.
    pub open spec fn spec_label(self) -> Seq<char> {
        match self {
            PayPlanStackStatus::Draft => "draft"@,
            PayPlanStackStatus::Active => "active"@,
            PayPlanStackStatus::Archived => "archived"@,
        }
    }

    /// The value whose stored text form is `s`, if any.
    pub open spec fn spec_parse(s: Seq<char>) -> Option<PayPlanStackStatus> {
        if s == "draft"@ {
            Some(PayPlanStackStatus::Draft)
        } else if s == "active"@ {
            Some(PayPlanStackStatus::Active)
        } else if s == "archived"@ {
            Some(PayPlanStackStatus::Archived)
        } else {
            None
        }
    }
}

/// The stored text form of a `PayPlanStackStatus`.
pub fn stack_status_str(v: PayPlanStackStatus) -> (s: &'static str)
    ensures
        s@ == v.spec_label(),
{
    match v {
        PayPlanStackStatus::Draft => "draft",
        PayPlanStackStatus::Active => "active",
        PayPlanStackStatus::Archived => "archived",
    }
}

/// Parse the stored text form of a `PayPlanStackStatus`; any other text is a validation error.
pub fn parse_stack_status(s: &str) -> (r: Result<PayPlanStackStatus, AppError>)
    ensures
        match PayPlanStackStatus::spec_parse(s@) {
            Some(v) => r == Ok::<PayPlanStackStatus, AppError>(v),
            None => r matches Err(AppError::Validation(m)) && m@ == "unknown stack status: "@ + s@,
        },
{
    if str_eq(s, "draft") {
        Ok(PayPlanStackStatus::Draft)
    } else if str_eq(s, "active") {
        Ok(PayPlanStackStatus::Active)
    } else if str_eq(s, "archived") {
        Ok(PayPlanStackStatus::Archived)
    } else {
        Err(AppError::Validation(tagged("unknown stack status: ", s)))
    }
}

/// Parsing the stored form of a `PayPlanStackStatus` gives back the value that was stored.
pub proof fn law_pay_plan_stack_status_round_trip(v: PayPlanStackStatus)
    ensures
        PayPlanStackStatus::spec_parse(v.spec_label()) == Some(v),
{
    reveal_strlit("draft");
    reveal_strlit("active");
    reveal_strlit("archived");
    assert("draft"@.len() == 5);
    assert("active"@.len() == 6);
    assert("archived"@.len() == 8);
    assert("draft"@[0] == 'd');
    assert("active"@[0] == 'a');
    assert("archived"@[0] == 'a');
}

/// Leg of a binary tree node.
#[derive(Debug, Clone, Copy, PartialEq, Eq, Structural)]
pub enum BinaryLeg {
    Left,
    Right,
}

impl BinaryLeg {
    /// The stored text form.
    pub open spec fn spec_label(self) -> Seq<char> {
        match self {
            BinaryLeg::Left => "left"@,
            BinaryLeg::Right => "right"@,
        }
    }

}

/// The stored text form of a `BinaryLeg`.
pub fn leg_str(v: BinaryLeg) -> (s: &'static str)
    ensures
        s@ == v.spec_label(),
{
    match v {
        BinaryLeg::Left => "left",
        BinaryLeg::Right => "right",
    }
}

/// Status of a binary volume entry.
#[derive(Debug, Clone, Copy, PartialEq, Eq, Structural)]
pub enum BinaryVolumeStatus {
    Open,
    Matched,
    Carried,
}

impl BinaryVolumeStatus {
    /// The stored text form.
    pub open spec fn spec_label(self) -> Seq<char> {
        match self {
            BinaryVolumeStatus::Open => "open"@,
            BinaryVolumeStatus::Matched => "matched"@,
            BinaryVolumeStatus::Carried => "carried"@,
        }
    }

}

/// The stored text form of a `BinaryVolumeStatus`.
pub fn volume_status_str(v: BinaryVolumeStatus) -> (s: &'static str)
    ensures
        s@ == v.spec_label(),
{
    match v {
        BinaryVolumeStatus::Open => "open",
        BinaryVolumeStatus::Matched => "matched",
        BinaryVolumeStatus::Carried => "carried",
    }
}

} // verus!
