//! How records are laid out in their Postgres columns, and read back.

use vstd::prelude::*;
use crate::codes::{
    law_billing_type_round_trip, parse_billing_type, BillingType, interval_str, ledger_status_str, package_item_role_str, parse_interval,
    parse_package_item_role, law_package_item_role_round_trip, law_recurrence_interval_round_trip,
    LedgerStatus, PackageItemRole, RecurrenceInterval,
};
use crate::errors::AppError;
use crate::requests::{PackageItem, RecurringSettings};
use crate::roles::UserRole;

verus! {

/// A count as its `INTEGER` column stores it: counts beyond the column's
/// range are stored as its largest value.
pub open spec fn spec_count_column(v: u32) -> i32 {
    if v <= i32::MAX {
        v as i32
    } else {
        i32::MAX
    }
}

/// A count as it is read from its `INTEGER` column: negative values read
/// as 0.
pub open spec fn spec_count_from_column(v: i32) -> u32 {
    if v >= 0 {
        v as u32
    } else {
        0
    }
}

/// A count as its `INTEGER` column stores it.
pub fn count_column(v: u32) -> (r: i32)
    ensures
        r == spec_count_column(v),
{
    if v <= i32::MAX as u32 {
        v as i32
    } else {
        i32::MAX
    }
}

/// A count as it is read from its `INTEGER` column.
pub fn count_from_column(v: i32) -> (r: u32)
    ensures
        r == spec_count_from_column(v),
{
    if v >= 0 {
        v as u32
    } else {
        0
    }
}

/// A day count as its column stores it: out-of-range counts are stored as 0.
pub open spec fn spec_days_column(v: u32) -> i32 {
    if v <= i32::MAX {
        v as i32
    } else {
        0
    }
}

fn days_column(v: u32) -> (r: i32)
    ensures
        r == spec_days_column(v),
{
    if v <= i32::MAX as u32 {
        v as i32
    } else {
        0
    }
}

/// The recurrence columns of a billing plan: interval, count, trial days
/// and grace days.
pub open spec fn spec_recurrence_columns(r: Option<RecurringSettings>) -> (
    Option<Seq<char>>,
    Option<i32>,
    i32,
    i32,
) {
    match r {
        Some(s) => (
            Some(s.interval.spec_label()),
            Some(spec_count_column(s.interval_count)),
            spec_days_column(s.trial_days),
            spec_days_column(s.grace_period_days),
        ),
        None => (None, None, 0, 0),
    }
}

/// The recurrence columns of a billing plan.
pub fn recurrence_columns(r: Option<RecurringSettings>) -> (c: (
    Option<&'static str>,
    Option<i32>,
    i32,
    i32,
))
    ensures
        (match c.0 {
            Some(t) => Some(t@),
            None => None,
        }) == spec_recurrence_columns(r).0,
        c.1 == spec_recurrence_columns(r).1,
        c.2 == spec_recurrence_columns(r).2,
        c.3 == spec_recurrence_columns(r).3,
{
    match r {
        Some(s) => (
            Some(interval_str(s.interval)),
            Some(count_column(s.interval_count)),
            days_column(s.trial_days),
            days_column(s.grace_period_days),
        ),
        None => (None, None, 0, 0),
    }
}

/// The recurrence settings read back from a billing plan's columns:
/// `None` when the stored interval is not a known one (a validation error).
pub open spec fn spec_recurring_from_columns(
    interval: Option<Seq<char>>,
    count: Option<i32>,
    trial: i32,
    grace: i32,
) -> Option<Option<RecurringSettings>> {
    match interval {
        None => Some(None),
        Some(i) => match RecurrenceInterval::spec_parse(i) {
            None => None,
            Some(iv) => Some(
                Some(
                    RecurringSettings {
                        interval: iv,
                        interval_count: spec_count_from_column(
                            match count {
                                Some(c) => c,
                                None => 0,
                            },
                        ),
                        trial_days: spec_count_from_column(trial),
                        grace_period_days: spec_count_from_column(grace),
                    },
                ),
            ),
        },
    }
}

/// Read the recurrence settings back from a billing plan's columns.
pub fn recurring_from_columns(interval: Option<&str>, count: Option<i32>, trial: i32, grace: i32) -> (r:
    Result<Option<RecurringSettings>, AppError>)
    ensures
        match spec_recurring_from_columns(
            match interval {
                Some(t) => Some(t@),
                None => None,
            },
            count,
            trial,
            grace,
        ) {
            Some(s) => r == Ok::<Option<RecurringSettings>, AppError>(s),
            None => (interval matches Some(t) && r matches Err(AppError::Validation(m)) && m@
                == "unknown interval: "@ + t@),
        },
{
    match interval {
        None => Ok(None),
        Some(i) => {
            let iv = match parse_interval(i) {
                Ok(v) => v,
                Err(e) => {
                    return Err(e);
                },
            };
            let c = match count {
                Some(c) => c,
                None => 0,
            };
            Ok(
                Some(
                    RecurringSettings {
                        interval: iv,
                        interval_count: count_from_column(c),
                        trial_days: count_from_column(trial),
                        grace_period_days: count_from_column(grace),
                    },
                ),
            )
        },
    }
}

/// A billing plan's recurrence survives a store and load, as long as its
/// counts fit their columns.
pub proof fn law_billing_recurrence_round_trip(r: Option<RecurringSettings>)
    requires
        r matches Some(s) ==> s.interval_count <= i32::MAX && s.trial_days <= i32::MAX
            && s.grace_period_days <= i32::MAX,
    ensures
        ({
            let c = spec_recurrence_columns(r);
            spec_recurring_from_columns(c.0, c.1, c.2, c.3) == Some(r)
        }),
{
    if let Some(s) = r {
        law_recurrence_interval_round_trip(s.interval);
    }
}

/// The billing terms read back from a billing plan's columns: the billing
/// type, then the recurrence; `None` when either text is not a known one.
pub open spec fn spec_billing_terms_from_columns(
    billing_type: Seq<char>,
    interval: Option<Seq<char>>,
    count: Option<i32>,
    trial: i32,
    grace: i32,
) -> Option<(BillingType, Option<RecurringSettings>)> {
    match BillingType::spec_parse(billing_type) {
        None => None,
        Some(bt) => match spec_recurring_from_columns(interval, count, trial, grace) {
            None => None,
            Some(r) => Some((bt, r)),
        },
    }
}

/// Read a billing plan's terms back from its columns; unknown texts are
/// validation errors, the billing type checked first.
pub fn billing_terms_from_columns(
    billing_type: &str,
    interval: Option<&str>,
    count: Option<i32>,
    trial: i32,
    grace: i32,
) -> (r: Result<(BillingType, Option<RecurringSettings>), AppError>)
    ensures
        match spec_billing_terms_from_columns(
            billing_type@,
            match interval {
                Some(t) => Some(t@),
                None => None,
            },
            count,
            trial,
            grace,
        ) {
            Some(t) => r == Ok::<(BillingType, Option<RecurringSettings>), AppError>(t),
            None => if BillingType::spec_parse(billing_type@) is None {
                (r matches Err(AppError::Validation(m)) && m@ == "unknown billing_type: "@
                    + billing_type@)
            } else {
                (interval matches Some(t) && r matches Err(AppError::Validation(m)) && m@
                    == "unknown interval: "@ + t@)
            },
        },
{
    let bt = match parse_billing_type(billing_type) {
        Ok(t) => t,
        Err(e) => {
            return Err(e);
        },
    };
    match recurring_from_columns(interval, count, trial, grace) {
        Ok(r) => Ok((bt, r)),
        Err(e) => Err(e),
    }
}

/// A billing plan's terms survive a store and load, as long as its counts
/// fit their columns.
pub proof fn law_billing_terms_round_trip(bt: BillingType, r: Option<RecurringSettings>)
    requires
        r matches Some(s) ==> s.interval_count <= i32::MAX && s.trial_days <= i32::MAX
            && s.grace_period_days <= i32::MAX,
    ensures
        ({
            let c = spec_recurrence_columns(r);
            spec_billing_terms_from_columns(bt.spec_label(), c.0, c.1, c.2, c.3) == Some((bt, r))
        }),
{
    law_billing_type_round_trip(bt);
    law_billing_recurrence_round_trip(r);
}

/// The columns of a package item row: catalog item, billing plan, quantity,
/// role, commissionable flag, commissionable volume and points value.
pub open spec fn spec_package_item_columns(item: PackageItem) -> (
    u128,
    u128,
    i32,
    Seq<char>,
    bool,
    i32,
    i32,
) {
    (
        item.catalog_item_id,
        item.billing_plan_id,
        spec_count_column(item.quantity),
        item.role.spec_label(),
        item.is_commissionable,
        spec_count_column(item.commissionable_volume),
        spec_count_column(item.points_value),
    )
}

/// The columns of a package item row.
pub fn package_item_columns(item: &PackageItem) -> (c: (u128, u128, i32, &'static str, bool, i32, i32))
    ensures
        (c.0, c.1, c.2, c.3@, c.4, c.5, c.6) == spec_package_item_columns(*item),
{
    (
        item.catalog_item_id,
        item.billing_plan_id,
        count_column(item.quantity),
        package_item_role_str(item.role),
        item.is_commissionable,
        count_column(item.commissionable_volume),
        count_column(item.points_value),
    )
}

/// A package item read back from its row: `None` when the stored role is
/// not a known one (a validation error).
pub open spec fn spec_package_item_from_columns(
    catalog_item_id: u128,
    billing_plan_id: u128,
    quantity: i32,
    role: Seq<char>,
    is_commissionable: bool,
    commissionable_volume: i32,
    points_value: i32,
) -> Option<PackageItem> {
    match PackageItemRole::spec_parse(role) {
        None => None,
        Some(r) => Some(
            PackageItem {
                catalog_item_id,
                billing_plan_id,
                quantity: spec_count_from_column(quantity),
                role: r,
                is_commissionable,
                commissionable_volume: spec_count_from_column(commissionable_volume),
                points_value: spec_count_from_column(points_value),
            },
        ),
    }
}

/// Read a package item back from its row.
pub fn package_item_from_columns(
    catalog_item_id: u128,
    billing_plan_id: u128,
    quantity: i32,
    role: &str,
    is_commissionable: bool,
    commissionable_volume: i32,
    points_value: i32,
) -> (r: Result<PackageItem, AppError>)
    ensures
        match spec_package_item_from_columns(
            catalog_item_id,
            billing_plan_id,
            quantity,
            role@,
            is_commissionable,
            commissionable_volume,
            points_value,
        ) {
            Some(i) => r == Ok::<PackageItem, AppError>(i),
            None => (r matches Err(AppError::Validation(m)) && m@ == "unknown item_role: "@ + role@),
        },
{
    let r = match parse_package_item_role(role) {
        Ok(r) => r,
        Err(e) => {
            return Err(e);
        },
    };
    Ok(
        PackageItem {
            catalog_item_id,
            billing_plan_id,
            quantity: count_from_column(quantity),
            role: r,
            is_commissionable,
            commissionable_volume: count_from_column(commissionable_volume),
            points_value: count_from_column(points_value),
        },
    )
}

/// A package item survives a store and load, as long as its counts fit
/// their columns.
pub proof fn law_package_item_round_trip(item: PackageItem)
    requires
        item.quantity <= i32::MAX,
        item.commissionable_volume <= i32::MAX,
        item.points_value <= i32::MAX,
    ensures
        ({
            let c = spec_package_item_columns(item);
            spec_package_item_from_columns(c.0, c.1, c.2, c.3, c.4, c.5, c.6) == Some(item)
        }),
{
    law_package_item_role_round_trip(item.role);
}

/// The version a new pay plan stack gets: one more than the highest stored
/// version of the same name (negative versions read as 0).
pub fn next_stack_version(max_version: i32) -> (r: u32)
    ensures
        r == spec_count_from_column(max_version) + 1,
{
    count_from_column(max_version) + 1
}

/// A billing period: start, and end when it has one (unix time in
/// microseconds).
#[derive(Debug, Clone, Copy, PartialEq, Eq, Structural)]
pub struct Period {
    pub starts_at: i64,
    pub ends_at: Option<i64>,
}

/// The period columns of a subscription: start and end, both empty when
/// there is no current period.
pub fn period_columns(p: Option<Period>) -> (r: (Option<i64>, Option<i64>))
    ensures
        r == match p {
            Some(q) => (Some(q.starts_at), q.ends_at),
            None => (None::<i64>, None::<i64>),
        },
{
    match p {
        Some(q) => (Some(q.starts_at), q.ends_at),
        None => (None, None),
    }
}

/// The current period read back from a subscription's columns: there is one
/// when a start is stored.
pub fn period_from_columns(start: Option<i64>, end: Option<i64>) -> (r: Option<Period>)
    ensures
        r == match start {
            Some(s) => Some(Period { starts_at: s, ends_at: end }),
            None => None::<Period>,
        },
{
    match start {
        Some(s) => Some(Period { starts_at: s, ends_at: end }),
        None => None,
    }
}

/// A subscription's current period survives a store and load.
pub proof fn law_period_round_trip(p: Option<Period>)
    ensures
        ({
            let c = match p {
                Some(q) => (Some(q.starts_at), q.ends_at),
                None => (None::<i64>, None::<i64>),
            };
            (match c.0 {
                Some(s) => Some(Period { starts_at: s, ends_at: c.1 }),
                None => None::<Period>,
            }) == p
        }),
{
}

/// Reads and writes users.
#[derive(Debug, Clone, Copy)]
pub struct PgUserRepo {}

impl PgUserRepo {
    pub fn new() -> (r: PgUserRepo) {
        PgUserRepo {}
    }

    /// The stored form of a role.
    pub fn role_column(&self, role: UserRole) -> (r: &'static str)
        ensures
            r@ == role.spec_label(),
    {
        role.as_str()
    }

    /// The role read back from its column; unknown text is a validation
    /// error.
    pub fn role_from_column(&self, s: &str) -> (r: Result<UserRole, AppError>)
        ensures
            match UserRole::spec_parse(s@) {
                Some(role) => r == Ok::<UserRole, AppError>(role),
                None => (r matches Err(AppError::Validation(m)) && m@ == "unknown user role: "@ + s@),
            },
    {
        match UserRole::parse(s) {
            Some(role) => Ok(role),
            None => Err(AppError::Validation(crate::errors::tagged("unknown user role: ", s))),
        }
    }
}

/// Reads and writes product pay plan allocations.
#[derive(Debug, Clone, Copy)]
pub struct PgAllocationRepo {}

impl PgAllocationRepo {
    pub fn new() -> (r: PgAllocationRepo) {
        PgAllocationRepo {}
    }

    /// Allocations of no products need no query: there are none.
    pub fn needs_lookup(&self, product_ids: &Vec<u128>) -> (r: bool)
        ensures
            r == (product_ids@.len() > 0),
    {
        product_ids.len() > 0
    }
}

/// Appends reward ledger entries.
#[derive(Debug, Clone, Copy)]
pub struct PgLedgerStore {}

impl PgLedgerStore {
    pub fn new() -> (r: PgLedgerStore) {
        PgLedgerStore {}
    }

    /// The id and status column of each entry to insert, in order; the ids
    /// are what the append reports back.
    pub fn rows(&self, entries: &Vec<(u128, LedgerStatus)>) -> (r: Vec<(u128, &'static str)>)
        ensures
            r@.len() == entries@.len(),
            forall|i: int|
                0 <= i < r@.len() ==> (#[trigger] r@[i]).0 == entries@[i].0 && r@[i].1@
                    == entries@[i].1.spec_label(),
    {
        let mut out: Vec<(u128, &'static str)> = Vec::new();
        let n = entries.len();
        for i in 0..n
            invariant
                n == entries@.len(),
                out@.len() == i,
                forall|j: int|
                    0 <= j < i ==> (#[trigger] out@[j]).0 == entries@[j].0 && out@[j].1@
                        == entries@[j].1.spec_label(),
        {
            let (id, status) = entries[i];
            out.push((id, ledger_status_str(status)));
        }
        out
    }
}

} // verus!
