//! Scheduled operations: renewals, Royal pot distribution and binary cycle
//! close. These decide which events to raise and where the engine runs them.

use vstd::prelude::*;
use vstd::string::*;
use crate::codes::{leg_str, BinaryLeg};
use crate::errors::{tagged, AppError};
use crate::requests::PackageItem;
use crate::events::{
    lookup, parse_uuid, spec_i64_field, spec_str_field, spec_uuid_field, str_field, uuid_field,
    uuid_hyphenated, uuid_text, uuid_text_value, with_member, with_uuid, JsonValue, Payload,
};
use crate::text::{starts_with, str_eq};

verus! {

/// The leg a renewal's volume goes to: the opposite of the leg of the node's
/// last volume entry when that was the left leg, otherwise the left leg.
pub fn renewal_leg(last_leg: Option<&str>) -> (r: BinaryLeg)
    ensures
        (last_leg matches Some(l) && l@ == "left"@) ==> r == BinaryLeg::Right,
        !(last_leg matches Some(l) && l@ == "left"@) ==> r == BinaryLeg::Left,
{
    match last_leg {
        Some(l) => if str_eq(l, "left") {
            BinaryLeg::Right
        } else {
            BinaryLeg::Left
        },
        None => BinaryLeg::Left,
    }
}

/// The next billing period after a renewal, as (months, days), from the
/// billing plan's recurrence interval: weekly plans advance 7 days,
/// quarterly plans 3 months, annual plans 12 months, all others one month.
pub fn renewal_period(recurrence_interval: Option<&str>) -> (r: (i32, i32))
    ensures
        r == (match recurrence_interval {
            Some(i) => if i@ == "weekly"@ {
                (0i32, 7i32)
            } else if i@ == "quarterly"@ {
                (3i32, 0i32)
            } else if i@ == "annual"@ || i@ == "yearly"@ {
                (12i32, 0i32)
            } else {
                (1i32, 0i32)
            },
            None => (1i32, 0i32),
        }),
{
    match recurrence_interval {
        Some(i) => if str_eq(i, "weekly") {
            (0, 7)
        } else if str_eq(i, "quarterly") {
            (3, 0)
        } else if str_eq(i, "annual") || str_eq(i, "yearly") {
            (12, 0)
        } else {
            (1, 0)
        },
        None => (1, 0),
    }
}

/// Where the engine runs a scheduled event.
#[derive(Debug, Clone, Copy, PartialEq, Eq, Structural)]
pub struct StackTrigger {
    pub stack_id: u128,
    pub package_id: u128,
    pub enrollment_id: Option<u128>,
}

/// Where the engine runs an event: `Some(None)` when the payload names no
/// stack or no package (nothing to run), `None` when a named one is not a
/// UUID (a validation error).
pub open spec fn spec_stack_trigger(p: Payload) -> Option<Option<StackTrigger>> {
    match spec_str_field(p, "stack_id"@) {
        None => Some(None),
        Some(st) => match uuid_text_value(st) {
            None => None,
            Some(stack_id) => match spec_str_field(p, "package_id"@) {
                None => Some(None),
                Some(pt) => match uuid_text_value(pt) {
                    None => None,
                    Some(package_id) => Some(
                        Some(
                            StackTrigger {
                                stack_id,
                                package_id,
                                enrollment_id: spec_uuid_field(p, "enrollment_id"@),
                            },
                        ),
                    ),
                },
            },
        },
    }
}

/// Read where the engine runs an event from its payload; a stack or package
/// that is named but not a UUID is a validation error naming the field.
pub fn stack_trigger(p: &Payload) -> (r: Result<Option<StackTrigger>, AppError>)
    ensures
        match spec_stack_trigger(*p) {
            Some(t) => r == Ok::<Option<StackTrigger>, AppError>(t),
            None => (r matches Err(AppError::Validation(m)) && if (spec_str_field(
                *p,
                "stack_id"@,
            ) matches Some(st) && uuid_text_value(st) is None) {
                starts_with(m@, "invalid stack_id: "@)
            } else {
                starts_with(m@, "invalid package_id: "@)
            }),
        },
{
    let st = match str_field(p, "stack_id") {
        None => {
            return Ok(None);
        },
        Some(s) => s,
    };
    let stack_id = match parse_uuid(st) {
        Ok(x) => x,
        Err(e) => {
            let m = tagged("invalid stack_id: ", e.as_str());
            assert(m@.subrange(0, "invalid stack_id: "@.len() as int) == "invalid stack_id: "@);
            return Err(AppError::Validation(m));
        },
    };
    let pt = match str_field(p, "package_id") {
        None => {
            return Ok(None);
        },
        Some(s) => s,
    };
    let package_id = match parse_uuid(pt) {
        Ok(x) => x,
        Err(e) => {
            let m = tagged("invalid package_id: ", e.as_str());
            assert(m@.subrange(0, "invalid package_id: "@.len() as int) == "invalid package_id: "@);
            return Err(AppError::Validation(m));
        },
    };
    Ok(Some(StackTrigger { stack_id, package_id, enrollment_id: uuid_field(p, "enrollment_id") }))
}

/// The pay plan stack an event runs on, once looked up (`None` when no stack
/// has that id): an unknown stack is refused as not found, naming its id.
pub fn loaded_stack<T>(stack: Option<T>, stack_id: u128) -> (r: Result<T, AppError>)
    ensures
        match stack {
            Some(s) => r == Ok::<T, AppError>(s),
            None => (r matches Err(AppError::NotFound(m)) && m@ == "stack "@ + uuid_hyphenated(
                stack_id,
            ) + " not found"@),
        },
{
    match stack {
        Some(s) => Ok(s),
        None => {
            let id = uuid_text(stack_id);
            Err(AppError::NotFound(String::from_str("stack ").concat(id.as_str()).concat(" not found")))
        },
    }
}

/// The aggregates whose stored module state a cascade starts from:
/// enrollment-scoped modules keep their state under the enrollment (when the
/// event names one), globally scoped modules under the nil UUID.
pub fn state_scopes(enrollment_id: Option<u128>) -> (r: Vec<u128>)
    ensures
        r@ == match enrollment_id {
            Some(e) => seq![e, 0u128],
            None => seq![0u128],
        },
{
    let mut v: Vec<u128> = Vec::new();
    match enrollment_id {
        Some(e) => v.push(e),
        None => {},
    }
    v.push(0);
    v
}

/// Payload keys are distinct texts.
pub proof fn lemma_payload_keys()
    ensures
        "subscription_id"@.len() == 15,
        "user_id"@.len() == 7 && "user_id"@[0] == 'u',
        "package_id"@.len() == 10,
        "stack_id"@.len() == 8,
        "volume"@.len() == 6 && "volume"@[0] == 'v',
        "points"@.len() == 6 && "points"@[0] == 'p',
        "leg"@.len() == 3,
        "node_id"@.len() == 7 && "node_id"@[0] == 'n',
        "period_id"@.len() == 9,
        "enrollment_id"@.len() == 13,
        "node_user_id"@.len() == 12,
{
    reveal_strlit("subscription_id");
    reveal_strlit("user_id");
    reveal_strlit("package_id");
    reveal_strlit("stack_id");
    reveal_strlit("volume");
    reveal_strlit("points");
    reveal_strlit("leg");
    reveal_strlit("node_id");
    reveal_strlit("period_id");
    reveal_strlit("enrollment_id");
    reveal_strlit("node_user_id");
}

fn empty_payload() -> (r: Payload)
    ensures
        r.fields@.len() == 0,
{
    Payload { fields: Vec::new() }
}

/// Commissionable volume of a package: commissionable volume times quantity,
/// summed over the package's commissionable items.
pub open spec fn commissionable_volume(items: Seq<PackageItem>) -> int
    decreases items.len(),
{
    if items.len() == 0 {
        0
    } else {
        commissionable_volume(items.drop_last()) + item_volume(items.last())
    }
}

/// Commissionable volume one package item contributes.
pub open spec fn item_volume(item: PackageItem) -> int {
    if item.is_commissionable {
        item.commissionable_volume * item.quantity
    } else {
        0
    }
}

/// An item contributes no negative volume.
proof fn lemma_item_volume_nonneg(item: PackageItem)
    ensures
        0 <= item_volume(item) <= u64::MAX,
{
    let v = item.commissionable_volume as int;
    let q = item.quantity as int;
    assert(0 <= v * q <= u64::MAX) by (nonlinear_arith)
        requires
            0 <= v <= u32::MAX,
            0 <= q <= u32::MAX,
    ;
}

/// The volume of a package is at least the volume of any of its leading
/// items.
proof fn lemma_commissionable_volume_prefix(items: Seq<PackageItem>, k: int)
    requires
        0 <= k <= items.len(),
    ensures
        commissionable_volume(items.take(k)) <= commissionable_volume(items),
    decreases items.len(),
{
    if k < items.len() {
        assert(items.drop_last().take(k) =~= items.take(k));
        lemma_commissionable_volume_prefix(items.drop_last(), k);
        lemma_item_volume_nonneg(items.last());
    } else {
        assert(items.take(k) =~= items);
    }
}

/// The volume of two runs of items is the sum of their volumes.
pub proof fn law_commissionable_volume_adds(a: Seq<PackageItem>, b: Seq<PackageItem>)
    ensures
        commissionable_volume(a + b) == commissionable_volume(a) + commissionable_volume(b),
    decreases b.len(),
{
    if b.len() == 0 {
        assert(a + b =~= a);
    } else {
        assert((a + b).drop_last() =~= a + b.drop_last());
        assert((a + b).last() == b.last());
        law_commissionable_volume_adds(a, b.drop_last());
    }
}

/// One item renews its commissionable volume times its quantity when it is
/// commissionable and nothing otherwise, whatever its role: giving an item
/// of a package another role leaves the package's volume unchanged.
pub proof fn law_item_volume_ignores_role(
    items: Seq<PackageItem>,
    k: int,
    role: crate::codes::PackageItemRole,
)
    requires
        0 <= k < items.len(),
    ensures
        commissionable_volume(seq![items[k]]) == (if items[k].is_commissionable {
            items[k].commissionable_volume * items[k].quantity
        } else {
            0
        }),
        commissionable_volume(items.update(k, PackageItem { role, ..items[k] }))
            == commissionable_volume(items),
{
    let x = items[k];
    let y = PackageItem { role, ..x };
    assert(seq![x].drop_last() =~= Seq::<PackageItem>::empty());
    assert(seq![y].drop_last() =~= Seq::<PackageItem>::empty());
    assert(seq![x].last() == x);
    assert(seq![y].last() == y);
    assert(commissionable_volume(Seq::<PackageItem>::empty()) == 0);
    assert(commissionable_volume(seq![x]) == item_volume(x));
    assert(commissionable_volume(seq![y]) == item_volume(y));
    let before = items.take(k);
    let after = items.skip(k + 1);
    assert(items =~= before + seq![x] + after);
    assert(items.update(k, y) =~= before + seq![y] + after);
    law_commissionable_volume_adds(before + seq![x], after);
    law_commissionable_volume_adds(before, seq![x]);
    law_commissionable_volume_adds(before + seq![y], after);
    law_commissionable_volume_adds(before, seq![y]);
}

/// The commissionable volume a renewal carries, when it fits an `i64`.
pub fn renewal_volume(items: &Vec<PackageItem>) -> (r: Option<i64>)
    ensures
        match r {
            Some(v) => v == commissionable_volume(items@),
            None => commissionable_volume(items@) > i64::MAX,
        },
{
    let n = items.len();
    let mut total: u64 = 0;
    for i in 0..n
        invariant
            n == items@.len(),
            total == commissionable_volume(items@.take(i as int)),
            total <= i64::MAX,
    {
        proof {
            assert(items@.take(i + 1).drop_last() =~= items@.take(i as int));
            assert(items@.take(i + 1).last() == items@[i as int]);
            lemma_item_volume_nonneg(items@[i as int]);
        }
        let it = &items[i];
        if it.is_commissionable {
            let v = it.commissionable_volume as u64;
            let q = it.quantity as u64;
            assert(v * q <= u64::MAX) by (nonlinear_arith)
                requires
                    v <= u32::MAX,
                    q <= u32::MAX,
            ;
            let term = v * q;
            if term > i64::MAX as u64 - total {
                proof {
                    lemma_commissionable_volume_prefix(items@, i + 1);
                }
                return None;
            }
            total = total + term;
        }
    }
    proof {
        assert(items@.take(n as int) =~= items@);
    }
    Some(total as i64)
}

/// Payload of the `SubscriptionRenewed` event raised once for each due
/// subscription: it carries the package's commissionable volume (as both
/// `volume` and `points`), the leg the volume goes to, the user's binary
/// node when there is one, and the package's pay plan stack when it has
/// one, which is where the engine then runs the event.
pub fn renewal_payload(
    subscription_id: u128,
    user_id: u128,
    package_id: u128,
    stack_id: Option<u128>,
    volume: i64,
    leg: BinaryLeg,
    node_id: Option<u128>,
) -> (r: Payload)
    ensures
        spec_uuid_field(r, "subscription_id"@) == Some(subscription_id),
        spec_uuid_field(r, "user_id"@) == Some(user_id),
        spec_uuid_field(r, "package_id"@) == Some(package_id),
        spec_uuid_field(r, "stack_id"@) == stack_id,
        spec_i64_field(r, "volume"@) == Some(volume),
        spec_i64_field(r, "points"@) == Some(volume),
        spec_str_field(r, "leg"@) == Some(leg.spec_label()),
        spec_uuid_field(r, "node_id"@) == node_id,
        spec_stack_trigger(r) == match stack_id {
            Some(s) => Some(Some(StackTrigger { stack_id: s, package_id, enrollment_id: None })),
            None => Some(None),
        },
{
    proof {
        lemma_payload_keys();
    }
    let p = empty_payload();
    let p = with_uuid(p, "subscription_id", subscription_id);
    let p = with_uuid(p, "user_id", user_id);
    let p = with_uuid(p, "package_id", package_id);
    let p = with_member(p, "volume", JsonValue::Int(volume));
    let p = with_member(p, "points", JsonValue::Int(volume));
    let p = with_member(p, "leg", JsonValue::Str(String::from_str(leg_str(leg))));
    let p = match node_id {
        Some(n) => with_uuid(p, "node_id", n),
        None => p,
    };
    match stack_id {
        Some(s) => with_uuid(p, "stack_id", s),
        None => p,
    }
}

/// Payload of the `BinaryCycleClosed` event raised for one enrollment and
/// one of its package's pay plan stacks.
pub fn cycle_close_payload(
    period_id: u128,
    enrollment_id: u128,
    node_user_id: u128,
    package_id: u128,
    stack_id: u128,
    node_id: Option<u128>,
) -> (r: Payload)
    ensures
        spec_uuid_field(r, "period_id"@) == Some(period_id),
        spec_uuid_field(r, "enrollment_id"@) == Some(enrollment_id),
        spec_uuid_field(r, "node_user_id"@) == Some(node_user_id),
        spec_uuid_field(r, "package_id"@) == Some(package_id),
        spec_uuid_field(r, "stack_id"@) == Some(stack_id),
        spec_uuid_field(r, "node_id"@) == node_id,
        spec_stack_trigger(r) == Some(
            Some(StackTrigger { stack_id, package_id, enrollment_id: Some(enrollment_id) }),
        ),
{
    proof {
        lemma_payload_keys();
    }
    let p = empty_payload();
    let p = with_uuid(p, "period_id", period_id);
    let p = with_uuid(p, "enrollment_id", enrollment_id);
    let p = with_uuid(p, "node_user_id", node_user_id);
    let p = with_uuid(p, "package_id", package_id);
    let p = with_uuid(p, "stack_id", stack_id);
    match node_id {
        Some(n) => with_uuid(p, "node_id", n),
        None => p,
    }
}

/// Payloads of the `BinaryCycleClosed` events raised when a period closes,
/// for one active enrollment: one per pay plan stack of its package, in the
/// order the stacks are given.
pub fn cycle_close_payloads(
    period_id: u128,
    enrollment_id: u128,
    node_user_id: u128,
    package_id: u128,
    stacks: &Vec<u128>,
    node_id: Option<u128>,
) -> (r: Vec<Payload>)
    ensures
        r@.len() == stacks@.len(),
        forall|i: int|
            0 <= i < r@.len() ==> spec_stack_trigger(#[trigger] r@[i]) == Some(
                Some(
                    StackTrigger {
                        stack_id: stacks@[i],
                        package_id,
                        enrollment_id: Some(enrollment_id),
                    },
                ),
            ) && spec_uuid_field(r@[i], "period_id"@) == Some(period_id) && spec_uuid_field(
                r@[i],
                "node_user_id"@,
            ) == Some(node_user_id) && spec_uuid_field(r@[i], "node_id"@) == node_id,
{
    let mut out: Vec<Payload> = Vec::new();
    let n = stacks.len();
    for i in 0..n
        invariant
            n == stacks@.len(),
            out@.len() == i,
            forall|j: int|
                0 <= j < i ==> spec_stack_trigger(#[trigger] out@[j]) == Some(
                    Some(
                        StackTrigger {
                            stack_id: stacks@[j],
                            package_id,
                            enrollment_id: Some(enrollment_id),
                        },
                    ),
                ) && spec_uuid_field(out@[j], "period_id"@) == Some(period_id) && spec_uuid_field(
                    out@[j],
                    "node_user_id"@,
                ) == Some(node_user_id) && spec_uuid_field(out@[j], "node_id"@) == node_id,
    {
        let p = cycle_close_payload(period_id, enrollment_id, node_user_id, package_id, stacks[i], node_id);
        out.push(p);
    }
    out
}

/// Payload of the `RoyalPotBonusDistributed` event raised for one stack
/// holding the pot bonus module; it names no package (the nil UUID).
pub fn pot_distribution_payload(stack_id: u128) -> (r: Payload)
    ensures
        spec_uuid_field(r, "package_id"@) == Some(0u128),
        spec_uuid_field(r, "stack_id"@) == Some(stack_id),
        spec_stack_trigger(r) == Some(
            Some(StackTrigger { stack_id, package_id: 0, enrollment_id: None }),
        ),
{
    proof {
        lemma_payload_keys();
    }
    let p = empty_payload();
    let p = with_uuid(p, "package_id", 0);
    with_uuid(p, "stack_id", stack_id)
}

} // verus!
