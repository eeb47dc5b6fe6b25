//! Projection of module state and emitted events into the relational
//! read model. These functions decide which rows to write; the rows carry
//! every key the target tables need.

use vstd::prelude::*;
use crate::codes::{BinaryLeg, BinaryVolumeStatus, EnrollmentStatus, PurchaseStatus};
use crate::events::{
    entry_i64_field, entry_uuid_field, find_member, lookup, spec_entry_i64_field,
    spec_entry_uuid_field, spec_i64_field, spec_uuid_field, i64_field, uuid_field, DomainEvent,
    EventType, JsonObject, JsonValue, Payload,
};
use crate::text::{parse_i64, spec_parse_i64, str_eq};

verus! {

/// Tier of a Royal Flush flushline account.
#[derive(Debug, Clone, Copy, PartialEq, Eq, Structural)]
pub enum FlushTier {
    Ten,
    Jack,
    Queen,
    King,
    Ace,
}

impl FlushTier {
    /// The stored text form of the tier.
    pub open spec fn spec_label(self) -> Seq<char> {
        match self {
            FlushTier::Ten => "Ten"@,
            FlushTier::Jack => "Jack"@,
            FlushTier::Queen => "Queen"@,
            FlushTier::King => "King"@,
            FlushTier::Ace => "Ace"@,
        }
    }

    /// The stored text form of the tier.
    pub fn as_str(&self) -> (s: &'static str)
        ensures
            s@ == self.spec_label(),
    {
        match self {
            FlushTier::Ten => "Ten",
            FlushTier::Jack => "Jack",
            FlushTier::Queen => "Queen",
            FlushTier::King => "King",
            FlushTier::Ace => "Ace",
        }
    }
}

/// A flushline account as the `royal.flushline` module keeps it.
#[derive(Debug, Clone, Copy, PartialEq, Eq, Structural)]
pub struct FlushlineAccount {
    pub id: u128,
    pub enrollment_id: u128,
    pub owner_user_id: u128,
    pub current_tier: FlushTier,
    pub current_points: u64,
    pub graduated: bool,
    /// Unix time in microseconds.
    pub graduated_at: Option<i64>,
    /// Unix time in microseconds.
    pub created_at: i64,
}

/// State of the `royal.flushline` module for one enrollment.
#[derive(Debug, Clone, Copy, PartialEq, Eq, Structural)]
pub struct FlushlineState {
    pub account: Option<FlushlineAccount>,
}

/// A `royal_flushline_accounts` row.
#[derive(Debug, Clone, Copy, PartialEq, Eq, Structural)]
pub struct FlushlineRow {
    pub id: u128,
    pub enrollment_id: u128,
    pub owner_user_id: u128,
    pub current_tier: FlushTier,
    pub current_points: i32,
    pub cycle_count: i32,
    pub graduated: bool,
    pub graduated_at: Option<i64>,
    pub created_at: i64,
}

/// A node of the binary tree as the `binary.tree` module keeps it.
#[derive(Debug, Clone, Copy, PartialEq, Eq, Structural)]
pub struct BinaryNode {
    pub id: u128,
    pub enrollment_id: Option<u128>,
    pub user_id: u128,
    pub sponsor_user_id: Option<u128>,
    pub parent_node_id: Option<u128>,
    pub leg: Option<BinaryLeg>,
}

/// A `binary_nodes` row.
#[derive(Debug, Clone, Copy, PartialEq, Eq, Structural)]
pub struct BinaryNodeRow {
    pub id: u128,
    pub enrollment_id: u128,
    pub user_id: u128,
    pub sponsor_user_id: Option<u128>,
    pub parent_node_id: Option<u128>,
    pub leg: Option<BinaryLeg>,
}

/// A volume entry as the `binary.volume` module keeps it.
#[derive(Debug, Clone, Copy, PartialEq, Eq, Structural)]
pub struct BinaryVolumeEntry {
    pub id: u128,
    pub node_id: Option<u128>,
    pub source_purchase_id: Option<u128>,
    pub leg: BinaryLeg,
    pub volume: i64,
    pub status: BinaryVolumeStatus,
}

/// A `binary_volume_ledger` row.
#[derive(Debug, Clone, Copy, PartialEq, Eq, Structural)]
pub struct BinaryVolumeRow {
    pub id: u128,
    pub node_id: u128,
    pub source_purchase_id: Option<u128>,
    pub leg: BinaryLeg,
    pub volume: i64,
    pub status: BinaryVolumeStatus,
}

/// Per-leg carryover as the `binary.carryover` module keeps it.
#[derive(Debug, Clone, Copy, PartialEq, Eq, Structural)]
pub struct Carry {
    pub company_id: Option<u128>,
    pub node_id: Option<u128>,
    pub left_volume: i64,
    pub right_volume: i64,
}

/// A `binary_carryover` row.
#[derive(Debug, Clone, Copy, PartialEq, Eq, Structural)]
pub struct CarryoverRow {
    pub company_id: Option<u128>,
    pub node_id: u128,
    pub left_carryover: i64,
    pub right_carryover: i64,
}

/// Which relational table a module's state projects into.
#[derive(Debug, Clone, Copy, PartialEq, Eq, Structural)]
pub enum ProjectionTarget {
    FlushlineAccounts,
    BinaryNodes,
    BinaryVolumeLedger,
    BinaryCarryover,
    /// The module has no relational projection; its state is ignored.
    Unprojected,
}

/// The `binary_nodes` rows of a tree: one per node that carries an
/// enrollment, in order.
pub open spec fn node_rows(nodes: Seq<BinaryNode>) -> Seq<BinaryNodeRow>
    decreases nodes.len(),
{
    if nodes.len() == 0 {
        Seq::empty()
    } else {
        let n = nodes.last();
        match n.enrollment_id {
            Some(e) => node_rows(nodes.drop_last()).push(
                BinaryNodeRow {
                    id: n.id,
                    enrollment_id: e,
                    user_id: n.user_id,
                    sponsor_user_id: n.sponsor_user_id,
                    parent_node_id: n.parent_node_id,
                    leg: n.leg,
                },
            ),
            None => node_rows(nodes.drop_last()),
        }
    }
}

/// The `binary_volume_ledger` rows of the volume entries: one per entry
/// linked to a node, in order.
pub open spec fn volume_rows(entries: Seq<BinaryVolumeEntry>) -> Seq<BinaryVolumeRow>
    decreases entries.len(),
{
    if entries.len() == 0 {
        Seq::empty()
    } else {
        let v = entries.last();
        match v.node_id {
            Some(node_id) => volume_rows(entries.drop_last()).push(
                BinaryVolumeRow {
                    id: v.id,
                    node_id,
                    source_purchase_id: v.source_purchase_id,
                    leg: v.leg,
                    volume: v.volume,
                    status: v.status,
                },
            ),
            None => volume_rows(entries.drop_last()),
        }
    }
}

/// Projects `module_state` changes into the per-module relational tables.
/// Stateless.
#[derive(Debug, Clone, Copy)]
pub struct PgProjections {}

impl PgProjections {
    pub fn new() -> (r: PgProjections) {
        PgProjections {}
    }

    /// The table a module's state projects into, by module key.
    pub fn target(&self, module_key: &str) -> (r: ProjectionTarget)
        ensures
            r == (if module_key@ == "royal.flushline"@ {
                ProjectionTarget::FlushlineAccounts
            } else if module_key@ == "binary.tree"@ {
                ProjectionTarget::BinaryNodes
            } else if module_key@ == "binary.volume"@ {
                ProjectionTarget::BinaryVolumeLedger
            } else if module_key@ == "binary.carryover"@ {
                ProjectionTarget::BinaryCarryover
            } else {
                ProjectionTarget::Unprojected
            }),
    {
        if str_eq(module_key, "royal.flushline") {
            ProjectionTarget::FlushlineAccounts
        } else if str_eq(module_key, "binary.tree") {
            ProjectionTarget::BinaryNodes
        } else if str_eq(module_key, "binary.volume") {
            ProjectionTarget::BinaryVolumeLedger
        } else if str_eq(module_key, "binary.carryover") {
            ProjectionTarget::BinaryCarryover
        } else {
            ProjectionTarget::Unprojected
        }
    }

    /// The flushline account row: nothing before the account exists; points
    /// beyond the column's range are stored as its largest value.
    pub fn flushline_row(&self, state: &FlushlineState) -> (r: Option<FlushlineRow>)
        ensures
            match state.account {
                None => r is None,
                Some(a) => r == Some(
                    FlushlineRow {
                        id: a.id,
                        enrollment_id: a.enrollment_id,
                        owner_user_id: a.owner_user_id,
                        current_tier: a.current_tier,
                        current_points: if a.current_points <= i32::MAX {
                            a.current_points as i32
                        } else {
                            i32::MAX
                        },
                        cycle_count: 0,
                        graduated: a.graduated,
                        graduated_at: a.graduated_at,
                        created_at: a.created_at,
                    },
                ),
            },
    {
        match state.account {
            None => None,
            Some(a) => {
                let points: i32 = if a.current_points <= i32::MAX as u64 {
                    a.current_points as i32
                } else {
                    i32::MAX
                };
                Some(
                    FlushlineRow {
                        id: a.id,
                        enrollment_id: a.enrollment_id,
                        owner_user_id: a.owner_user_id,
                        current_tier: a.current_tier,
                        current_points: points,
                        cycle_count: 0,
                        graduated: a.graduated,
                        graduated_at: a.graduated_at,
                        created_at: a.created_at,
                    },
                )
            },
        }
    }

    /// The `binary_nodes` rows of a tree; nodes without an enrollment are
    /// skipped.
    pub fn node_rows(&self, nodes: &Vec<BinaryNode>) -> (r: Vec<BinaryNodeRow>)
        ensures
            r@ == node_rows(nodes@),
    {
        let mut out: Vec<BinaryNodeRow> = Vec::new();
        let n = nodes.len();
        for i in 0..n
            invariant
                n == nodes@.len(),
                out@ == node_rows(nodes@.take(i as int)),
        {
            proof {
                assert(nodes@.take(i + 1).drop_last() == nodes@.take(i as int));
                assert(nodes@.take(i + 1).last() == nodes@[i as int]);
            }
            let node = nodes[i];
            match node.enrollment_id {
                Some(e) => {
                    out.push(
                        BinaryNodeRow {
                            id: node.id,
                            enrollment_id: e,
                            user_id: node.user_id,
                            sponsor_user_id: node.sponsor_user_id,
                            parent_node_id: node.parent_node_id,
                            leg: node.leg,
                        },
                    );
                },
                None => {},
            }
        }
        proof {
            assert(nodes@.take(n as int) == nodes@);
        }
        out
    }

    /// The `binary_volume_ledger` rows of the volume entries; entries not
    /// yet linked to a node are skipped.
    pub fn volume_rows(&self, entries: &Vec<BinaryVolumeEntry>) -> (r: Vec<BinaryVolumeRow>)
        ensures
            r@ == volume_rows(entries@),
    {
        let mut out: Vec<BinaryVolumeRow> = Vec::new();
        let n = entries.len();
        for i in 0..n
            invariant
                n == entries@.len(),
                out@ == volume_rows(entries@.take(i as int)),
        {
            proof {
                assert(entries@.take(i + 1).drop_last() == entries@.take(i as int));
                assert(entries@.take(i + 1).last() == entries@[i as int]);
            }
            let v = entries[i];
            match v.node_id {
                Some(node_id) => {
                    out.push(
                        BinaryVolumeRow {
                            id: v.id,
                            node_id,
                            source_purchase_id: v.source_purchase_id,
                            leg: v.leg,
                            volume: v.volume,
                            status: v.status,
                        },
                    );
                },
                None => {},
            }
        }
        proof {
            assert(entries@.take(n as int) == entries@);
        }
        out
    }

    /// The `binary_carryover` row of the carry's company and node; nothing
    /// until the carry is linked to a node.
    pub fn carryover_row(&self, carry: &Carry) -> (r: Option<CarryoverRow>)
        ensures
            match carry.node_id {
                None => r is None,
                Some(n) => r == Some(
                    CarryoverRow {
                        company_id: carry.company_id,
                        node_id: n,
                        left_carryover: carry.left_volume,
                        right_carryover: carry.right_volume,
                    },
                ),
            },
    {
        match carry.node_id {
            None => None,
            Some(n) => Some(
                CarryoverRow {
                    company_id: carry.company_id,
                    node_id: n,
                    left_carryover: carry.left_volume,
                    right_carryover: carry.right_volume,
                },
            ),
        }
    }
}

/// A `binary_nodes` row holds the node's own fields unchanged: its id,
/// user, sponsor, parent and leg, and the enrollment the node carries.
pub open spec fn row_copies_node(row: BinaryNodeRow, n: BinaryNode) -> bool {
    &&& n.enrollment_id == Some(row.enrollment_id)
    &&& row.id == n.id
    &&& row.user_id == n.user_id
    &&& row.sponsor_user_id == n.sponsor_user_id
    &&& row.parent_node_id == n.parent_node_id
    &&& row.leg == n.leg
}

/// Every projected node row copies a node with that enrollment field by
/// field (sponsor stays sponsor, parent stays parent), and every node that
/// carries an enrollment gets such a row.
pub proof fn law_node_rows_come_from_enrolled_nodes(nodes: Seq<BinaryNode>)
    ensures
        node_rows(nodes).len() <= nodes.len(),
        forall|i: int|
            0 <= i < node_rows(nodes).len() ==> exists|j: int|
                0 <= j < nodes.len() && row_copies_node(
                    #[trigger] node_rows(nodes)[i],
                    nodes[j],
                ),
        forall|j: int|
            0 <= j < nodes.len() && (#[trigger] nodes[j]).enrollment_id is Some ==> exists|i: int|
                0 <= i < node_rows(nodes).len() && row_copies_node(node_rows(nodes)[i], nodes[j]),
    decreases nodes.len(),
{
    if nodes.len() > 0 {
        law_node_rows_come_from_enrolled_nodes(nodes.drop_last());
        let prev = node_rows(nodes.drop_last());
        let cur = node_rows(nodes);
        assert(prev.len() <= cur.len());
        assert forall|i: int| 0 <= i < prev.len() implies cur[i] == prev[i] by {}
        assert forall|i: int| 0 <= i < cur.len() implies exists|j: int|
            0 <= j < nodes.len() && row_copies_node(#[trigger] cur[i], nodes[j]) by {
            if i < prev.len() {
                let j = choose|j: int|
                    0 <= j < nodes.drop_last().len() && row_copies_node(
                        #[trigger] prev[i],
                        nodes.drop_last()[j],
                    );
                assert(nodes[j] == nodes.drop_last()[j]);
                assert(row_copies_node(cur[i], nodes[j]));
            } else {
                assert(nodes[nodes.len() - 1] == nodes.last());
                assert(row_copies_node(cur[i], nodes[nodes.len() - 1]));
            }
        }
        assert forall|j: int|
            0 <= j < nodes.len() && (#[trigger] nodes[j]).enrollment_id is Some implies exists|i: int|
                0 <= i < cur.len() && row_copies_node(cur[i], nodes[j]) by {
            if j < nodes.len() - 1 {
                assert(nodes.drop_last()[j] == nodes[j]);
                let i = choose|i: int|
                    0 <= i < prev.len() && row_copies_node(prev[i], #[trigger] nodes.drop_last()[j]);
                assert(cur[i] == prev[i]);
                assert(row_copies_node(cur[i], nodes[j]));
            } else {
                assert(nodes[j] == nodes.last());
                assert(row_copies_node(cur[cur.len() - 1], nodes[j]));
            }
        }
    }
}

// ------------------------------------------------------------------------
// Event-driven projections
// ------------------------------------------------------------------------

/// Which projection an emitted event drives.
#[derive(Debug, Clone, Copy, PartialEq, Eq, Structural)]
pub enum EventProjection {
    /// A duplicated Royal account: a new enrollment and flushline account.
    Duplication,
    /// A `binary_pairing_results` row.
    PairingResult,
    /// One more closed cycle on a binary node.
    CycleCount,
    /// Cumulative pot bonus balances.
    PotBonusBalances,
    /// No projection.
    Nothing,
}

/// A duplicated Royal account to materialise.
#[derive(Debug, Clone, Copy, PartialEq, Eq, Structural)]
pub struct DuplicationPlan {
    pub owner_user_id: u128,
    pub new_royal_account_id: u128,
    pub package_id: Option<u128>,
}

/// Events whose distributions are credited to pot bonus balances.
pub open spec fn is_balance_event(t: EventType) -> bool {
    t == EventType::RoyalPotBonusDistributed || t == EventType::RoyalPotBonusSettled
}

/// Whether every distribution entry of a payload can be credited.
pub open spec fn all_fit(p: Payload) -> bool {
    forall|i: int| 0 <= i < distributions(p).len() ==> entry_fits(#[trigger] distributions(p)[i])
}

/// The rows a duplicated Royal account materialises.
#[derive(Debug, Clone, Copy, PartialEq, Eq, Structural)]
pub struct DuplicationRows {
    pub purchase_id: u128,
    pub purchase_status: PurchaseStatus,
    pub enrollment_id: u128,
    pub enrollment_status: EnrollmentStatus,
    pub user_id: u128,
    pub package_id: Option<u128>,
    pub account: FlushlineRow,
}

/// A `binary_pairing_results` row.
#[derive(Debug, Clone, Copy, PartialEq, Eq, Structural)]
pub struct PairingRow {
    pub period_id: u128,
    pub user_id: u128,
    pub node_id: u128,
    pub left_volume: i64,
    pub right_volume: i64,
    pub matched_volume: i64,
    pub commission_amount: i64,
}

/// The binary node whose cycle count a closed cycle advances.
#[derive(Debug, Clone, Copy, PartialEq, Eq, Structural)]
pub enum CycleCountTarget {
    /// The node with this id.
    Node(u128),
    /// The nodes of this user.
    UserNodes(u128),
    /// The event names no node.
    Skip,
}

/// A `royal_pot_bonus_balances` increment.
#[derive(Debug, Clone, Copy, PartialEq, Eq, Structural)]
pub struct PotBonusRow {
    pub company_id: Option<u128>,
    pub user_id: u128,
    pub total: i64,
    pub profit_share: i64,
    pub top_cycler: i64,
}

/// The commission amount a commission event carries: its `amount` member,
/// written as an integer or as integer text; anything else counts as 0.
pub open spec fn commission_amount_of(p: Payload) -> i64 {
    match lookup(p.fields@, "amount"@) {
        Some(JsonValue::Int(n)) => n,
        Some(JsonValue::Str(t)) => match spec_parse_i64(t@) {
            Some(n) => n,
            None => 0,
        },
        _ => 0,
    }
}

/// Commission amount of the first commission event of the batch for
/// `node_user`, or 0.
pub open spec fn commission_amount(batch: Seq<DomainEvent>, node_user: u128) -> i64
    decreases batch.len(),
{
    if batch.len() == 0 {
        0
    } else if batch[0].event_type == EventType::BinaryCommissionEarned && spec_uuid_field(
        batch[0].payload,
        "node_user_id"@,
    ) == Some(node_user) {
        commission_amount_of(batch[0].payload)
    } else {
        commission_amount(batch.drop_first(), node_user)
    }
}

/// The entries of a pot bonus distribution payload.
pub open spec fn distributions(p: Payload) -> Seq<JsonObject> {
    match lookup(p.fields@, "distributions"@) {
        Some(JsonValue::Array(v)) => v@,
        _ => Seq::empty(),
    }
}

/// A non-negative amount of a distribution entry; missing counts as 0.
pub open spec fn entry_amount(o: JsonObject, key: Seq<char>) -> i64 {
    match spec_entry_i64_field(o, key) {
        Some(n) => if n < 0 {
            0
        } else {
            n
        },
        None => 0,
    }
}

/// Whether an entry's increment can be computed: it names no user (and is
/// skipped), or its two amounts add up within `i64`.
pub open spec fn entry_fits(o: JsonObject) -> bool {
    spec_entry_uuid_field(o, "user_id"@) is None || entry_amount(o, "profit_share"@)
        + entry_amount(o, "top_cycler"@) <= i64::MAX
}

/// The balance increments of the distribution entries, for users of
/// `company_id`: one per entry that names a user, in order.
pub open spec fn pot_rows(company_id: Option<u128>, entries: Seq<JsonObject>) -> Seq<PotBonusRow>
    decreases entries.len(),
{
    if entries.len() == 0 {
        Seq::empty()
    } else {
        let o = entries.last();
        match spec_entry_uuid_field(o, "user_id"@) {
            Some(u) => pot_rows(company_id, entries.drop_last()).push(
                PotBonusRow {
                    company_id,
                    user_id: u,
                    total: (entry_amount(o, "profit_share"@) + entry_amount(o, "top_cycler"@)) as i64,
                    profit_share: entry_amount(o, "profit_share"@),
                    top_cycler: entry_amount(o, "top_cycler"@),
                },
            ),
            None => pot_rows(company_id, entries.drop_last()),
        }
    }
}

fn amount_of(p: &Payload) -> (r: i64)
    ensures
        r == commission_amount_of(*p),
{
    match find_member(&p.fields, "amount") {
        Some(JsonValue::Int(n)) => *n,
        Some(JsonValue::Str(t)) => match parse_i64(t.as_str()) {
            Some(n) => n,
            None => 0,
        },
        _ => 0,
    }
}

fn commission_for(batch: &Vec<DomainEvent>, user: u128) -> (r: i64)
    ensures
        r == commission_amount(batch@, user),
{
    let n = batch.len();
    let mut i: usize = 0;
    assert(batch@.skip(0) == batch@);
    while i < n
        invariant
            n == batch@.len(),
            i <= n,
            commission_amount(batch@, user) == commission_amount(batch@.skip(i as int), user),
        decreases n - i,
    {
        assert(batch@.skip(i as int).drop_first() == batch@.skip(i + 1));
        let e = &batch[i];
        if e.event_type == EventType::BinaryCommissionEarned && uuid_field(&e.payload, "node_user_id")
            == Some(user) {
            return amount_of(&e.payload);
        }
        i = i + 1;
    }
    0
}

fn amount(o: &JsonObject, key: &str) -> (r: i64)
    ensures
        r == entry_amount(*o, key@),
{
    match entry_i64_field(o, key) {
        Some(n) => if n < 0 {
            0
        } else {
            n
        },
        None => 0,
    }
}

/// Projects emitted domain events into rows that module state cannot give.
/// Stateless.
#[derive(Debug, Clone, Copy)]
pub struct PgEventProjector {}

impl PgEventProjector {
    pub fn new() -> (r: PgEventProjector) {
        PgEventProjector {}
    }

    /// The projection an event type drives.
    pub fn projection(&self, t: EventType) -> (r: EventProjection)
        ensures
            r == match t {
                EventType::RoyalAccountDuplicated => EventProjection::Duplication,
                EventType::BinaryPairMatched => EventProjection::PairingResult,
                EventType::BinaryCycleClosed => EventProjection::CycleCount,
                EventType::RoyalPotBonusDistributed => EventProjection::PotBonusBalances,
                EventType::RoyalPotBonusSettled => EventProjection::PotBonusBalances,
                _ => EventProjection::Nothing,
            },
    {
        match t {
            EventType::RoyalAccountDuplicated => EventProjection::Duplication,
            EventType::BinaryPairMatched => EventProjection::PairingResult,
            EventType::BinaryCycleClosed => EventProjection::CycleCount,
            EventType::RoyalPotBonusDistributed => EventProjection::PotBonusBalances,
            EventType::RoyalPotBonusSettled => EventProjection::PotBonusBalances,
            _ => EventProjection::Nothing,
        }
    }

    /// A duplicated account needs its owner and the new account's id; an
    /// event missing either is skipped.
    pub fn duplication(&self, payload: &Payload) -> (r: Option<DuplicationPlan>)
        ensures
            match (spec_uuid_field(*payload, "owner_user_id"@), spec_uuid_field(
                *payload,
                "new_royal_account_id"@,
            )) {
                (Some(o), Some(n)) => r == Some(
                    DuplicationPlan {
                        owner_user_id: o,
                        new_royal_account_id: n,
                        package_id: spec_uuid_field(*payload, "package_id"@),
                    },
                ),
                _ => r is None,
            },
    {
        let owner = match uuid_field(payload, "owner_user_id") {
            Some(o) => o,
            None => {
                return None;
            },
        };
        let account = match uuid_field(payload, "new_royal_account_id") {
            Some(a) => a,
            None => {
                return None;
            },
        };
        Some(
            DuplicationPlan {
                owner_user_id: owner,
                new_royal_account_id: account,
                package_id: uuid_field(payload, "package_id"),
            },
        )
    }

    /// The rows a duplicated Royal account materialises: a zero-amount paid
    /// purchase (the enrollment needs one), a new active enrollment of the
    /// owner in the package, and the new flushline account on that
    /// enrollment at the starting tier `Ten` with no points, no cycles and
    /// not graduated.
    pub fn duplication_rows(
        &self,
        plan: &DuplicationPlan,
        purchase_id: u128,
        enrollment_id: u128,
        now: i64,
    ) -> (r: DuplicationRows)
        ensures
            r.purchase_id == purchase_id,
            r.purchase_status == PurchaseStatus::Paid,
            r.enrollment_id == enrollment_id,
            r.enrollment_status == EnrollmentStatus::Active,
            r.user_id == plan.owner_user_id,
            r.package_id == plan.package_id,
            r.account == (FlushlineRow {
                id: plan.new_royal_account_id,
                enrollment_id,
                owner_user_id: plan.owner_user_id,
                current_tier: FlushTier::Ten,
                current_points: 0,
                cycle_count: 0,
                graduated: false,
                graduated_at: None,
                created_at: now,
            }),
    {
        DuplicationRows {
            purchase_id,
            purchase_status: PurchaseStatus::Paid,
            enrollment_id,
            enrollment_status: EnrollmentStatus::Active,
            user_id: plan.owner_user_id,
            package_id: plan.package_id,
            account: FlushlineRow {
                id: plan.new_royal_account_id,
                enrollment_id,
                owner_user_id: plan.owner_user_id,
                current_tier: FlushTier::Ten,
                current_points: 0,
                cycle_count: 0,
                graduated: false,
                graduated_at: None,
                created_at: now,
            },
        }
    }

    /// The balance increments an emitted event drives: the entries of a pot
    /// bonus distribution or settlement, credited to the event's company;
    /// none for any other event; nothing at all when an entry's amounts
    /// would overflow their sum.
    pub fn pot_bonus_increments(&self, event: &DomainEvent) -> (r: Option<Vec<PotBonusRow>>)
        ensures
            is_balance_event(event.event_type) && all_fit(event.payload) ==> (r matches Some(v)
                && v@ == pot_rows(event.company_id, distributions(event.payload))),
            is_balance_event(event.event_type) && !all_fit(event.payload) ==> r is None,
            !is_balance_event(event.event_type) ==> (r matches Some(v) && v@.len() == 0),
    {
        match self.projection(event.event_type) {
            EventProjection::PotBonusBalances => self.pot_bonus_rows_checked(
                event.company_id,
                &event.payload,
            ),
            _ => Some(Vec::new()),
        }
    }

    /// The pairing result of a matched pair: the event must name the node's
    /// user, the node and the period; missing volumes count as 0; the
    /// commission amount comes from the batch's first commission event for
    /// the same user, or is 0.
    pub fn pairing_result(&self, event: &DomainEvent, batch: &Vec<DomainEvent>) -> (r: Option<
        PairingRow,
    >)
        ensures
            match (
                spec_uuid_field(event.payload, "node_user_id"@),
                spec_uuid_field(event.payload, "node_id"@),
                spec_uuid_field(event.payload, "period_id"@),
            ) {
                (Some(u), Some(n), Some(p)) => r == Some(
                    PairingRow {
                        period_id: p,
                        user_id: u,
                        node_id: n,
                        left_volume: match spec_i64_field(event.payload, "left"@) {
                            Some(x) => x,
                            None => 0,
                        },
                        right_volume: match spec_i64_field(event.payload, "right"@) {
                            Some(x) => x,
                            None => 0,
                        },
                        matched_volume: match spec_i64_field(event.payload, "matched"@) {
                            Some(x) => x,
                            None => 0,
                        },
                        commission_amount: commission_amount(batch@, u),
                    },
                ),
                _ => r is None,
            },
    {
        let p = &event.payload;
        let user = match uuid_field(p, "node_user_id") {
            Some(u) => u,
            None => {
                return None;
            },
        };
        let node = match uuid_field(p, "node_id") {
            Some(n) => n,
            None => {
                return None;
            },
        };
        let period = match uuid_field(p, "period_id") {
            Some(x) => x,
            None => {
                return None;
            },
        };
        let left = match i64_field(p, "left") {
            Some(x) => x,
            None => 0,
        };
        let right = match i64_field(p, "right") {
            Some(x) => x,
            None => 0,
        };
        let matched = match i64_field(p, "matched") {
            Some(x) => x,
            None => 0,
        };
        let commission_amount = commission_for(batch, user);
        Some(
            PairingRow {
                period_id: period,
                user_id: user,
                node_id: node,
                left_volume: left,
                right_volume: right,
                matched_volume: matched,
                commission_amount,
            },
        )
    }

    /// The node a closed cycle advances: by node id when the event names
    /// one, else the user's nodes, else none.
    pub fn cycle_count_target(&self, payload: &Payload) -> (r: CycleCountTarget)
        ensures
            r == match spec_uuid_field(*payload, "node_id"@) {
                Some(n) => CycleCountTarget::Node(n),
                None => match spec_uuid_field(*payload, "node_user_id"@) {
                    Some(u) => CycleCountTarget::UserNodes(u),
                    None => CycleCountTarget::Skip,
                },
            },
    {
        match uuid_field(payload, "node_id") {
            Some(n) => CycleCountTarget::Node(n),
            None => match uuid_field(payload, "node_user_id") {
                Some(u) => CycleCountTarget::UserNodes(u),
                None => CycleCountTarget::Skip,
            },
        }
    }

    /// Whether every distribution entry that names a user has two amounts
    /// that add up within `i64`.
    pub fn pot_bonus_fits(&self, payload: &Payload) -> (r: bool)
        ensures
            r == (forall|i: int|
                0 <= i < distributions(*payload).len() ==> entry_fits(
                    #[trigger] distributions(*payload)[i],
                )),
    {
        let entries = match find_member(&payload.fields, "distributions") {
            Some(JsonValue::Array(v)) => v,
            _ => {
                return true;
            },
        };
        let n = entries.len();
        for i in 0..n
            invariant
                n == entries@.len(),
                entries@ == distributions(*payload),
                forall|j: int| 0 <= j < i ==> entry_fits(#[trigger] entries@[j]),
        {
            if entry_uuid_field(&entries[i], "user_id").is_some() {
                let ps = amount(&entries[i], "profit_share");
                let tc = amount(&entries[i], "top_cycler");
                if ps > i64::MAX - tc {
                    return false;
                }
            }
        }
        true
    }

    /// The balance increments of a pot distribution of `company_id`: one per entry
    /// that names a user, in order; negative or missing amounts count as 0.
    pub fn pot_bonus_rows(&self, company_id: Option<u128>, payload: &Payload) -> (r: Vec<PotBonusRow>)
        requires
            forall|i: int|
                0 <= i < distributions(*payload).len() ==> entry_fits(
                    #[trigger] distributions(*payload)[i],
                ),
        ensures
            r@ == pot_rows(company_id, distributions(*payload)),
            forall|i: int|
                0 <= i < r@.len() ==> (#[trigger] r@[i]).profit_share >= 0 && r@[i].top_cycler
                    >= 0 && r@[i].total == r@[i].profit_share + r@[i].top_cycler,
    {
        let mut out: Vec<PotBonusRow> = Vec::new();
        let entries = match find_member(&payload.fields, "distributions") {
            Some(JsonValue::Array(v)) => v,
            _ => {
                assert(pot_rows(company_id, Seq::<JsonObject>::empty()) == Seq::<PotBonusRow>::empty());
                return out;
            },
        };
        let n = entries.len();
        assert(entries@ == distributions(*payload));
        assert forall|j: int| 0 <= j < n implies entry_fits(#[trigger] entries@[j]) by {
            assert(entries@[j] == distributions(*payload)[j]);
        }
        for i in 0..n
            invariant
                n == entries@.len(),
                entries@ == distributions(*payload),
                forall|j: int| 0 <= j < n ==> entry_fits(#[trigger] entries@[j]),
                out@ == pot_rows(company_id, entries@.take(i as int)),
                forall|j: int|
                    0 <= j < out@.len() ==> (#[trigger] out@[j]).profit_share >= 0
                        && out@[j].top_cycler >= 0 && out@[j].total == out@[j].profit_share
                        + out@[j].top_cycler,
        {
            proof {
                assert(entries@.take(i + 1).drop_last() == entries@.take(i as int));
                assert(entries@.take(i + 1).last() == entries@[i as int]);
            }
            let o = &entries[i];
            match entry_uuid_field(o, "user_id") {
                Some(u) => {
                    let ps = amount(o, "profit_share");
                    let tc = amount(o, "top_cycler");
                    assert(entry_fits(entries@[i as int]));
                    out.push(
                        PotBonusRow { company_id, user_id: u, total: ps + tc, profit_share: ps, top_cycler: tc },
                    );
                },
                None => {},
            }
        }
        proof {
            assert(entries@.take(n as int) == entries@);
        }
        out
    }

    /// The balance increments of a pot distribution, or nothing when an entry's
    /// amounts would overflow their sum.
    pub fn pot_bonus_rows_checked(&self, company_id: Option<u128>, payload: &Payload) -> (r: Option<
        Vec<PotBonusRow>,
    >)
        ensures
            (forall|i: int|
                0 <= i < distributions(*payload).len() ==> entry_fits(
                    #[trigger] distributions(*payload)[i],
                )) ==> (r matches Some(v) && v@ == pot_rows(company_id, distributions(*payload))),
            !(forall|i: int|
                0 <= i < distributions(*payload).len() ==> entry_fits(
                    #[trigger] distributions(*payload)[i],
                )) ==> r is None,
    {
        if self.pot_bonus_fits(payload) {
            Some(self.pot_bonus_rows(company_id, payload))
        } else {
            None
        }
    }
}

// ------------------------------------------------------------------------
// What the projections do to their tables
// ------------------------------------------------------------------------

/// A binary node's row as far as closed cycles count it.
#[derive(Debug, Clone, Copy, PartialEq, Eq, Structural)]
pub struct NodeCycles {
    pub id: u128,
    pub user_id: u128,
    pub cycle_count: i32,
}

/// Whether a closed cycle's target names a node.
pub open spec fn targets(t: CycleCountTarget, node: NodeCycles) -> bool {
    match t {
        CycleCountTarget::Node(id) => node.id == id,
        CycleCountTarget::UserNodes(u) => node.user_id == u,
        CycleCountTarget::Skip => false,
    }
}

/// A node's row after a closed cycle: one more cycle on a node the cycle
/// names, unchanged otherwise; `None` when the count would leave its
/// `INTEGER` column.
pub open spec fn spec_advance(node: NodeCycles, t: CycleCountTarget) -> Option<NodeCycles> {
    if !targets(t, node) {
        Some(node)
    } else if node.cycle_count < i32::MAX {
        Some(NodeCycles { cycle_count: (node.cycle_count + 1) as i32, ..node })
    } else {
        None
    }
}

/// A node's row after a closed cycle.
pub fn advance_cycles(node: NodeCycles, t: CycleCountTarget) -> (r: Option<NodeCycles>)
    ensures
        r == spec_advance(node, t),
{
    let hit = match t {
        CycleCountTarget::Node(id) => node.id == id,
        CycleCountTarget::UserNodes(u) => node.user_id == u,
        CycleCountTarget::Skip => false,
    };
    if !hit {
        Some(node)
    } else if node.cycle_count < i32::MAX {
        Some(NodeCycles { cycle_count: node.cycle_count + 1, ..node })
    } else {
        None
    }
}

/// Each closed cycle that names a node counts once on it: two closes of the
/// same node advance its count by two; a close that names another node
/// leaves it as it is.
pub proof fn law_cycle_closes_accumulate(node: NodeCycles, t: CycleCountTarget)
    requires
        node.cycle_count + 2 <= i32::MAX,
    ensures
        targets(t, node) ==> (spec_advance(node, t) matches Some(once) && spec_advance(once, t)
            matches Some(twice) && twice.cycle_count == node.cycle_count + 2 && twice.id == node.id
            && twice.user_id == node.user_id),
        !targets(t, node) ==> spec_advance(node, t) == Some(node),
{
}

/// A user's cumulative `royal_pot_bonus_balances` row.
#[derive(Debug, Clone, Copy, PartialEq, Eq, Structural)]
pub struct PotBalance {
    pub company_id: Option<u128>,
    pub user_id: u128,
    pub total_earned: i64,
    pub profit_share_earned: i64,
    pub top_cycler_earned: i64,
    pub distributions_count: i32,
}

/// The balance a user holds after one more distribution: the first opens it
/// with the increment and a count of 1, later ones add to every sum.
pub open spec fn spec_credit(prev: Option<PotBalance>, row: PotBonusRow) -> (int, int, int, int) {
    match prev {
        None => (row.total as int, row.profit_share as int, row.top_cycler as int, 1),
        Some(b) => (
            b.total_earned + row.total,
            b.profit_share_earned + row.profit_share,
            b.top_cycler_earned + row.top_cycler,
            b.distributions_count + 1,
        ),
    }
}

/// The balance after crediting one increment to the user's row (`prev`,
/// `None` when the user has none yet); `None` when a sum would leave its
/// column.
pub fn credit_balance(prev: Option<PotBalance>, row: &PotBonusRow) -> (r: Option<PotBalance>)
    requires
        prev matches Some(b) ==> b.company_id == row.company_id && b.user_id == row.user_id,
    ensures
        ({
            let c = spec_credit(prev, *row);
            let fits = c.0 <= i64::MAX && c.0 >= i64::MIN && c.1 <= i64::MAX && c.1 >= i64::MIN
                && c.2 <= i64::MAX && c.2 >= i64::MIN && c.3 <= i32::MAX;
            &&& fits ==> r == Some(
                PotBalance {
                    company_id: row.company_id,
                    user_id: row.user_id,
                    total_earned: c.0 as i64,
                    profit_share_earned: c.1 as i64,
                    top_cycler_earned: c.2 as i64,
                    distributions_count: c.3 as i32,
                },
            )
            &&& !fits ==> r is None
        }),
{
    match prev {
        None => Some(
            PotBalance {
                company_id: row.company_id,
                user_id: row.user_id,
                total_earned: row.total,
                profit_share_earned: row.profit_share,
                top_cycler_earned: row.top_cycler,
                distributions_count: 1,
            },
        ),
        Some(b) => {
            let total = match b.total_earned.checked_add(row.total) {
                Some(v) => v,
                None => {
                    return None;
                },
            };
            let ps = match b.profit_share_earned.checked_add(row.profit_share) {
                Some(v) => v,
                None => {
                    return None;
                },
            };
            let tc = match b.top_cycler_earned.checked_add(row.top_cycler) {
                Some(v) => v,
                None => {
                    return None;
                },
            };
            if b.distributions_count == i32::MAX {
                return None;
            }
            Some(
                PotBalance {
                    company_id: row.company_id,
                    user_id: row.user_id,
                    total_earned: total,
                    profit_share_earned: ps,
                    top_cycler_earned: tc,
                    distributions_count: b.distributions_count + 1,
                },
            )
        },
    }
}

/// Balances only accumulate: crediting a distribution's increment (whose
/// amounts are never negative) lowers no sum and counts one more
/// distribution; two credits of the same increment to a user with no
/// balance sum it twice and count two distributions.
pub proof fn law_pot_balances_accumulate(b: PotBalance, row: PotBonusRow)
    requires
        row.profit_share >= 0,
        row.top_cycler >= 0,
        row.total == row.profit_share + row.top_cycler,
        b.company_id == row.company_id,
        b.user_id == row.user_id,
    ensures
        spec_credit(Some(b), row).0 >= b.total_earned,
        spec_credit(Some(b), row).1 >= b.profit_share_earned,
        spec_credit(Some(b), row).2 >= b.top_cycler_earned,
        spec_credit(Some(b), row).3 == b.distributions_count + 1,
        ({
            let first = PotBalance {
                company_id: row.company_id,
                user_id: row.user_id,
                total_earned: row.total,
                profit_share_earned: row.profit_share,
                top_cycler_earned: row.top_cycler,
                distributions_count: 1,
            };
            &&& spec_credit(None, row) == (
                first.total_earned as int,
                first.profit_share_earned as int,
                first.top_cycler_earned as int,
                1int,
            )
            &&& spec_credit(Some(first), row) == (
                2 * row.total,
                2 * row.profit_share,
                2 * row.top_cycler,
                2int,
            )
        }),
{
}

// ------------------------------------------------------------------------
// Upserts by primary key
// ------------------------------------------------------------------------

/// A projected row with its primary key.
pub trait Keyed {
    /// The row's primary key.
    spec fn spec_key(&self) -> u128;

    /// The row's primary key.
    fn key(&self) -> (k: u128)
        ensures
            k == self.spec_key(),
    ;
}

impl Keyed for FlushlineRow {
    open spec fn spec_key(&self) -> u128 {
        self.id
    }

    fn key(&self) -> (k: u128) {
        self.id
    }
}

impl Keyed for BinaryNodeRow {
    open spec fn spec_key(&self) -> u128 {
        self.id
    }

    fn key(&self) -> (k: u128) {
        self.id
    }
}

impl Keyed for CarryoverRow {
    open spec fn spec_key(&self) -> u128 {
        self.node_id
    }

    fn key(&self) -> (k: u128) {
        self.node_id
    }
}

/// No two rows of a table share a primary key.
pub open spec fn unique_keys<R: Keyed>(t: Seq<R>) -> bool {
    forall|i: int, j: int|
        0 <= i < t.len() && 0 <= j < t.len() && i != j ==> #[trigger] t[i].spec_key()
            != #[trigger] t[j].spec_key()
}

/// Whether a table holds a row with primary key `k`.
pub open spec fn has_key<R: Keyed>(t: Seq<R>, k: u128) -> bool {
    exists|i: int| 0 <= i < t.len() && #[trigger] t[i].spec_key() == k
}

/// The table after an upsert: the row replaces the one with its key, or is
/// added when there is none.
pub open spec fn upserted<R: Keyed>(t: Seq<R>, row: R) -> Seq<R> {
    if has_key(t, row.spec_key()) {
        t.update(choose|i: int| 0 <= i < t.len() && #[trigger] t[i].spec_key() == row.spec_key(), row)
    } else {
        t.push(row)
    }
}

/// Upsert a row into a table keyed by primary key.
pub fn upsert<R: Keyed>(table: &mut Vec<R>, row: R)
    requires
        unique_keys(old(table)@),
    ensures
        final(table)@ == upserted(old(table)@, row),
{
    let n = table.len();
    let mut i: usize = 0;
    let k = row.key();
    while i < n
        invariant
            n == table@.len(),
            i <= n,
            table@ == old(table)@,
            unique_keys(old(table)@),
            k == row.spec_key(),
            forall|j: int| 0 <= j < i ==> #[trigger] table@[j].spec_key() != k,
        decreases n - i,
    {
        if table[i].key() == k {
            proof {
                let t = old(table)@;
                assert(has_key(t, k));
                let c = choose|j: int| 0 <= j < t.len() && #[trigger] t[j].spec_key() == k;
                if c != i as int {
                    assert(t[c].spec_key() != t[i as int].spec_key());
                }
            }
            table.set(i, row);
            return;
        }
        i = i + 1;
    }
    proof {
        if has_key(old(table)@, k) {
            let c = choose|j: int| 0 <= j < old(table)@.len() && #[trigger] old(table)@[j].spec_key() == k;
            assert(table@[c].spec_key() != k);
        }
    }
    table.push(row);
}

/// Projecting a row keeps one row per key: afterwards the table's keys are
/// still unique, the row's key holds exactly the new values, every other
/// row is kept, and projecting the same row again changes nothing.
pub proof fn law_upsert_keeps_one_row_per_key<R: Keyed>(t: Seq<R>, row: R)
    requires
        unique_keys(t),
    ensures
        unique_keys(upserted(t, row)),
        upserted(t, row).contains(row),
        forall|i: int|
            0 <= i < upserted(t, row).len() && (#[trigger] upserted(t, row)[i]).spec_key()
                == row.spec_key() ==> upserted(t, row)[i] == row,
        forall|x: R| x.spec_key() != row.spec_key() ==> (#[trigger] t.contains(x) <==> upserted(
            t,
            row,
        ).contains(x)),
        upserted(upserted(t, row), row) == upserted(t, row),
{
    let u = upserted(t, row);
    let k = row.spec_key();
    if has_key(t, k) {
        let c = choose|j: int| 0 <= j < t.len() && #[trigger] t[j].spec_key() == k;
        assert(u[c] == row);
        assert forall|i: int, j: int|
            0 <= i < u.len() && 0 <= j < u.len() && i != j implies #[trigger] u[i].spec_key()
                != #[trigger] u[j].spec_key() by {
            if i == c {
                assert(t[j].spec_key() != t[c].spec_key());
            } else if j == c {
                assert(t[i].spec_key() != t[c].spec_key());
            } else {
                assert(t[i].spec_key() != t[j].spec_key());
            }
        }
        assert forall|x: R| x.spec_key() != k implies (#[trigger] t.contains(x) <==> u.contains(x)) by {
            if t.contains(x) {
                let i = choose|i: int| 0 <= i < t.len() && t[i] == x;
                assert(i != c);
                assert(u[i] == x);
            }
            if u.contains(x) {
                let i = choose|i: int| 0 <= i < u.len() && u[i] == x;
                assert(i != c);
                assert(t[i] == x);
            }
        }
        assert(has_key(u, k));
        let c2 = choose|j: int| 0 <= j < u.len() && #[trigger] u[j].spec_key() == k;
        if c2 != c {
            assert(u[c2].spec_key() != u[c].spec_key());
        }
        assert(u.update(c2, row) =~= u);
    } else {
        assert(u[t.len() as int] == row);
        assert forall|i: int, j: int|
            0 <= i < u.len() && 0 <= j < u.len() && i != j implies #[trigger] u[i].spec_key()
                != #[trigger] u[j].spec_key() by {
            if i == t.len() {
                assert(!(t[j].spec_key() == k));
            } else if j == t.len() {
                assert(!(t[i].spec_key() == k));
            } else {
                assert(t[i].spec_key() != t[j].spec_key());
            }
        }
        assert forall|x: R| x.spec_key() != k implies (#[trigger] t.contains(x) <==> u.contains(x)) by {
            if t.contains(x) {
                let i = choose|i: int| 0 <= i < t.len() && t[i] == x;
                assert(u[i] == x);
            }
            if u.contains(x) {
                let i = choose|i: int| 0 <= i < u.len() && u[i] == x;
                assert(i != t.len());
                assert(t[i] == x);
            }
        }
        assert(has_key(u, k));
        let c2 = choose|j: int| 0 <= j < u.len() && #[trigger] u[j].spec_key() == k;
        if c2 != t.len() {
            assert(u[c2].spec_key() != u[t.len() as int].spec_key());
        }
        assert(u.update(c2, row) =~= u);
    }
    assert forall|i: int|
        0 <= i < u.len() && (#[trigger] u[i]).spec_key() == k implies u[i] == row by {
        if has_key(t, k) {
            let c = choose|j: int| 0 <= j < t.len() && #[trigger] t[j].spec_key() == k;
            if i != c {
                assert(t[i].spec_key() != t[c].spec_key());
            }
        } else {
            if i < t.len() {
                assert(t[i].spec_key() == k);
            }
        }
    }
}

} // verus!
