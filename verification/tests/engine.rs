use payplan::text::parse_i64;
use payplan::cascade::{CascadeRun, CascadeStep, MAX_ITERATIONS};
use payplan::codes::{BinaryLeg, PackageItemRole};
use payplan::requests::PackageItem;
use payplan::errors::AppError;
use payplan::events::{
    aggregate_id_for, aggregate_type_for, i64_field, str_field, uuid_field, uuid_member,
    DomainEvent, EventType, JsonObject, JsonScalar, JsonValue, Payload,
};
use payplan::jobs::{
    cycle_close_payload, cycle_close_payloads, loaded_stack, pot_distribution_payload, renewal_leg, renewal_payload, renewal_period, renewal_volume,
    stack_trigger, state_scopes, StackTrigger,
};
use payplan::codes::BinaryVolumeStatus;
use payplan::projections::{
    advance_cycles, credit_balance, upsert, CarryoverRow, DuplicationPlan, BinaryNode, BinaryVolumeEntry, Carry, NodeCycles, PotBalance, CycleCountTarget, EventProjection, FlushTier,
    FlushlineAccount, FlushlineState, PgEventProjector, PgProjections, PotBonusRow,
    ProjectionTarget,
};

const A: u128 = 0x0190_0000_0000_7000_8000_0000_0000_0001;
const B: u128 = 0x0190_0000_0000_7000_8000_0000_0000_0002;
const C: u128 = 0x0190_0000_0000_7000_8000_0000_0000_0003;

fn uuid_text(v: u128) -> String {
    uuid::Uuid::from_u128(v).to_string()
}

fn s(k: &str, v: &str) -> (String, JsonValue) {
    (k.to_string(), JsonValue::Str(v.to_string()))
}

fn n(k: &str, v: i64) -> (String, JsonValue) {
    (k.to_string(), JsonValue::Int(v))
}

fn event(t: EventType, fields: Vec<(String, JsonValue)>) -> DomainEvent {
    DomainEvent { id: 1, company_id: None, event_type: t, payload: Payload { fields }, created_at: 0 }
}

#[test]
fn uuid_members_are_hyphenated_lower_case_and_read_back() {
    let (k, v) = uuid_member("user_id", A);
    assert_eq!(k, "user_id");
    match &v {
        JsonValue::Str(t) => assert_eq!(t, "01900000-0000-7000-8000-000000000001"),
        _ => panic!("expected a string member"),
    }
    let p = Payload { fields: vec![(k, v), s("other", "not-a-uuid")] };
    assert_eq!(uuid_field(&p, "user_id"), Some(A));
    assert_eq!(uuid_field(&p, "other"), None);
    let p = cycle_close_payload(1, 2, 3, 4, 5, None);
    assert_eq!(str_field(&p, "period_id"), Some("00000000-0000-0000-0000-000000000001"));
}

#[test]
fn payload_fields_take_the_first_member_of_the_right_kind() {
    let p = Payload {
        fields: vec![
            s("user_id", &uuid_text(A)),
            s("user_id", &uuid_text(B)),
            n("points", 40),
            s("leg", "left"),
            s("bad", "xyz"),
        ],
    };
    assert_eq!(uuid_field(&p, "user_id"), Some(A));
    assert_eq!(uuid_field(&p, "bad"), None);
    assert_eq!(uuid_field(&p, "points"), None);
    assert_eq!(i64_field(&p, "points"), Some(40));
    assert_eq!(i64_field(&p, "leg"), None);
    assert_eq!(str_field(&p, "leg"), Some("left"));
    assert_eq!(str_field(&p, "missing"), None);
}

#[test]
fn events_are_filed_under_their_aggregate() {
    assert_eq!(aggregate_type_for(EventType::PackagePurchased), "purchase");
    assert_eq!(aggregate_type_for(EventType::SubscriptionRenewed), "subscription");
    assert_eq!(aggregate_type_for(EventType::RewardLedgerEntryCreated), "reward_ledger");
    assert_eq!(aggregate_type_for(EventType::BinaryCycleClosed), "module");
    let e = event(
        EventType::PackagePurchased,
        vec![s("package_id", &uuid_text(B)), s("user_id", &uuid_text(A))],
    );
    assert_eq!(aggregate_id_for(&e), Some(A));
    let e = event(
        EventType::PackagePurchased,
        vec![s("aggregate_id", &uuid_text(C)), s("user_id", &uuid_text(A))],
    );
    assert_eq!(aggregate_id_for(&e), Some(C));
    let e = event(EventType::BinaryPairMatched, vec![s("node_id", &uuid_text(B))]);
    assert_eq!(aggregate_id_for(&e), Some(B));
    let e = event(EventType::BinaryPairMatched, vec![s("user_id", "nope")]);
    assert_eq!(aggregate_id_for(&e), None);
}

#[test]
fn renewal_alternates_legs_and_follows_the_interval() {
    assert_eq!(renewal_leg(Some("left")), BinaryLeg::Right);
    assert_eq!(renewal_leg(Some("right")), BinaryLeg::Left);
    assert_eq!(renewal_leg(None), BinaryLeg::Left);
    assert_eq!(renewal_period(Some("weekly")), (0, 7));
    assert_eq!(renewal_period(Some("quarterly")), (3, 0));
    assert_eq!(renewal_period(Some("annual")), (12, 0));
    assert_eq!(renewal_period(Some("yearly")), (12, 0));
    assert_eq!(renewal_period(Some("monthly")), (1, 0));
    assert_eq!(renewal_period(None), (1, 0));
}

fn item(quantity: u32, commissionable: bool, volume: u32) -> PackageItem {
    PackageItem {
        catalog_item_id: 1,
        billing_plan_id: 2,
        quantity,
        role: PackageItemRole::Included,
        is_commissionable: commissionable,
        commissionable_volume: volume,
        points_value: 5,
    }
}

#[test]
fn renewal_volume_honors_commissionable_items_times_quantity() {
    assert_eq!(renewal_volume(&vec![item(1, true, 100)]), Some(100));
    assert_eq!(renewal_volume(&vec![item(2, true, 100), item(9, false, 50), item(3, true, 10)]), Some(230));
    assert_eq!(renewal_volume(&vec![]), Some(0));
    assert_eq!(renewal_volume(&vec![item(u32::MAX, true, u32::MAX), item(u32::MAX, true, u32::MAX)]), None);
}

#[test]
fn each_due_subscription_raises_one_renewal() {
    let p = renewal_payload(7, 8, 9, Some(C), 100, BinaryLeg::Left, Some(B));
    assert_eq!(i64_field(&p, "volume"), Some(100));
    assert_eq!(i64_field(&p, "points"), Some(100));
    assert_eq!(str_field(&p, "leg"), Some("left"));
    assert_eq!(uuid_field(&p, "node_id"), Some(B));
    assert_eq!(uuid_field(&p, "user_id"), Some(8));
    assert_eq!(uuid_field(&p, "subscription_id"), Some(7));
    assert_eq!(
        stack_trigger(&p).unwrap(),
        Some(StackTrigger { stack_id: C, package_id: 9, enrollment_id: None })
    );
    let p = renewal_payload(7, 8, 9, None, 0, BinaryLeg::Left, None);
    assert_eq!(stack_trigger(&p).unwrap(), None);
    assert_eq!(uuid_field(&p, "node_id"), None);
}

#[test]
fn stack_triggers_need_a_stack_and_a_package() {
    let p = Payload { fields: vec![s("package_id", &uuid_text(B))] };
    assert_eq!(stack_trigger(&p).unwrap(), None);
    let p = Payload { fields: vec![s("stack_id", &uuid_text(A))] };
    assert_eq!(stack_trigger(&p).unwrap(), None);
    let p = Payload { fields: vec![s("stack_id", "zzz"), s("package_id", &uuid_text(B))] };
    assert!(matches!(stack_trigger(&p), Err(AppError::Validation(_))));
    let p = Payload { fields: vec![s("stack_id", &uuid_text(A)), s("package_id", "zzz")] };
    assert!(matches!(stack_trigger(&p), Err(AppError::Validation(_))));
    let p = cycle_close_payload(1, 2, 3, B, A, None);
    assert_eq!(
        stack_trigger(&p).unwrap(),
        Some(StackTrigger { stack_id: A, package_id: B, enrollment_id: Some(2) })
    );
    let p = pot_distribution_payload(A);
    assert_eq!(
        stack_trigger(&p).unwrap(),
        Some(StackTrigger { stack_id: A, package_id: 0, enrollment_id: None })
    );
    assert_eq!(uuid_field(&p, "package_id"), Some(0));
}

#[test]
fn module_state_scopes() {
    assert_eq!(state_scopes(Some(A)), vec![A, 0]);
    assert_eq!(state_scopes(None), vec![0]);
}

#[test]
fn emitted_events_drive_their_projections() {
    let pr = PgEventProjector::new();
    assert_eq!(pr.projection(EventType::RoyalAccountDuplicated), EventProjection::Duplication);
    assert_eq!(pr.projection(EventType::BinaryPairMatched), EventProjection::PairingResult);
    assert_eq!(pr.projection(EventType::BinaryCycleClosed), EventProjection::CycleCount);
    assert_eq!(pr.projection(EventType::RoyalPotBonusDistributed), EventProjection::PotBonusBalances);
    assert_eq!(pr.projection(EventType::RoyalPotBonusSettled), EventProjection::PotBonusBalances);
    assert_eq!(pr.projection(EventType::UserCreated), EventProjection::Nothing);

    let p = Payload {
        fields: vec![s("owner_user_id", &uuid_text(A)), s("new_royal_account_id", &uuid_text(B))],
    };
    let plan = pr.duplication(&p).unwrap();
    assert_eq!((plan.owner_user_id, plan.new_royal_account_id, plan.package_id), (A, B, None));
    let p = Payload { fields: vec![s("owner_user_id", &uuid_text(A))] };
    assert!(pr.duplication(&p).is_none());

    let p = Payload { fields: vec![s("node_user_id", &uuid_text(A))] };
    assert_eq!(pr.cycle_count_target(&p), CycleCountTarget::UserNodes(A));
    let p = Payload { fields: vec![s("node_id", &uuid_text(B)), s("node_user_id", &uuid_text(A))] };
    assert_eq!(pr.cycle_count_target(&p), CycleCountTarget::Node(B));
    assert_eq!(pr.cycle_count_target(&Payload { fields: vec![] }), CycleCountTarget::Skip);
}

#[test]
fn pairing_results_take_the_amount_of_the_matching_commission() {
    let pr = PgEventProjector::new();
    let matched = event(
        EventType::BinaryPairMatched,
        vec![
            s("node_user_id", &uuid_text(A)),
            s("node_id", &uuid_text(B)),
            s("period_id", &uuid_text(C)),
            n("left", 300),
            n("matched", 200),
        ],
    );
    let other = event(
        EventType::BinaryCommissionEarned,
        vec![s("node_user_id", &uuid_text(B)), s("amount", "5")],
    );
    let mine = event(
        EventType::BinaryCommissionEarned,
        vec![s("node_user_id", &uuid_text(A)), s("amount", "10"), s("capped", "false")],
    );
    let later = event(
        EventType::BinaryCommissionEarned,
        vec![s("node_user_id", &uuid_text(A)), n("amount", 99)],
    );
    let batch = vec![matched.clone(), other, mine, later];
    let row = pr.pairing_result(&matched, &batch).unwrap();
    assert_eq!(
        (row.period_id, row.user_id, row.node_id, row.left_volume, row.right_volume),
        (C, A, B, 300, 0)
    );
    assert_eq!((row.matched_volume, row.commission_amount), (200, 10));
    let row = pr.pairing_result(&matched, &vec![matched.clone()]).unwrap();
    assert_eq!(row.commission_amount, 0);
    let incomplete = event(EventType::BinaryPairMatched, vec![s("node_id", &uuid_text(B))]);
    assert!(pr.pairing_result(&incomplete, &batch).is_none());
}

#[test]
fn pot_bonus_balances_clamp_negative_amounts() {
    let pr = PgEventProjector::new();
    let entries = vec![
        JsonObject {
            fields: vec![
                ("user_id".to_string(), JsonScalar::Str(uuid_text(A))),
                ("profit_share".to_string(), JsonScalar::Int(375)),
                ("top_cycler".to_string(), JsonScalar::Int(100)),
            ],
        },
        JsonObject { fields: vec![("profit_share".to_string(), JsonScalar::Int(5))] },
        JsonObject {
            fields: vec![
                ("user_id".to_string(), JsonScalar::Str(uuid_text(B))),
                ("profit_share".to_string(), JsonScalar::Int(375)),
                ("top_cycler".to_string(), JsonScalar::Int(-3)),
            ],
        },
    ];
    let p = Payload { fields: vec![("distributions".to_string(), JsonValue::Array(entries))] };
    assert!(pr.pot_bonus_fits(&p));
    let rows = pr.pot_bonus_rows(Some(C), &p);
    assert_eq!(
        rows,
        vec![
            PotBonusRow { company_id: Some(C), user_id: A, total: 475, profit_share: 375, top_cycler: 100 },
            PotBonusRow { company_id: Some(C), user_id: B, total: 375, profit_share: 375, top_cycler: 0 },
        ]
    );
    assert!(pr.pot_bonus_rows(None, &Payload { fields: vec![] }).is_empty());
    let huge = |user: Option<u128>| {
        let mut fields = vec![
            ("profit_share".to_string(), JsonScalar::Int(i64::MAX)),
            ("top_cycler".to_string(), JsonScalar::Int(1)),
        ];
        if let Some(u) = user {
            fields.push(("user_id".to_string(), JsonScalar::Str(uuid_text(u))));
        }
        JsonObject { fields }
    };
    let p = Payload { fields: vec![("distributions".to_string(), JsonValue::Array(vec![huge(Some(A))]))] };
    assert!(!pr.pot_bonus_fits(&p));
    assert!(pr.pot_bonus_rows_checked(None, &p).is_none());
    let p = Payload { fields: vec![("distributions".to_string(), JsonValue::Array(vec![huge(None)]))] };
    assert!(pr.pot_bonus_fits(&p));
    assert_eq!(pr.pot_bonus_rows_checked(None, &p), Some(vec![]));
}

#[test]
fn cascade_runs_every_emitted_event_in_order() {
    let mut run: CascadeRun<u32, u32, u32> = CascadeRun::new(1);
    let mut order = Vec::new();
    loop {
        match run.next_step() {
            CascadeStep::Run(_) => {
                let i = run.start_step();
                let e = run.emitted()[i];
                order.push(e);
                let more = if e < 3 { vec![e + 1] } else { vec![] };
                run = run.record(more, vec![e * 10], vec![]);
            }
            CascadeStep::Done => break,
            CascadeStep::Exceeded => panic!("unexpected cap"),
        }
    }
    assert_eq!(order, vec![1, 2, 3]);
    let (events, ledger, changes) = run.finish().unwrap();
    assert_eq!(events, vec![1, 2, 3]);
    assert_eq!(ledger, vec![10, 20, 30]);
    assert!(changes.is_empty());
}

#[test]
fn cascade_aborts_a_self_emitting_module_at_the_cap() {
    let mut run: CascadeRun<u32, u32, u32> = CascadeRun::new(0);
    let mut runs = 0usize;
    loop {
        match run.next_step() {
            CascadeStep::Run(_) => {
                let i = run.start_step();
                runs += 1;
                let e = run.emitted()[i];
                run = run.record(vec![e + 1], vec![], vec![]);
            }
            CascadeStep::Done => panic!("should not finish"),
            CascadeStep::Exceeded => break,
        }
    }
    assert_eq!(runs, MAX_ITERATIONS);
    match run.finish() {
        Err(AppError::Conflict(m)) => assert_eq!(m, "cascade exceeded 32 iterations; aborting"),
        _ => panic!("expected a conflict"),
    }
}

#[test]
fn module_state_projects_into_its_tables() {
    let pr = PgProjections::new();
    assert_eq!(pr.target("royal.flushline"), ProjectionTarget::FlushlineAccounts);
    assert_eq!(pr.target("binary.tree"), ProjectionTarget::BinaryNodes);
    assert_eq!(pr.target("binary.volume"), ProjectionTarget::BinaryVolumeLedger);
    assert_eq!(pr.target("binary.carryover"), ProjectionTarget::BinaryCarryover);
    assert_eq!(pr.target("royal.matrix"), ProjectionTarget::Unprojected);

    assert!(pr.flushline_row(&FlushlineState { account: None }).is_none());
    let account = FlushlineAccount {
        id: 1,
        enrollment_id: 2,
        owner_user_id: 3,
        current_tier: FlushTier::Queen,
        current_points: u64::MAX,
        graduated: false,
        graduated_at: None,
        created_at: 10,
    };
    let row = pr.flushline_row(&FlushlineState { account: Some(account) }).unwrap();
    assert_eq!((row.id, row.enrollment_id, row.owner_user_id), (1, 2, 3));
    assert_eq!((row.current_points, row.cycle_count), (i32::MAX, 0));
    assert_eq!(row.current_tier.as_str(), "Queen");

    let node = |id: u128, enrollment: Option<u128>| BinaryNode {
        id,
        enrollment_id: enrollment,
        user_id: id + 100,
        sponsor_user_id: None,
        parent_node_id: None,
        leg: Some(BinaryLeg::Left),
    };
    let rows = pr.node_rows(&vec![node(1, Some(11)), node(2, None), node(3, Some(13))]);
    let ids: Vec<(u128, u128, u128)> = rows.iter().map(|r| (r.id, r.enrollment_id, r.user_id)).collect();
    assert_eq!(ids, vec![(1, 11, 101), (3, 13, 103)]);

    let entry = |id: u128, node: Option<u128>| BinaryVolumeEntry {
        id,
        node_id: node,
        source_purchase_id: None,
        leg: BinaryLeg::Right,
        volume: 50,
        status: BinaryVolumeStatus::Open,
    };
    let rows = pr.volume_rows(&vec![entry(1, None), entry(2, Some(9))]);
    assert_eq!(rows.len(), 1);
    assert_eq!((rows[0].id, rows[0].node_id, rows[0].volume), (2, 9, 50));

    assert!(pr.carryover_row(&Carry { company_id: Some(C), node_id: None, left_volume: 1, right_volume: 2 }).is_none());
    let c = pr.carryover_row(&Carry { company_id: Some(C), node_id: Some(4), left_volume: 1, right_volume: 2 }).unwrap();
    assert_eq!(c.company_id, Some(C));
    assert_eq!((c.node_id, c.left_carryover, c.right_carryover), (4, 1, 2));
}

#[test]
fn cycle_close_raises_one_event_per_stack() {
    let out = cycle_close_payloads(1, 2, 3, 4, &vec![A, B], Some(C));
    assert_eq!(out.len(), 2);
    assert_eq!(
        stack_trigger(&out[1]).unwrap(),
        Some(StackTrigger { stack_id: B, package_id: 4, enrollment_id: Some(2) })
    );
    assert_eq!(uuid_field(&out[0], "node_id"), Some(C));
    assert!(cycle_close_payloads(1, 2, 3, 4, &vec![], None).is_empty());
}

#[test]
fn integer_text_reads_as_str_parse_does() {
    for t in ["10", "+7", "-42", "0", "9223372036854775807", "-9223372036854775808", "", "-", "1.5", "x1", "9223372036854775808", "99999999999999999999999"] {
        assert_eq!(parse_i64(t), t.parse::<i64>().ok(), "{t}");
    }
}

#[test]
fn cycle_closed_advances_the_named_node_each_time() {
    let node = NodeCycles { id: B, user_id: A, cycle_count: 0 };
    let once = advance_cycles(node, CycleCountTarget::Node(B)).unwrap();
    assert_eq!(once.cycle_count, 1);
    let twice = advance_cycles(once, CycleCountTarget::Node(B)).unwrap();
    assert_eq!(twice.cycle_count, 2);
    assert_eq!(advance_cycles(node, CycleCountTarget::Node(C)), Some(node));
    assert_eq!(advance_cycles(node, CycleCountTarget::UserNodes(A)).unwrap().cycle_count, 1);
    assert_eq!(advance_cycles(node, CycleCountTarget::Skip), Some(node));
    let full = NodeCycles { cycle_count: i32::MAX, ..node };
    assert_eq!(advance_cycles(full, CycleCountTarget::Node(B)), None);
}

#[test]
fn pot_bonus_balances_accumulate_per_user() {
    let row = PotBonusRow { company_id: Some(C), user_id: A, total: 200, profit_share: 200, top_cycler: 0 };
    let first = credit_balance(None, &row).unwrap();
    let second = credit_balance(Some(first), &row).unwrap();
    assert_eq!(
        second,
        PotBalance {
            company_id: Some(C),
            user_id: A,
            total_earned: 400,
            profit_share_earned: 400,
            top_cycler_earned: 0,
            distributions_count: 2,
        }
    );
    let a = PotBonusRow { company_id: Some(C), user_id: A, total: 475, profit_share: 375, top_cycler: 100 };
    let b = credit_balance(None, &a).unwrap();
    assert_eq!((b.total_earned, b.profit_share_earned, b.top_cycler_earned, b.distributions_count), (475, 375, 100, 1));
    let near = PotBalance { total_earned: i64::MAX, ..first };
    assert_eq!(credit_balance(Some(near), &row), None);
}

#[test]
fn settled_and_distributed_pot_bonuses_are_both_credited() {
    let pr = PgEventProjector::new();
    let dist = |t: EventType| DomainEvent {
        id: 1,
        company_id: Some(C),
        event_type: t,
        payload: Payload {
            fields: vec![(
                "distributions".to_string(),
                JsonValue::Array(vec![JsonObject {
                    fields: vec![
                        ("user_id".to_string(), JsonScalar::Str(uuid_text(A))),
                        ("profit_share".to_string(), JsonScalar::Int(200)),
                    ],
                }]),
            )],
        },
        created_at: 0,
    };
    let expected = vec![PotBonusRow { company_id: Some(C), user_id: A, total: 200, profit_share: 200, top_cycler: 0 }];
    assert_eq!(pr.pot_bonus_increments(&dist(EventType::RoyalPotBonusSettled)), Some(expected.clone()));
    assert_eq!(pr.pot_bonus_increments(&dist(EventType::RoyalPotBonusDistributed)), Some(expected));
    assert_eq!(pr.pot_bonus_increments(&dist(EventType::BinaryCycleClosed)), Some(vec![]));
}

#[test]
fn duplication_opens_a_fresh_account_at_the_start_tier() {
    let pr = PgEventProjector::new();
    let plan = DuplicationPlan { owner_user_id: A, new_royal_account_id: B, package_id: Some(C) };
    let rows = pr.duplication_rows(&plan, 11, 12, 99);
    assert_eq!((rows.purchase_id, rows.enrollment_id, rows.user_id, rows.package_id), (11, 12, A, Some(C)));
    assert_eq!(rows.purchase_status, payplan::codes::PurchaseStatus::Paid);
    assert_eq!(rows.enrollment_status, payplan::codes::EnrollmentStatus::Active);
    let a = rows.account;
    assert_eq!((a.id, a.enrollment_id, a.owner_user_id, a.current_tier), (B, 12, A, FlushTier::Ten));
    assert_eq!((a.current_points, a.cycle_count, a.graduated, a.graduated_at, a.created_at), (0, 0, false, None, 99));
}

#[test]
fn an_unknown_stack_is_not_found() {
    assert_eq!(loaded_stack(Some(5u8), A).ok(), Some(5));
    match loaded_stack::<u8>(None, A) {
        Err(AppError::NotFound(m)) => assert_eq!(m, "stack 01900000-0000-7000-8000-000000000001 not found"),
        other => panic!("unexpected {other:?}"),
    }
}

#[test]
fn projecting_again_keeps_one_row_per_key_with_the_latest_values() {
    let row = |left: i64, right: i64| CarryoverRow { company_id: Some(C), node_id: B, left_carryover: left, right_carryover: right };
    let other = CarryoverRow { company_id: Some(C), node_id: A, left_carryover: 1, right_carryover: 1 };
    let mut table = vec![other];
    upsert(&mut table, row(0, 30));
    assert_eq!(table, vec![other, row(0, 30)]);
    upsert(&mut table, row(10, 5));
    assert_eq!(table, vec![other, row(10, 5)]);
    upsert(&mut table, row(10, 5));
    assert_eq!(table, vec![other, row(10, 5)]);
}
