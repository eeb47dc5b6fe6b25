//! Domain events, their JSON payloads and how the event log files them.

use vstd::prelude::*;
use vstd::string::*;

verus! {

/// Kinds of domain events.
#[derive(Debug, Clone, Copy, PartialEq, Eq, Structural)]
pub enum EventType {
    CompanyCreated,
    UserCreated,
    CatalogItemCreated,
    BillingPlanCreated,
    PackageCreated,
    PackagePurchased,
    SubscriptionCreated,
    SubscriptionRenewed,
    SubscriptionCancelled,
    EntitlementGranted,
    EntitlementRevoked,
    EnrollmentCreated,
    EnrollmentSuspended,
    EnrollmentCancelled,
    RewardLedgerEntryCreated,
    RoyalAccountDuplicated,
    RoyalPotBonusDistributed,
    RoyalPotBonusSettled,
    BinaryPairMatched,
    BinaryCommissionEarned,
    BinaryCycleClosed,
    /// An event of a pay plan module with no projection of its own.
    ModuleOther,
}

/// A scalar member of an object nested in a payload array.
#[derive(Debug, Clone)]
pub enum JsonScalar {
    /// A string.
    Str(String),
    /// A number that fits an `i64`.
    Int(i64),
    /// Any other JSON value.
    Other,
}

/// An object nested in a payload array: its members, in order. Array
/// elements that are not objects have no members.
#[derive(Debug, Clone)]
pub struct JsonObject {
    pub fields: Vec<(String, JsonScalar)>,
}

/// A member of an event payload, as far as the event handling reads it.
#[derive(Debug, Clone)]
pub enum JsonValue {
    /// A string.
    Str(String),
    /// A number that fits an `i64`.
    Int(i64),
    /// An array.
    Array(Vec<JsonObject>),
    /// Any other JSON value.
    Other,
}

/// An event payload: the members of a JSON object, in order. A payload that
/// is not an object has no members.
#[derive(Debug, Clone)]
pub struct Payload {
    pub fields: Vec<(String, JsonValue)>,
}

/// The first member named `key`.
pub open spec fn lookup<V>(fields: Seq<(String, V)>, key: Seq<char>) -> Option<V>
    decreases fields.len(),
{
    if fields.len() == 0 {
        None
    } else if fields[0].0@ == key {
        Some(fields[0].1)
    } else {
        lookup(fields.drop_first(), key)
    }
}

/// The first member named `key`.
pub fn find_member<'a, V>(fields: &'a Vec<(String, V)>, key: &str) -> (r: Option<&'a V>)
    ensures
        match lookup(fields@, key@) {
            Some(x) => (r matches Some(y) && *y == x),
            None => r is None,
        },
{
    let n = fields.len();
    let mut i: usize = 0;
    assert(fields@.skip(0) == fields@);
    while i < n
        invariant
            n == fields@.len(),
            i <= n,
            lookup(fields@, key@) == lookup(fields@.skip(i as int), key@),
        decreases n - i,
    {
        assert(fields@.skip(i as int).drop_first() == fields@.skip(i + 1));
        if crate::text::str_eq(fields[i].0.as_str(), key) {
            return Some(&fields[i].1);
        }
        i = i + 1;
    }
    None
}

/// The value of `text` read as a UUID by `uuid::Uuid::parse_str`, as a
/// 128-bit integer.
pub uninterp spec fn uuid_text_value(text: Seq<char>) -> Option<u128>;

/// The lower-case hexadecimal digit of `n` (below 16).
pub open spec fn hex_char(n: nat) -> char {
    if n < 10 {
        (n + 48) as char
    } else {
        (n + 87) as char
    }
}

/// The last `count` hexadecimal digits of `v`, most significant first.
pub open spec fn hex_digits(v: nat, count: nat) -> Seq<char>
    decreases count,
{
    if count == 0 {
        Seq::empty()
    } else {
        hex_digits(v / 16, (count - 1) as nat).push(hex_char(v % 16))
    }
}

/// The hyphenated lower-case text of the UUID whose 128-bit value is
/// `value`: its 32 hexadecimal digits, most significant first, in groups of
/// 8, 4, 4, 4 and 12 joined by `-`.
pub open spec fn uuid_hyphenated(value: u128) -> Seq<char> {
    let d = hex_digits(value as nat, 32);
    d.subrange(0, 8) + seq!['-'] + d.subrange(8, 12) + seq!['-'] + d.subrange(12, 16) + seq!['-']
        + d.subrange(16, 20) + seq!['-'] + d.subrange(20, 32)
}

/// Calls `uuid::Uuid::parse_str(text)`; on success returns the UUID's value
/// (`Uuid::as_u128`), otherwise the parse error's text. Claims: success and
/// the value are given by the name above; nothing is claimed of the error
/// text.
#[verifier::external_body]
pub(crate) fn parse_uuid(text: &str) -> (r: Result<u128, String>)
    ensures
        r is Ok <==> uuid_text_value(text@) is Some,
        r matches Ok(x) ==> uuid_text_value(text@) == Some(x),
{
    uuid::Uuid::parse_str(text).map(|u| u.as_u128()).map_err(|e| e.to_string())
}

/// Calls `uuid::Uuid::from_u128(value).to_string()`. Claims: the text is
/// the hyphenated lower-case form spelled out above (what the crate's
/// `Display` writes), and `Uuid::parse_str` reads it back as the same value
/// (the round trip the uuid crate documents for its hyphenated format).
#[verifier::external_body]
pub(crate) fn uuid_text(value: u128) -> (r: String)
    ensures
        r@ == uuid_hyphenated(value),
        uuid_text_value(r@) == Some(value),
{
    uuid::Uuid::from_u128(value).to_string()
}

/// The string member `key` of a payload, read as a UUID; nothing when the
/// member is missing, not a string, or not a UUID.
pub open spec fn spec_uuid_field(p: Payload, key: Seq<char>) -> Option<u128> {
    match lookup(p.fields@, key) {
        Some(JsonValue::Str(s)) => uuid_text_value(s@),
        _ => None,
    }
}

/// The string member `key` of a payload, read as a UUID.
pub fn uuid_field(p: &Payload, key: &str) -> (r: Option<u128>)
    ensures
        r == spec_uuid_field(*p, key@),
{
    match find_member(&p.fields, key) {
        Some(JsonValue::Str(s)) => match parse_uuid(s.as_str()) {
            Ok(x) => Some(x),
            Err(_) => None,
        },
        _ => None,
    }
}

/// The integer member `key` of a payload.
pub open spec fn spec_i64_field(p: Payload, key: Seq<char>) -> Option<i64> {
    match lookup(p.fields@, key) {
        Some(JsonValue::Int(n)) => Some(n),
        _ => None,
    }
}

/// The integer member `key` of a payload.
pub fn i64_field(p: &Payload, key: &str) -> (r: Option<i64>)
    ensures
        r == spec_i64_field(*p, key@),
{
    match find_member(&p.fields, key) {
        Some(JsonValue::Int(n)) => Some(*n),
        _ => None,
    }
}

/// The string member `key` of a payload.
pub open spec fn spec_str_field(p: Payload, key: Seq<char>) -> Option<Seq<char>> {
    match lookup(p.fields@, key) {
        Some(JsonValue::Str(s)) => Some(s@),
        _ => None,
    }
}

/// The string member `key` of a payload.
pub fn str_field<'a>(p: &'a Payload, key: &str) -> (r: Option<&'a str>)
    ensures
        match spec_str_field(*p, key@) {
            Some(s) => (r matches Some(t) && t@ == s),
            None => r is None,
        },
{
    match find_member(&p.fields, key) {
        Some(JsonValue::Str(s)) => Some(s.as_str()),
        _ => None,
    }
}

/// The string member `key` of a nested object, read as a UUID.
pub open spec fn spec_entry_uuid_field(o: JsonObject, key: Seq<char>) -> Option<u128> {
    match lookup(o.fields@, key) {
        Some(JsonScalar::Str(s)) => uuid_text_value(s@),
        _ => None,
    }
}

/// The string member `key` of a nested object, read as a UUID.
pub fn entry_uuid_field(o: &JsonObject, key: &str) -> (r: Option<u128>)
    ensures
        r == spec_entry_uuid_field(*o, key@),
{
    match find_member(&o.fields, key) {
        Some(JsonScalar::Str(s)) => match parse_uuid(s.as_str()) {
            Ok(x) => Some(x),
            Err(_) => None,
        },
        _ => None,
    }
}

/// The integer member `key` of a nested object.
pub open spec fn spec_entry_i64_field(o: JsonObject, key: Seq<char>) -> Option<i64> {
    match lookup(o.fields@, key) {
        Some(JsonScalar::Int(n)) => Some(n),
        _ => None,
    }
}

/// The integer member `key` of a nested object.
pub fn entry_i64_field(o: &JsonObject, key: &str) -> (r: Option<i64>)
    ensures
        r == spec_entry_i64_field(*o, key@),
{
    match find_member(&o.fields, key) {
        Some(JsonScalar::Int(n)) => Some(*n),
        _ => None,
    }
}

/// A domain event.
#[derive(Debug, Clone)]
pub struct DomainEvent {
    pub id: u128,
    pub company_id: Option<u128>,
    pub event_type: EventType,
    pub payload: Payload,
    /// Unix time in microseconds.
    pub created_at: i64,
}

/// The aggregate type under which the event log files an event type.
pub open spec fn spec_aggregate_type(t: EventType) -> Seq<char> {
    match t {
        EventType::CompanyCreated => "company"@,
        EventType::UserCreated => "user"@,
        EventType::CatalogItemCreated => "catalog_item"@,
        EventType::BillingPlanCreated => "billing_plan"@,
        EventType::PackageCreated => "package"@,
        EventType::PackagePurchased => "purchase"@,
        EventType::SubscriptionCreated => "subscription"@,
        EventType::SubscriptionRenewed => "subscription"@,
        EventType::SubscriptionCancelled => "subscription"@,
        EventType::EntitlementGranted => "entitlement"@,
        EventType::EntitlementRevoked => "entitlement"@,
        EventType::EnrollmentCreated => "enrollment"@,
        EventType::EnrollmentSuspended => "enrollment"@,
        EventType::EnrollmentCancelled => "enrollment"@,
        EventType::RewardLedgerEntryCreated => "reward_ledger"@,
        _ => "module"@,
    }
}

/// The aggregate type under which the event log files an event type.
pub fn aggregate_type_for(t: EventType) -> (r: &'static str)
    ensures
        r@ == spec_aggregate_type(t),
{
    match t {
        EventType::CompanyCreated => "company",
        EventType::UserCreated => "user",
        EventType::CatalogItemCreated => "catalog_item",
        EventType::BillingPlanCreated => "billing_plan",
        EventType::PackageCreated => "package",
        EventType::PackagePurchased => "purchase",
        EventType::SubscriptionCreated => "subscription",
        EventType::SubscriptionRenewed => "subscription",
        EventType::SubscriptionCancelled => "subscription",
        EventType::EntitlementGranted => "entitlement",
        EventType::EntitlementRevoked => "entitlement",
        EventType::EnrollmentCreated => "enrollment",
        EventType::EnrollmentSuspended => "enrollment",
        EventType::EnrollmentCancelled => "enrollment",
        EventType::RewardLedgerEntryCreated => "reward_ledger",
        _ => "module",
    }
}

/// The aggregate an event is filed under: the first payload member, in
/// order of preference, that holds a UUID.
pub open spec fn spec_aggregate_id(payload: Payload) -> Option<u128> {
    if spec_uuid_field(payload, "aggregate_id"@) is Some {
        spec_uuid_field(payload, "aggregate_id"@)
    } else if spec_uuid_field(payload, "user_id"@) is Some {
        spec_uuid_field(payload, "user_id"@)
    } else if spec_uuid_field(payload, "package_id"@) is Some {
        spec_uuid_field(payload, "package_id"@)
    } else if spec_uuid_field(payload, "enrollment_id"@) is Some {
        spec_uuid_field(payload, "enrollment_id"@)
    } else if spec_uuid_field(payload, "matrix_id"@) is Some {
        spec_uuid_field(payload, "matrix_id"@)
    } else if spec_uuid_field(payload, "royal_account_id"@) is Some {
        spec_uuid_field(payload, "royal_account_id"@)
    } else {
        spec_uuid_field(payload, "node_id"@)
    }
}

/// The aggregate an event is filed under.
pub fn aggregate_id_for(event: &DomainEvent) -> (r: Option<u128>)
    ensures
        r == spec_aggregate_id(event.payload),
{
    let p = &event.payload;
    let a = uuid_field(p, "aggregate_id");
    if a.is_some() {
        return a;
    }
    let a = uuid_field(p, "user_id");
    if a.is_some() {
        return a;
    }
    let a = uuid_field(p, "package_id");
    if a.is_some() {
        return a;
    }
    let a = uuid_field(p, "enrollment_id");
    if a.is_some() {
        return a;
    }
    let a = uuid_field(p, "matrix_id");
    if a.is_some() {
        return a;
    }
    let a = uuid_field(p, "royal_account_id");
    if a.is_some() {
        return a;
    }
    uuid_field(p, "node_id")
}

/// Looking a key up after appending a member finds an earlier member first.
pub proof fn lemma_lookup_push<V>(fields: Seq<(String, V)>, k: String, v: V, key: Seq<char>)
    ensures
        lookup(fields.push((k, v)), key) == (if lookup(fields, key) is Some {
            lookup(fields, key)
        } else if k@ == key {
            Some(v)
        } else {
            None
        }),
    decreases fields.len(),
{
    let pushed = fields.push((k, v));
    if fields.len() == 0 {
        assert(pushed.drop_first() =~= Seq::<(String, V)>::empty());
        assert(pushed[0] == (k, v));
        assert(lookup(pushed.drop_first(), key) is None);
        assert(lookup(fields, key) is None);
    } else {
        assert(pushed.drop_first() =~= fields.drop_first().push((k, v)));
        assert(pushed[0] == fields[0]);
        lemma_lookup_push(fields.drop_first(), k, v, key);
    }
}

/// Append a member to a payload.
pub fn with_member(p: Payload, key: &str, v: JsonValue) -> (r: Payload)
    ensures
        forall|q: Seq<char>|
            #[trigger] lookup(r.fields@, q) == (if lookup(p.fields@, q) is Some {
                lookup(p.fields@, q)
            } else if key@ == q {
                Some(v)
            } else {
                None
            }),
{
    let mut fields = p.fields;
    let k = String::from_str(key);
    proof {
        assert forall|q: Seq<char>| #[trigger]
            lookup(fields@.push((k, v)), q) == (if lookup(fields@, q) is Some {
                lookup(fields@, q)
            } else if k@ == q {
                Some(v)
            } else {
                None
            }) by {
            lemma_lookup_push(fields@, k, v, q);
        }
    }
    fields.push((k, v));
    Payload { fields }
}

/// Append a member holding a UUID as its hyphenated text.
pub fn with_uuid(p: Payload, key: &str, value: u128) -> (r: Payload)
    ensures
        forall|q: Seq<char>| key@ != q ==> #[trigger] lookup(r.fields@, q) == lookup(p.fields@, q),
        lookup(p.fields@, key@) is None ==> (lookup(r.fields@, key@) matches Some(
            JsonValue::Str(s),
        ) && s@ == uuid_hyphenated(value) && uuid_text_value(s@) == Some(value)),
{
    let t = uuid_text(value);
    with_member(p, key, JsonValue::Str(t))
}

/// Build an object member holding a UUID as its hyphenated text.
pub fn uuid_member(key: &str, value: u128) -> (r: (String, JsonValue))
    ensures
        r.0@ == key@,
        r.1 matches JsonValue::Str(s) && uuid_text_value(s@) == Some(value) && s@ == uuid_hyphenated(value),
{
    (String::from_str(key), JsonValue::Str(uuid_text(value)))
}

} // verus!
