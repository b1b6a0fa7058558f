//! What the payment provider reports: completed checkouts, changed and deleted
//! subscriptions, failed payments.

use crate::handlers::billing::checkout::CheckoutRequest;
use crate::handlers::billing::seats::{ItemChange, ItemChangeView};
use crate::handlers::billing::{checkout, tiers};
use crate::identity::TenantId;
use crate::json::{Json, JsonView};
use crate::operator_read_models::Moment;
use crate::tenancy::{SubscriptionStatus, TenantSubscription, TenantSubscriptionView, TenantTier};
use crate::{primitives, text};
use vstd::prelude::*;

verus! {

/// The reports that are acted upon.
#[derive(Clone, Copy, PartialEq, Eq, Structural, Debug)]
pub enum StripeEventKind {
    CheckoutCompleted,
    SubscriptionUpdated,
    SubscriptionDeleted,
    PaymentFailed,
    Ignored,
}

/// The report that an event type stands for.
pub open spec fn event_kind(event_type: Seq<char>) -> StripeEventKind {
    if event_type == "checkout.session.completed"@ {
        StripeEventKind::CheckoutCompleted
    } else if event_type == "customer.subscription.updated"@ {
        StripeEventKind::SubscriptionUpdated
    } else if event_type == "customer.subscription.deleted"@ {
        StripeEventKind::SubscriptionDeleted
    } else if event_type == "invoice.payment_failed"@ {
        StripeEventKind::PaymentFailed
    } else {
        StripeEventKind::Ignored
    }
}

/// Decides what a report is about; without a billing repository every report is
/// ignored.
pub fn process_stripe_event(event_type: &str, repository: bool) -> (r: StripeEventKind)
    ensures
        r == (if repository {
            event_kind(event_type@)
        } else {
            StripeEventKind::Ignored
        }),
{
    if !repository {
        return StripeEventKind::Ignored;
    }
    if text::str_eq(event_type, "checkout.session.completed") {
        StripeEventKind::CheckoutCompleted
    } else if text::str_eq(event_type, "customer.subscription.updated") {
        StripeEventKind::SubscriptionUpdated
    } else if text::str_eq(event_type, "customer.subscription.deleted") {
        StripeEventKind::SubscriptionDeleted
    } else if text::str_eq(event_type, "invoice.payment_failed") {
        StripeEventKind::PaymentFailed
    } else {
        StripeEventKind::Ignored
    }
}

/// The text of a member, or nothing.
pub open spec fn text_or_empty(obj: JsonView, key: Seq<char>) -> Seq<char> {
    match obj.get_str(key) {
        Some(t) => t,
        None => Seq::empty(),
    }
}

fn text_of(obj: &Json, key: &str) -> (r: String)
    ensures
        r@ == text_or_empty(obj@, key@),
{
    match obj.get_str(key) {
        Some(t) => t.to_owned(),
        None => String::new(),
    }
}

/// The customer that a report is about.
pub fn event_customer(obj: &Json) -> (r: String)
    ensures
        r@ == text_or_empty(obj@, "customer"@),
{
    text_of(obj, "customer")
}

/// The text at `metadata.<key>`.
pub open spec fn metadata_text(obj: JsonView, key: Seq<char>) -> Option<Seq<char>> {
    match obj.get("metadata"@) {
        Some(metadata) => metadata.get_str(key),
        None => None,
    }
}

fn metadata_of<'a>(obj: &'a Json, key: &str) -> (r: Option<&'a str>)
    ensures
        text::opt_str_view(r) == metadata_text(obj@, key@),
{
    match obj.get("metadata") {
        Some(metadata) => metadata.get_str(key),
        None => None,
    }
}

/// The tenant that a completed checkout names: in its metadata, or else in those of
/// its subscription.
pub open spec fn checkout_tenant(obj: JsonView) -> Option<Seq<char>> {
    match metadata_text(obj, "tenant_id"@) {
        Some(t) => Some(t),
        None => match obj.get("subscription_data"@) {
            Some(data) => metadata_text(data, "tenant_id"@),
            None => None,
        },
    }
}

/// The tenant that a completed checkout names.
pub fn checkout_tenant_id(obj: &Json) -> (r: Option<String>)
    ensures
        text::opt_view(r) == checkout_tenant(obj@),
{
    if let Some(t) = metadata_of(obj, "tenant_id") {
        return Some(t.to_owned());
    }
    match obj.get("subscription_data") {
        Some(data) => match metadata_of(data, "tenant_id") {
            Some(t) => Some(t.to_owned()),
            None => None,
        },
        None => None,
    }
}

/// The name of the tier that was bought, `pro` where the checkout does not say.
pub open spec fn bought_tier(obj: JsonView) -> Seq<char> {
    match metadata_text(obj, "tier"@) {
        Some(t) => t,
        None => "pro"@,
    }
}

/// The extra seats that were bought, none where the checkout does not say.
pub open spec fn bought_seats(obj: JsonView) -> int {
    match metadata_text(obj, "extra_seats"@) {
        Some(t) => match text::parsed_nat(t) {
            Some(n) => if n <= u32::MAX {
                n
            } else {
                0
            },
            None => 0,
        },
        None => 0,
    }
}

/// All seats that a completed checkout comes to.
pub open spec fn checkout_seats(obj: JsonView) -> int {
    tiers::seats_included(bought_tier(obj)) + bought_seats(obj)
}

fn extra_seats_of(obj: &Json) -> (r: u32)
    ensures
        r == bought_seats(obj@),
{
    match metadata_of(obj, "extra_seats") {
        Some(t) => match text::parse_u32(t) {
            Some(n) => n,
            None => 0,
        },
        None => 0,
    }
}

/// Whether the seats of a completed checkout can be counted.
pub fn checkout_seats_fit(obj: &Json) -> (r: bool)
    ensures
        r == (checkout_seats(obj@) <= u32::MAX),
{
    let tier = match metadata_of(obj, "tier") {
        Some(t) => t,
        None => "pro",
    };
    tiers::included_seats_for_tier(tier) as u64 + extra_seats_of(obj) as u64 <= u32::MAX as u64
}

/// The record that a completed checkout makes of a tenant.
pub open spec fn completed_record(
    obj: JsonView,
    tenant: Seq<char>,
    now: Moment,
) -> TenantSubscriptionView {
    TenantSubscriptionView {
        tenant_id: tenant,
        stripe_customer_id: text_or_empty(obj, "customer"@),
        stripe_subscription_id: Some(text_or_empty(obj, "subscription"@)),
        tier: TenantTier::named(bought_tier(obj)),
        status: SubscriptionStatus::Active,
        current_period_end: None,
        cancel_at_period_end: false,
        created_at: now,
        updated_at: now,
        seat_count: checkout_seats(obj) as u32,
    }
}

/// The record that a completed checkout makes of the tenant that it names.
pub fn handle_checkout_completed(obj: &Json, tenant_id: TenantId, now: Moment) -> (r:
    TenantSubscription)
    requires
        checkout_seats(obj@) <= u32::MAX,
    ensures
        r@ == completed_record(obj@, tenant_id@, now),
{
    let tier_name = match metadata_of(obj, "tier") {
        Some(t) => t,
        None => "pro",
    };
    let included: u32 = tiers::included_seats_for_tier(tier_name);
    let extra: u32 = extra_seats_of(obj);
    TenantSubscription {
        tenant_id,
        stripe_customer_id: text_of(obj, "customer"),
        stripe_subscription_id: Some(text_of(obj, "subscription")),
        tier: tiers::str_to_tier(tier_name),
        status: SubscriptionStatus::Active,
        current_period_end: None,
        cancel_at_period_end: false,
        created_at: now,
        updated_at: now,
        seat_count: included + extra,
    }
}

/// The number of seats that the seat add-on among some items adds: that of the first
/// one, cut off at the largest count, none where there is no add-on or no number.
pub open spec fn addon_seats(items: Seq<JsonView>) -> int
    decreases items.len(),
{
    if items.len() == 0 {
        0
    } else if tiers::is_seat_item(items[0]) {
        match items[0].get("quantity"@) {
            Some(q) => match q.as_u64() {
                Some(n) => if n <= u32::MAX {
                    n as int
                } else {
                    u32::MAX as int
                },
                None => 0,
            },
            None => 0,
        }
    } else {
        addon_seats(items.skip(1))
    }
}

/// All seats of a subscription: those that its tier includes and those that its seat
/// add-on adds.
pub open spec fn reconciled_seats(obj: JsonView, tier: Seq<char>) -> int {
    tiers::seats_included(tier) + match tiers::subscription_items(obj) {
        Some(items) => addon_seats(items),
        None => 0,
    }
}

fn addon_quantity(items: &Vec<Json>) -> (r: u32)
    ensures
        r == addon_seats(crate::json::json_views(items@)),
{
    let ghost all = crate::json::json_views(items@);
    let mut i: usize = 0;
    assert(all.skip(0) =~= all);
    while i < items.len()
        invariant
            i <= items@.len(),
            all == crate::json::json_views(items@),
            addon_seats(all) == addon_seats(all.skip(i as int)),
        decreases items@.len() - i,
    {
        assert(all.skip(i as int)[0] == items@[i as int]@);
        assert(all.skip(i as int).skip(1) =~= all.skip(i + 1));
        if tiers::item_is_seat_addon(&items[i]) {
            return match items[i].get("quantity") {
                Some(q) => match q.as_u64() {
                    Some(n) => if n <= u32::MAX as u64 {
                        n as u32
                    } else {
                        u32::MAX
                    },
                    None => 0,
                },
                None => 0,
            };
        }
        i += 1;
    }
    0
}

/// Whether the seats of a subscription can be counted.
pub fn reconciled_seats_fit(obj: &Json, tier: &str) -> (r: bool)
    ensures
        r == (reconciled_seats(obj@, tier@) <= u32::MAX),
{
    let addon: u32 = match tiers::items_of(obj) {
        Some(items) => addon_quantity(items),
        None => 0,
    };
    tiers::included_seats_for_tier(tier) as u64 + addon as u64 <= u32::MAX as u64
}

/// All seats of a subscription.
pub fn compute_reconciled_seats(obj: &Json, tier: &str) -> (r: u32)
    requires
        reconciled_seats(obj@, tier@) <= u32::MAX,
    ensures
        r == reconciled_seats(obj@, tier@),
{
    let included: u32 = tiers::included_seats_for_tier(tier);
    match tiers::items_of(obj) {
        Some(items) => included + addon_quantity(items),
        None => included,
    }
}

/// A seat add-on that belongs to another tier than the plan.
pub struct SeatMigration {
    pub item_id: String,
    pub old_tier: String,
    pub interval: String,
    pub quantity: u64,
}

/// The mathematical content of such an add-on.
pub struct SeatMigrationView {
    pub item_id: Seq<char>,
    pub old_tier: Seq<char>,
    pub interval: Seq<char>,
    pub quantity: u64,
}

impl View for SeatMigration {
    type V = SeatMigrationView;

    open spec fn view(&self) -> SeatMigrationView {
        SeatMigrationView {
            item_id: self.item_id@,
            old_tier: self.old_tier@,
            interval: self.interval@,
            quantity: self.quantity,
        }
    }
}

/// What has to be migrated of one item: a seat add-on of another tier that has an id.
pub open spec fn misplaced_item(item: JsonView, tier: Seq<char>) -> Option<SeatMigrationView> {
    match tiers::seat_item_tier(item) {
        Some((old_tier, interval)) => if old_tier != tier && item.get_str("id"@) is Some {
            Some(
                SeatMigrationView {
                    item_id: item.get_str("id"@)->Some_0,
                    old_tier,
                    interval,
                    quantity: match item.get("quantity"@) {
                        Some(q) => match q.as_u64() {
                            Some(n) => n,
                            None => 1,
                        },
                        None => 1,
                    },
                },
            )
        } else {
            None
        },
        None => None,
    }
}

/// The first misplaced seat add-on.
pub open spec fn first_misplaced(items: Seq<JsonView>, tier: Seq<char>) -> Option<SeatMigrationView>
    decreases items.len(),
{
    if items.len() == 0 {
        None
    } else if misplaced_item(items[0], tier) is Some {
        misplaced_item(items[0], tier)
    } else {
        first_misplaced(items.skip(1), tier)
    }
}

/// The seat add-on that has to be migrated to a tier. Only paid tiers have seat
/// add-ons.
pub open spec fn seat_migration(obj: JsonView, tier: TenantTier) -> Option<SeatMigrationView> {
    if tier == TenantTier::Free || tier == TenantTier::System {
        None
    } else {
        match tiers::subscription_items(obj) {
            Some(items) => first_misplaced(items, tier.name()),
            None => None,
        }
    }
}

/// The view of an optional migration.
pub open spec fn opt_migration(m: Option<SeatMigration>) -> Option<SeatMigrationView> {
    match m {
        Some(m) => Some(m@),
        None => None,
    }
}

fn check_item(item: &Json, tier: &str) -> (r: Option<SeatMigration>)
    ensures
        opt_migration(r) == misplaced_item(item@, tier@),
{
    match tiers::tier_for_seat_item(item) {
        Some((old_tier, interval)) => {
            if text::str_eq(old_tier.as_str(), tier) {
                return None;
            }
            match item.get_str("id") {
                Some(id) => {
                    let quantity: u64 = match item.get("quantity") {
                        Some(q) => match q.as_u64() {
                            Some(n) => n,
                            None => 1,
                        },
                        None => 1,
                    };
                    Some(SeatMigration { item_id: id.to_owned(), old_tier, interval, quantity })
                },
                None => None,
            }
        },
        None => None,
    }
}

/// The seat add-on of a subscription that has to be migrated to a tier.
pub fn migrate_seat_addon_if_needed(obj: &Json, new_tier: &TenantTier) -> (r: Option<SeatMigration>)
    ensures
        opt_migration(r) == seat_migration(obj@, *new_tier),
{
    if *new_tier == TenantTier::Free || *new_tier == TenantTier::System {
        return None;
    }
    let tier = tiers::tier_to_str(new_tier);
    let items = match tiers::items_of(obj) {
        Some(items) => items,
        None => {
            return None;
        },
    };
    let ghost all = crate::json::json_views(items@);
    let mut i: usize = 0;
    assert(all.skip(0) =~= all);
    while i < items.len()
        invariant
            i <= items@.len(),
            all == crate::json::json_views(items@),
            seat_migration(obj@, *new_tier) == first_misplaced(all, tier@),
            first_misplaced(all, tier@) == first_misplaced(all.skip(i as int), tier@),
        decreases items@.len() - i,
    {
        assert(all.skip(i as int)[0] == items@[i as int]@);
        assert(all.skip(i as int).skip(1) =~= all.skip(i + 1));
        let found = check_item(&items[i], tier);
        if found.is_some() {
            return found;
        }
        i += 1;
    }
    None
}

/// The changes that carry out a migration: the old line goes, a new one with the same
/// quantity comes.
pub open spec fn migration_changes(migration: SeatMigrationView, new_price: Seq<char>) -> Seq<
    ItemChangeView,
> {
    seq![
        ItemChangeView::Delete { id: migration.item_id },
        ItemChangeView::Add { price: new_price, quantity: migration.quantity },
    ]
}

/// The changes to a subscription that carry out a migration, where a price for the new
/// tier was found and the subscription has an id.
pub fn plan_migration(obj: &Json, migration: &SeatMigration, new_price: Option<String>) -> (r:
    Option<(String, Vec<ItemChange>)>)
    ensures
        match (obj@.get_str("id"@), new_price) {
            (Some(id), Some(price)) => r matches Some((sub, changes)) && sub@ == id
                && changes@.map_values(|c: ItemChange| c@) == migration_changes(migration@, price@),
            _ => r is None,
        },
{
    let price = match new_price {
        Some(p) => p,
        None => {
            return None;
        },
    };
    match obj.get_str("id") {
        Some(id) => {
            let mut changes: Vec<ItemChange> = Vec::new();
            changes.push(ItemChange::Delete { id: migration.item_id.clone() });
            changes.push(ItemChange::Add { price, quantity: migration.quantity });
            assert(changes@.map_values(|c: ItemChange| c@) =~= migration_changes(
                migration@,
                price@,
            ));
            Some((id.to_owned(), changes))
        },
        None => None,
    }
}

/// A change of the number of seats that is stored.
#[derive(Clone, Copy, PartialEq, Eq, Structural, Debug)]
pub struct SeatCountChange {
    pub previous: u32,
    pub new: u32,
    /// Whether the two differ by more than one.
    pub large_drift: bool,
}

/// What a changed subscription makes necessary, in this order: store tier, status and
/// period, carry the tier on, bring the team in line, store the number of seats, and
/// migrate the seat add-on.
pub struct SubscriptionUpdate {
    pub tier: TenantTier,
    pub status: SubscriptionStatus,
    pub period_end: Option<Moment>,
    pub seats: Option<SeatCountChange>,
    pub migration: Option<SeatMigration>,
}

/// The tier of a subscription: the one it names, or else the one that is stored.
pub open spec fn tier_after(obj: JsonView, stored: TenantTier) -> TenantTier {
    match tiers::subscription_tier(obj) {
        Some(t) => t,
        None => stored,
    }
}

/// The name of a subscription's status.
pub open spec fn status_name(obj: JsonView) -> Seq<char> {
    match obj.get_str("status"@) {
        Some(s) => s,
        None => "none"@,
    }
}

/// The name of a subscription's status.
pub fn subscription_status_name(obj: &Json) -> (r: String)
    ensures
        r@ == status_name(obj@),
{
    match obj.get_str("status") {
        Some(s) => s.to_owned(),
        None => "none".to_owned(),
    }
}

/// The end of a subscription's period, where it is given and the calendar has it.
pub open spec fn period_end(obj: JsonView) -> Option<Moment> {
    match obj.get("current_period_end"@) {
        Some(v) => match v.as_i64() {
            Some(seconds) => end_moment(
                if primitives::calendar_has(seconds) {
                    Some(seconds)
                } else {
                    None
                },
            ),
            None => None,
        },
        None => None,
    }
}

/// A second as a moment.
pub open spec fn end_moment(seconds: Option<i64>) -> Option<Moment> {
    match seconds {
        Some(s) => Some((s * 1_000_000_000) as i128),
        None => None,
    }
}

/// A second as a moment.
pub fn moment_of(seconds: Option<i64>) -> (r: Option<Moment>)
    ensures
        r == end_moment(seconds),
{
    match seconds {
        Some(s) => Some(s as i128 * 1_000_000_000),
        None => None,
    }
}

fn period_end_of(obj: &Json) -> (r: Option<Moment>)
    ensures
        r == period_end(obj@),
{
    match obj.get("current_period_end") {
        Some(v) => match v.as_i64() {
            Some(seconds) => moment_of(primitives::calendar_moment(seconds)),
            None => None,
        },
        None => None,
    }
}

/// The change of the stored number of seats, where there is one.
pub open spec fn seat_count_change(stored: u32, new: int) -> Option<SeatCountChange> {
    if new == stored {
        None
    } else {
        Some(
            SeatCountChange {
                previous: stored,
                new: new as u32,
                large_drift: new - stored > 1 || stored - new > 1,
            },
        )
    }
}

/// What a changed subscription makes necessary. `status` is what its status stands
/// for.
pub fn handle_subscription_updated(
    obj: &Json,
    record: &TenantSubscription,
    status: SubscriptionStatus,
) -> (r: SubscriptionUpdate)
    requires
        reconciled_seats(obj@, tier_after(obj@, record.tier).name()) <= u32::MAX,
    ensures
        r.tier == tier_after(obj@, record.tier),
        r.status == status,
        r.period_end == period_end(obj@),
        r.seats == seat_count_change(
            record.seat_count,
            reconciled_seats(obj@, tier_after(obj@, record.tier).name()),
        ),
        opt_migration(r.migration) == seat_migration(obj@, tier_after(obj@, record.tier)),
{
    let tier = match tiers::extract_tier_from_subscription(obj) {
        Some(t) => t,
        None => record.tier,
    };
    let new: u32 = compute_reconciled_seats(obj, tiers::tier_to_str(&tier));
    let stored: u32 = record.seat_count;
    let seats = if new != stored {
        let drift: i64 = new as i64 - stored as i64;
        Some(SeatCountChange { previous: stored, new, large_drift: drift > 1 || drift < -1 })
    } else {
        None
    };
    SubscriptionUpdate {
        tier,
        status,
        period_end: period_end_of(obj),
        seats,
        migration: migrate_seat_addon_if_needed(obj, &tier),
    }
}

/// What is stored when a subscription is deleted: the free tier, no period.
pub fn handle_subscription_deleted() -> (r: (TenantTier, SubscriptionStatus, Option<Moment>))
    ensures
        r == (TenantTier::Free, SubscriptionStatus::Canceled, None::<Moment>),
{
    (TenantTier::Free, SubscriptionStatus::Canceled, None)
}

/// What is stored when a payment failed: all as it was, but past due.
pub fn handle_payment_failed(record: &TenantSubscription) -> (r: (
    TenantTier,
    SubscriptionStatus,
    Option<Moment>,
))
    ensures
        r == (record.tier, SubscriptionStatus::PastDue, record.current_period_end),
{
    (record.tier, SubscriptionStatus::PastDue, record.current_period_end)
}

proof fn lemma_metadata(tenant: Seq<char>, body: CheckoutRequest)
    ensures
        checkout::checkout_metadata(tenant, body).get_str("tenant_id"@) == Some(tenant),
        checkout::checkout_metadata(tenant, body).get_str("tier"@) == text::opt_view(body.tier),
        checkout::checkout_metadata(tenant, body).get_str("extra_seats"@) == (if body.seats > 0 {
            Some(text::decimal(body.seats as nat))
        } else {
            None
        }),
{
    reveal_strlit("tenant_id");
    reveal_strlit("tier");
    reveal_strlit("extra_seats");
    assert("tenant_id"@.len() == 9 && "tier"@.len() == 4 && "extra_seats"@.len() == 11);
    let empty = JsonView::object();
    let with_tenant = empty.with("tenant_id"@, JsonView::Str(tenant));
    let tier_value = JsonView::Str(body.tier->Some_0@);
    let with_tier = if body.tier is Some {
        with_tenant.with("tier"@, tier_value)
    } else {
        with_tenant
    };
    let seats_value = JsonView::Str(text::decimal(body.seats as nat));
    assert forall|key: Seq<char>| #[trigger]
        checkout::checkout_metadata(tenant, body).get(key) == (if key == "tenant_id"@ {
            Some(JsonView::Str(tenant))
        } else if key == "tier"@ && body.tier is Some {
            Some(tier_value)
        } else if key == "extra_seats"@ && body.seats > 0 {
            Some(seats_value)
        } else {
            None
        }) by {
        crate::json::law_get_after_with(empty, "tenant_id"@, JsonView::Str(tenant), key);
        crate::json::law_get_after_with(with_tenant, "tier"@, tier_value, key);
        crate::json::law_get_after_with(with_tier, "extra_seats"@, seats_value, key);
    }
}

/// What a checkout was opened with is what its completion stores: the tenant, the
/// tier, and the tier's seats with the extra ones. `completed` is the completed
/// session, which carries the metadata that the checkout was opened with.
pub proof fn law_completion_stores_what_was_bought(
    completed: JsonView,
    tenant: Seq<char>,
    body: CheckoutRequest,
    now: Moment,
)
    requires
        completed.get("metadata"@) == Some(checkout::checkout_metadata(tenant, body)),
        checkout_seats(completed) <= u32::MAX,
    ensures
        checkout_tenant(completed) == Some(tenant),
        completed_record(completed, tenant, now).tier == (match text::opt_view(body.tier) {
            Some(name) => TenantTier::named(name),
            None => TenantTier::Pro,
        }),
        completed_record(completed, tenant, now).seat_count == tiers::seats_included(
            match text::opt_view(body.tier) {
                Some(name) => name,
                None => "pro"@,
            },
        ) + body.seats,
        completed_record(completed, tenant, now).status == SubscriptionStatus::Active,
{
    lemma_metadata(tenant, body);
    text::law_decimal_round_trip(body.seats as nat);
}

/// Items that are no seat add-ons count for nothing: whatever stands before the seat
/// add-on, and however much of it, the number of seats is the same.
pub proof fn law_base_items_add_no_seats(before: Seq<JsonView>, rest: Seq<JsonView>)
    requires
        forall|i: int| 0 <= i < before.len() ==> !tiers::is_seat_item(#[trigger] before[i]),
    ensures
        addon_seats(before + rest) == addon_seats(rest),
    decreases before.len(),
{
    if before.len() == 0 {
        assert(before + rest =~= rest);
    } else {
        assert((before + rest)[0] == before[0]);
        assert((before + rest).skip(1) =~= before.skip(1) + rest);
        law_base_items_add_no_seats(before.skip(1), rest);
    }
}

/// Without a seat add-on a subscription has the seats that its tier includes.
pub proof fn law_no_addon_means_included_seats(items: Seq<JsonView>)
    requires
        forall|i: int| 0 <= i < items.len() ==> !tiers::is_seat_item(#[trigger] items[i]),
    ensures
        addon_seats(items) == 0,
{
    law_base_items_add_no_seats(items, Seq::empty());
    assert(items + Seq::<JsonView>::empty() =~= items);
}

/// A seat add-on that already belongs to the plan's tier is never migrated.
pub proof fn law_matching_addon_stays(items: Seq<JsonView>, tier: Seq<char>)
    requires
        forall|i: int|
            0 <= i < items.len() ==> (tiers::seat_item_tier(#[trigger] items[i]) is None
                || tiers::seat_item_tier(items[i])->Some_0.0 == tier),
    ensures
        first_misplaced(items, tier) is None,
    decreases items.len(),
{
    if items.len() > 0 {
        assert(misplaced_item(items[0], tier) is None);
        assert forall|i: int| 0 <= i < items.skip(1).len() implies (tiers::seat_item_tier(
            #[trigger] items.skip(1)[i],
        ) is None || tiers::seat_item_tier(items.skip(1)[i])->Some_0.0 == tier) by {
            assert(items.skip(1)[i] == items[i + 1]);
        }
        law_matching_addon_stays(items.skip(1), tier);
    }
}

/// The seats that a subscription buys are added to those that its tier includes: the
/// quantity of its first item whose price is of the kind `seat`, whatever else the item
/// says and whatever stands behind it.
pub proof fn law_bought_seats_are_added(
    obj: JsonView,
    tier: Seq<char>,
    list: JsonView,
    items: Seq<JsonView>,
    i: int,
    price: JsonView,
    metadata: JsonView,
    quantity: int,
)
    requires
        obj.get("items"@) == Some(list),
        list.get("data"@) == Some(JsonView::Arr(items)),
        0 <= i < items.len(),
        items[i].get("price"@) == Some(price),
        price.get("metadata"@) == Some(metadata),
        metadata.get("kind"@) == Some(JsonView::Str("seat"@)),
        items[i].get("quantity"@) == Some(JsonView::Int(quantity)),
        0 <= quantity,
        forall|j: int| 0 <= j < i ==> !tiers::is_seat_item(#[trigger] items[j]),
    ensures
        quantity <= u32::MAX ==> reconciled_seats(obj, tier) == tiers::seats_included(tier)
            + quantity,
        u32::MAX < quantity <= u64::MAX ==> reconciled_seats(obj, tier) == tiers::seats_included(
            tier,
        ) + u32::MAX,
{
    law_base_items_add_no_seats(items.take(i), items.skip(i));
    assert(items.take(i) + items.skip(i) =~= items);
    assert(items.skip(i)[0] == items[i]);
}

/// A subscription without a seat add-on, or without items, has the seats that its tier
/// includes and no more.
pub proof fn law_nothing_bought_adds_nothing(obj: JsonView, tier: Seq<char>)
    requires
        tiers::subscription_items(obj) matches Some(items) ==> forall|i: int|
            0 <= i < items.len() ==> !tiers::is_seat_item(#[trigger] items[i]),
    ensures
        reconciled_seats(obj, tier) == tiers::seats_included(tier),
{
    if let Some(items) = tiers::subscription_items(obj) {
        law_no_addon_means_included_seats(items);
    }
}

/// The tier of a subscription is the one that its own metadata name; only where they
/// name none, the one of its first item's price; and only where that names none either,
/// the stored one.
pub proof fn law_the_tier_is_the_one_that_is_named(
    obj: JsonView,
    stored: TenantTier,
    metadata: JsonView,
    list: JsonView,
    items: Seq<JsonView>,
    price: JsonView,
    name: Seq<char>,
)
    ensures
        obj.get("metadata"@) == Some(metadata) && metadata.get("tier"@) == Some(
            JsonView::Str(name),
        ) ==> tier_after(obj, stored) == TenantTier::named(name),
        obj.get("metadata"@) is None && obj.get("items"@) == Some(list) && list.get("data"@)
            == Some(JsonView::Arr(items)) && items.len() > 0 && items[0].get("price"@) == Some(
            price,
        ) && price.get("metadata"@) == Some(metadata) && metadata.get("tier"@) == Some(
            JsonView::Str(name),
        ) ==> tier_after(obj, stored) == TenantTier::named(name),
        obj.get("metadata"@) is None && obj.get("items"@) is None ==> tier_after(obj, stored)
            == stored,
{
}

/// The first seat add-on of another tier that has an identifier is the one to be
/// migrated, with its own tier, interval and quantity.
pub proof fn law_the_first_misplaced_addon_is_migrated(
    items: Seq<JsonView>,
    tier: Seq<char>,
    i: int,
)
    requires
        0 <= i < items.len(),
        forall|j: int| 0 <= j < i ==> misplaced_item(#[trigger] items[j], tier) is None,
        misplaced_item(items[i], tier) is Some,
    ensures
        first_misplaced(items, tier) == misplaced_item(items[i], tier),
    decreases items.len(),
{
    if i > 0 {
        assert(misplaced_item(items[0], tier) is None);
        let rest = items.skip(1);
        assert forall|j: int| 0 <= j < i - 1 implies misplaced_item(
            #[trigger] rest[j],
            tier,
        ) is None by {
            assert(rest[j] == items[j + 1]);
        }
        assert(rest[i - 1] == items[i]);
        law_the_first_misplaced_addon_is_migrated(rest, tier, i - 1);
    }
}

/// A seat add-on is migrated under its own identifier and with its own quantity, where
/// its tier is another than the plan's, and not otherwise; one line goes and one with the
/// same quantity comes.
pub proof fn law_a_migration_keeps_the_quantity(
    item: JsonView,
    tier: Seq<char>,
    price: JsonView,
    metadata: JsonView,
    recurring: JsonView,
    old_tier: Seq<char>,
    interval: Seq<char>,
    id: Seq<char>,
    quantity: u64,
    new_price: Seq<char>,
)
    requires
        item.get("price"@) == Some(price),
        price.get("metadata"@) == Some(metadata),
        metadata.get("kind"@) == Some(JsonView::Str("seat"@)),
        metadata.get("tier"@) == Some(JsonView::Str(old_tier)),
        price.get("recurring"@) == Some(recurring),
        recurring.get("interval"@) == Some(JsonView::Str(interval)),
        item.get("id"@) == Some(JsonView::Str(id)),
        item.get("quantity"@) == Some(JsonView::Int(quantity as int)),
    ensures
        misplaced_item(item, tier) is Some <==> old_tier != tier,
        misplaced_item(item, tier) matches Some(migration) ==> {
            &&& migration.item_id == id
            &&& migration.old_tier == old_tier
            &&& migration.interval == interval
            &&& migration.quantity == quantity
            &&& migration_changes(migration, new_price).len() == 2
            &&& migration_changes(migration, new_price)[0] == (ItemChangeView::Delete { id })
            &&& migration_changes(migration, new_price)[1] == (ItemChangeView::Add {
                price: new_price,
                quantity,
            })
        },
{
}

/// Free plans and the system's have no seat add-on to migrate; a paid plan has the first
/// misplaced one.
pub proof fn law_paid_plans_are_migrated(
    obj: JsonView,
    list: JsonView,
    items: Seq<JsonView>,
    tier: TenantTier,
)
    requires
        obj.get("items"@) == Some(list),
        list.get("data"@) == Some(JsonView::Arr(items)),
    ensures
        tier == TenantTier::Free || tier == TenantTier::System ==> seat_migration(obj, tier) is None,
        tier == TenantTier::Pro || tier == TenantTier::Business || tier == TenantTier::Enterprise
            ==> seat_migration(obj, tier) == first_misplaced(items, tier.name()),
{
}

/// A number of seats is stored exactly where it differs from the stored one, as the new
/// one beside the old one; a difference of more than one is marked.
pub proof fn law_seat_changes_tell_old_and_new(stored: u32, new: u32)
    ensures
        seat_count_change(stored, new as int) is None <==> stored == new,
        seat_count_change(stored, new as int) matches Some(change) ==> change.previous == stored
            && change.new == new && (change.large_drift <==> new > stored + 1 || stored > new + 1),
{
}

/// The record of a completed checkout is of the customer and the subscription that the
/// checkout names, of the tenant, and of the time; it is active and runs on.
pub proof fn law_a_checkout_is_recorded_as_it_was(
    obj: JsonView,
    tenant: Seq<char>,
    now: Moment,
    customer: Seq<char>,
    subscription: Seq<char>,
)
    requires
        obj.get("customer"@) == Some(JsonView::Str(customer)),
        obj.get("subscription"@) == Some(JsonView::Str(subscription)),
    ensures
        completed_record(obj, tenant, now).tenant_id == tenant,
        completed_record(obj, tenant, now).stripe_customer_id == customer,
        completed_record(obj, tenant, now).stripe_subscription_id == Some(subscription),
        completed_record(obj, tenant, now).status == SubscriptionStatus::Active,
        completed_record(obj, tenant, now).current_period_end is None,
        !completed_record(obj, tenant, now).cancel_at_period_end,
        completed_record(obj, tenant, now).created_at == now,
        completed_record(obj, tenant, now).updated_at == now,
{
}

/// The tenant of a checkout is the one that its own metadata name, or else the one that
/// those of its subscription name.
pub proof fn law_a_checkout_names_its_tenant(
    obj: JsonView,
    metadata: JsonView,
    data: JsonView,
    tenant: Seq<char>,
)
    ensures
        obj.get("metadata"@) == Some(metadata) && metadata.get("tenant_id"@) == Some(
            JsonView::Str(tenant),
        ) ==> checkout_tenant(obj) == Some(tenant),
        obj.get("metadata"@) is None && obj.get("subscription_data"@) == Some(data) && data.get(
            "metadata"@,
        ) == Some(metadata) && metadata.get("tenant_id"@) == Some(JsonView::Str(tenant))
            ==> checkout_tenant(obj) == Some(tenant),
        obj.get("metadata"@) is None && obj.get("subscription_data"@) is None ==> checkout_tenant(
            obj,
        ) is None,
{
}

/// Of all types of reports exactly four are acted upon, each as what it says.
pub proof fn law_four_reports_are_acted_upon(event_type: Seq<char>)
    ensures
        event_kind(event_type) == StripeEventKind::CheckoutCompleted <==> event_type
            == "checkout.session.completed"@,
        event_kind(event_type) == StripeEventKind::SubscriptionUpdated <==> event_type
            == "customer.subscription.updated"@,
        event_kind(event_type) == StripeEventKind::SubscriptionDeleted <==> event_type
            == "customer.subscription.deleted"@,
        event_kind(event_type) == StripeEventKind::PaymentFailed <==> event_type
            == "invoice.payment_failed"@,
{
    reveal_strlit("checkout.session.completed");
    reveal_strlit("customer.subscription.updated");
    reveal_strlit("customer.subscription.deleted");
    reveal_strlit("invoice.payment_failed");
    assert("checkout.session.completed"@[0] == 'c' && "checkout.session.completed"@[1] == 'h');
    assert("customer.subscription.updated"@[1] == 'u' && "customer.subscription.updated"@[22]
        == 'u');
    assert("customer.subscription.deleted"@[1] == 'u' && "customer.subscription.deleted"@[22]
        == 'd');
    assert("invoice.payment_failed"@[0] == 'i');
}

/// A period ends at the second that the subscription tells, in nanoseconds, where the
/// calendar reaches it; and a status that is not told is `none`.
pub proof fn law_periods_end_when_they_say(obj: JsonView, seconds: i64, status: Seq<char>)
    ensures
        obj.get("current_period_end"@) == Some(JsonView::Int(seconds as int))
            && primitives::calendar_has(seconds) ==> (period_end(obj) matches Some(end) && end
            == seconds * 1_000_000_000),
        obj.get("current_period_end"@) is None ==> period_end(obj) is None,
        obj.get("status"@) == Some(JsonView::Str(status)) ==> status_name(obj) == status,
        obj.get("status"@) is None ==> status_name(obj) == "none"@,
{
}

/// What a report leaves out counts for nothing, or for what is usual: a seat add-on without
/// a quantity adds no seats and is migrated as one, a checkout without a tier is of the pro
/// tier, and one without a readable number of seats has none beside those of its tier.
pub proof fn law_what_is_left_out(
    obj: JsonView,
    list: JsonView,
    items: Seq<JsonView>,
    tier: Seq<char>,
    metadata: JsonView,
    written: Seq<char>,
    n: int,
)
    ensures
        obj.get("items"@) == Some(list) && list.get("data"@) == Some(JsonView::Arr(items))
            && items.len() > 0 && tiers::is_seat_item(items[0]) && items[0].get(
            "quantity"@,
        ) is None ==> reconciled_seats(obj, tier) == tiers::seats_included(tier),
        items.len() > 0 && items[0].get("quantity"@) is None ==> (misplaced_item(
            items[0],
            tier,
        ) matches Some(migration) ==> migration.quantity == 1),
        obj.get("metadata"@) is None ==> checkout_seats(obj) == tiers::seats_included("pro"@),
        obj.get("metadata"@) == Some(metadata) && metadata.get("tier"@) == Some(
            JsonView::Str(tier),
        ) && metadata.get("extra_seats"@) == Some(JsonView::Str(written)) && text::parsed_nat(
            written,
        ) == Some(n) && n <= u32::MAX ==> checkout_seats(obj) == tiers::seats_included(tier) + n,
        obj.get("metadata"@) == Some(metadata) && metadata.get("tier"@) == Some(
            JsonView::Str(tier),
        ) && metadata.get("extra_seats"@) == Some(JsonView::Str(written)) && (text::parsed_nat(
            written,
        ) is None || n > u32::MAX && text::parsed_nat(written) == Some(n)) ==> checkout_seats(obj)
            == tiers::seats_included(tier),
        obj.get("metadata"@) == Some(metadata) && metadata.get("tier"@) == Some(
            JsonView::Str(tier),
        ) && metadata.get("extra_seats"@) is None ==> checkout_seats(obj)
            == tiers::seats_included(tier),
        obj.get("metadata"@) == Some(metadata) && metadata.get("tier"@) is None && metadata.get(
            "extra_seats"@,
        ) is None ==> checkout_seats(obj) == tiers::seats_included("pro"@),
{
}

/// The tier of a completed checkout is the one that was bought.
pub proof fn law_the_bought_tier_is_recorded(
    obj: JsonView,
    tenant: Seq<char>,
    now: Moment,
    metadata: JsonView,
    name: Seq<char>,
)
    ensures
        obj.get("metadata"@) == Some(metadata) && metadata.get("tier"@) == Some(
            JsonView::Str(name),
        ) ==> completed_record(obj, tenant, now).tier == TenantTier::named(name),
        obj.get("metadata"@) is None ==> completed_record(obj, tenant, now).tier
            == TenantTier::named("pro"@),
        checkout_seats(obj) <= u32::MAX ==> completed_record(obj, tenant, now).seat_count
            == checkout_seats(obj),
        obj.get("customer"@) is None ==> completed_record(
            obj,
            tenant,
            now,
        ).stripe_customer_id.len() == 0,
{
}

/// Where metadata are there but do not say what is sought, the next place is read.
pub proof fn law_the_next_place_is_read(
    obj: JsonView,
    stored: TenantTier,
    own: JsonView,
    data: JsonView,
    metadata: JsonView,
    list: JsonView,
    items: Seq<JsonView>,
    price: JsonView,
    name: Seq<char>,
)
    requires
        obj.get("metadata"@) == Some(own),
        own.get("tenant_id"@) is None,
        own.get("tier"@) is None,
    ensures
        obj.get("subscription_data"@) == Some(data) && data.get("metadata"@) == Some(metadata)
            && metadata.get("tenant_id"@) == Some(JsonView::Str(name)) ==> checkout_tenant(obj)
            == Some(name),
        obj.get("items"@) == Some(list) && list.get("data"@) == Some(JsonView::Arr(items))
            && items.len() > 0 && items[0].get("price"@) == Some(price) && price.get("metadata"@)
            == Some(metadata) && metadata.get("tier"@) == Some(JsonView::Str(name)) ==> tier_after(
            obj,
            stored,
        ) == TenantTier::named(name),
        obj.get("items"@) == Some(list) && list.get("data"@) == Some(JsonView::Arr(items))
            && items.len() == 0 ==> tier_after(obj, stored) == stored,
        obj.get("items"@) == Some(list) && list.get("data"@) == Some(JsonView::Arr(items))
            && items.len() > 0 && items[0].get("price"@) is None ==> tier_after(obj, stored)
            == stored,
{
}

/// A time that the calendar does not reach, or that is no number of seconds, ends no
/// period.
pub proof fn law_periods_without_an_end(obj: JsonView, seconds: i64, s: Seq<char>)
    ensures
        obj.get("current_period_end"@) == Some(JsonView::Int(seconds as int))
            && !primitives::calendar_has(seconds) ==> period_end(obj) is None,
        obj.get("current_period_end"@) == Some(JsonView::Str(s)) ==> period_end(obj) is None,
{
}

} // verus!
