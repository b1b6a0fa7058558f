//! What a report of the payment provider sets off, step by step.

use crate::handlers::billing::tiers;
use crate::handlers::billing::webhook;
use crate::handlers::billing::webhook::{SeatMigration, SeatMigrationView, StripeEventKind};
use crate::identity::TenantId;
use crate::json::{Json, JsonView};
use crate::operator_read_models::Moment;
use crate::tenancy::{SubscriptionStatus, TenantSubscription, TenantSubscriptionView, TenantTier};
use vstd::prelude::*;

verus! {

/// Something that a report makes necessary.
pub enum Effect {
    /// The record of a tenant is stored.
    Store(TenantSubscription),
    /// Tier, status and period of a tenant are stored, as something that what follows
    /// rests on, or not.
    UpdateTier {
        tenant_id: TenantId,
        tier: TenantTier,
        status: SubscriptionStatus,
        period_end: Option<Moment>,
        required: bool,
    },
    /// The tier of a tenant is carried to where its users are known.
    CarryTier { tenant_id: TenantId, tier: TenantTier },
    /// The team of a tenant is brought in line with the tenant's tier.
    AlignTeam { tenant_id: TenantId, tier: TenantTier },
    /// The number of seats of a customer is stored.
    StoreSeats { tenant_id: TenantId, customer: String, previous: u32, new: u32, large_drift: bool },
    /// The seat add-on of a subscription is moved to the tier.
    MigrateSeats { tier: TenantTier, migration: SeatMigration },
}

/// The mathematical content of something that a report makes necessary.
pub enum EffectView {
    Store(TenantSubscriptionView),
    UpdateTier {
        tenant_id: Seq<char>,
        tier: TenantTier,
        status: SubscriptionStatus,
        period_end: Option<Moment>,
        required: bool,
    },
    CarryTier { tenant_id: Seq<char>, tier: TenantTier },
    AlignTeam { tenant_id: Seq<char>, tier: TenantTier },
    StoreSeats {
        tenant_id: Seq<char>,
        customer: Seq<char>,
        previous: u32,
        new: u32,
        large_drift: bool,
    },
    MigrateSeats { tier: TenantTier, migration: SeatMigrationView },
}

impl View for Effect {
    type V = EffectView;

    open spec fn view(&self) -> EffectView {
        match *self {
            Effect::Store(record) => EffectView::Store(record@),
            Effect::UpdateTier { tenant_id, tier, status, period_end, required } =>
                EffectView::UpdateTier {
                tenant_id: tenant_id@,
                tier,
                status,
                period_end,
                required,
            },
            Effect::CarryTier { tenant_id, tier } => EffectView::CarryTier {
                tenant_id: tenant_id@,
                tier,
            },
            Effect::AlignTeam { tenant_id, tier } => EffectView::AlignTeam {
                tenant_id: tenant_id@,
                tier,
            },
            Effect::StoreSeats { tenant_id, customer, previous, new, large_drift } =>
                EffectView::StoreSeats {
                tenant_id: tenant_id@,
                customer: customer@,
                previous,
                new,
                large_drift,
            },
            Effect::MigrateSeats { tier, migration } => EffectView::MigrateSeats {
                tier,
                migration: migration@,
            },
        }
    }
}

/// The mathematical content of a list of effects.
pub open spec fn effect_views(effects: Seq<Effect>) -> Seq<EffectView> {
    effects.map_values(|e: Effect| e@)
}

/// What follows an effect that was tried.
pub enum AfterEffect {
    /// The effects behind it.
    GoOn,
    /// Nothing more.
    Stop,
    /// The tenant's team learns that its number of seats has changed; then the effects
    /// behind it.
    TellSeats { tenant_id: TenantId, previous: u32, new: u32 },
}

/// The mathematical content of what follows an effect.
pub enum AfterEffectView {
    GoOn,
    Stop,
    TellSeats { tenant_id: Seq<char>, previous: u32, new: u32 },
}

impl View for AfterEffect {
    type V = AfterEffectView;

    open spec fn view(&self) -> AfterEffectView {
        match self {
            AfterEffect::GoOn => AfterEffectView::GoOn,
            AfterEffect::Stop => AfterEffectView::Stop,
            AfterEffect::TellSeats { tenant_id, previous, new } => AfterEffectView::TellSeats {
                tenant_id: tenant_id@,
                previous: *previous,
                new: *new,
            },
        }
    }
}

/// What follows an effect that was tried: nothing more where a record, or a tier that
/// is required, could not be stored. A team learns of seats only once they are stored.
pub open spec fn after(effect: EffectView, failed: bool) -> AfterEffectView {
    match effect {
        EffectView::Store(_) if failed => AfterEffectView::Stop,
        EffectView::UpdateTier { required: true, .. } if failed => AfterEffectView::Stop,
        EffectView::StoreSeats { tenant_id, previous, new, .. } if !failed =>
            AfterEffectView::TellSeats { tenant_id, previous, new },
        _ => AfterEffectView::GoOn,
    }
}

/// What follows an effect that was tried.
pub fn after_effect(effect: &Effect, failed: bool) -> (r: AfterEffect)
    ensures
        r@ == after(effect@, failed),
{
    match effect {
        Effect::Store(_) => if failed {
            AfterEffect::Stop
        } else {
            AfterEffect::GoOn
        },
        Effect::UpdateTier { required, .. } => if failed && *required {
            AfterEffect::Stop
        } else {
            AfterEffect::GoOn
        },
        Effect::StoreSeats { tenant_id, previous, new, .. } => if failed {
            AfterEffect::GoOn
        } else {
            AfterEffect::TellSeats {
                tenant_id: tenant_id.clone(),
                previous: *previous,
                new: *new,
            }
        },
        _ => AfterEffect::GoOn,
    }
}

/// What a completed checkout sets off: its record is stored, and its tier carried on.
pub open spec fn checkout_effects(obj: JsonView, tenant: Seq<char>, now: Moment) -> Seq<
    EffectView,
> {
    seq![
        EffectView::Store(webhook::completed_record(obj, tenant, now)),
        EffectView::CarryTier {
            tenant_id: tenant,
            tier: webhook::completed_record(obj, tenant, now).tier,
        },
    ]
}

/// What a change of the number of seats sets off, where there is one.
pub open spec fn seat_effects(
    obj: JsonView,
    record: TenantSubscriptionView,
    tier: TenantTier,
) -> Seq<EffectView> {
    match webhook::seat_count_change(
        record.seat_count,
        webhook::reconciled_seats(obj, tier.name()),
    ) {
        Some(change) => seq![
            EffectView::StoreSeats {
                tenant_id: record.tenant_id,
                customer: webhook::text_or_empty(obj, "customer"@),
                previous: change.previous,
                new: change.new,
                large_drift: change.large_drift,
            },
        ],
        None => Seq::empty(),
    }
}

/// What a seat add-on of another tier sets off, where there is one.
pub open spec fn migration_effects(obj: JsonView, tier: TenantTier) -> Seq<EffectView> {
    match webhook::seat_migration(obj, tier) {
        Some(migration) => seq![EffectView::MigrateSeats { tier, migration }],
        None => Seq::empty(),
    }
}

/// What a changed subscription sets off. That the tier could not be stored stops
/// nothing.
pub open spec fn update_effects(
    obj: JsonView,
    record: TenantSubscriptionView,
    status: SubscriptionStatus,
) -> Seq<EffectView> {
    let tier = webhook::tier_after(obj, record.tier);
    seq![
        EffectView::UpdateTier {
            tenant_id: record.tenant_id,
            tier,
            status,
            period_end: webhook::period_end(obj),
            required: false,
        },
        EffectView::CarryTier { tenant_id: record.tenant_id, tier },
        EffectView::AlignTeam { tenant_id: record.tenant_id, tier },
    ] + seat_effects(obj, record, tier) + migration_effects(obj, tier)
}

/// What a deleted subscription sets off: the tenant falls to the free tier, and
/// nothing follows where that could not be stored.
pub open spec fn deletion_effects(record: TenantSubscriptionView) -> Seq<EffectView> {
    seq![
        EffectView::UpdateTier {
            tenant_id: record.tenant_id,
            tier: TenantTier::Free,
            status: SubscriptionStatus::Canceled,
            period_end: None,
            required: true,
        },
        EffectView::CarryTier { tenant_id: record.tenant_id, tier: TenantTier::Free },
        EffectView::AlignTeam { tenant_id: record.tenant_id, tier: TenantTier::Free },
    ]
}

/// What a failed payment sets off: the tenant is past due, and keeps tier and period.
pub open spec fn failure_effects(record: TenantSubscriptionView) -> Seq<EffectView> {
    seq![
        EffectView::UpdateTier {
            tenant_id: record.tenant_id,
            tier: record.tier,
            status: SubscriptionStatus::PastDue,
            period_end: record.current_period_end,
            required: false,
        },
    ]
}

/// A report of the payment provider: what it is about, and the object that it is on.
pub struct Report {
    pub kind: StripeEventKind,
    pub object: Json,
}

/// What was learnt while a report is acted upon.
pub enum ReportEvent {
    Begun,
    /// The tenant that a checkout names, where it is one.
    TenantRead { tenant: Option<TenantId>, now: Moment },
    /// The record of the customer, where there is one, and what the status that the
    /// report names stands for.
    RecordFound { record: Option<TenantSubscription>, status: SubscriptionStatus },
}

/// What is done next about a report.
pub enum ReportAction {
    ReadTenant { name: String },
    FindRecord { customer: String, status_name: String },
    /// The effects follow, in this order, and end the report.
    Perform(Vec<Effect>),
}

/// The mathematical content of what is done next about a report.
pub enum ReportActionView {
    ReadTenant { name: Seq<char> },
    FindRecord { customer: Seq<char>, status_name: Seq<char> },
    Perform(Seq<EffectView>),
}

impl View for ReportAction {
    type V = ReportActionView;

    open spec fn view(&self) -> ReportActionView {
        match *self {
            ReportAction::ReadTenant { name } => ReportActionView::ReadTenant { name: name@ },
            ReportAction::FindRecord { customer, status_name } => ReportActionView::FindRecord {
                customer: customer@,
                status_name: status_name@,
            },
            ReportAction::Perform(effects) => ReportActionView::Perform(effect_views(effects@)),
        }
    }
}

/// What a record that was found leads to, by what a report is about.
pub open spec fn record_effects(
    kind: StripeEventKind,
    obj: JsonView,
    record: TenantSubscriptionView,
    status: SubscriptionStatus,
) -> Seq<EffectView> {
    match kind {
        StripeEventKind::SubscriptionUpdated => update_effects(obj, record, status),
        StripeEventKind::SubscriptionDeleted => deletion_effects(record),
        StripeEventKind::PaymentFailed => failure_effects(record),
        _ => Seq::empty(),
    }
}

fn update_plan(obj: &Json, record: &TenantSubscription, status: SubscriptionStatus) -> (r: Vec<
    Effect,
>)
    requires
        webhook::reconciled_seats(obj@, webhook::tier_after(obj@, record.tier).name()) <= u32::MAX,
    ensures
        effect_views(r@) == update_effects(obj@, record@, status),
{
    let update = webhook::handle_subscription_updated(obj, record, status);
    let mut effects: Vec<Effect> = Vec::new();
    effects.push(
        Effect::UpdateTier {
            tenant_id: record.tenant_id.clone(),
            tier: update.tier,
            status: update.status,
            period_end: update.period_end,
            required: false,
        },
    );
    effects.push(Effect::CarryTier { tenant_id: record.tenant_id.clone(), tier: update.tier });
    effects.push(Effect::AlignTeam { tenant_id: record.tenant_id.clone(), tier: update.tier });
    if let Some(change) = update.seats {
        effects.push(
            Effect::StoreSeats {
                tenant_id: record.tenant_id.clone(),
                customer: webhook::event_customer(obj),
                previous: change.previous,
                new: change.new,
                large_drift: change.large_drift,
            },
        );
    }
    if let Some(migration) = update.migration {
        effects.push(Effect::MigrateSeats { tier: update.tier, migration });
    }
    assert(effect_views(effects@) =~= update_effects(obj@, record@, status));
    effects
}

fn deletion_plan(record: &TenantSubscription) -> (r: Vec<Effect>)
    ensures
        effect_views(r@) == deletion_effects(record@),
{
    let (tier, status, period_end) = webhook::handle_subscription_deleted();
    let mut effects: Vec<Effect> = Vec::new();
    effects.push(
        Effect::UpdateTier {
            tenant_id: record.tenant_id.clone(),
            tier,
            status,
            period_end,
            required: true,
        },
    );
    effects.push(Effect::CarryTier { tenant_id: record.tenant_id.clone(), tier });
    effects.push(Effect::AlignTeam { tenant_id: record.tenant_id.clone(), tier });
    assert(effect_views(effects@) =~= deletion_effects(record@));
    effects
}

fn failure_plan(record: &TenantSubscription) -> (r: Vec<Effect>)
    ensures
        effect_views(r@) == failure_effects(record@),
{
    let (tier, status, period_end) = webhook::handle_payment_failed(record);
    let mut effects: Vec<Effect> = Vec::new();
    effects.push(
        Effect::UpdateTier {
            tenant_id: record.tenant_id.clone(),
            tier,
            status,
            period_end,
            required: false,
        },
    );
    assert(effect_views(effects@) =~= failure_effects(record@));
    effects
}

fn checkout_plan(obj: &Json, tenant: TenantId, now: Moment) -> (r: Vec<Effect>)
    requires
        webhook::checkout_seats(obj@) <= u32::MAX,
    ensures
        effect_views(r@) == checkout_effects(obj@, tenant@, now),
{
    let record = webhook::handle_checkout_completed(obj, tenant.clone(), now);
    let tier = record.tier;
    let mut effects: Vec<Effect> = Vec::new();
    effects.push(Effect::Store(record));
    effects.push(Effect::CarryTier { tenant_id: tenant, tier });
    assert(effect_views(effects@) =~= checkout_effects(obj@, tenant@, now));
    effects
}

fn no_effects() -> (r: Vec<Effect>)
    ensures
        effect_views(r@) == Seq::<EffectView>::empty(),
{
    let effects: Vec<Effect> = Vec::new();
    assert(effect_views(effects@) =~= Seq::<EffectView>::empty());
    effects
}

impl Report {
    /// A report of the given type on an object; without a billing repository it is
    /// ignored.
    pub fn start(event_type: &str, object: Json, repository: bool) -> (r: Self)
        ensures
            r.kind == (if repository {
                webhook::event_kind(event_type@)
            } else {
                StripeEventKind::Ignored
            }),
            r.object == object,
    {
        Report { kind: webhook::process_stripe_event(event_type, repository), object }
    }

    /// Whether the seats that come into play can be counted.
    pub open spec fn seats_fit(self, event: ReportEvent) -> bool {
        match (self.kind, event) {
            (
                StripeEventKind::CheckoutCompleted,
                ReportEvent::TenantRead { tenant: Some(_), .. },
            ) => webhook::checkout_seats(self.object@) <= u32::MAX,
            (
                StripeEventKind::SubscriptionUpdated,
                ReportEvent::RecordFound { record: Some(record), .. },
            ) => webhook::reconciled_seats(
                self.object@,
                webhook::tier_after(self.object@, record.tier).name(),
            ) <= u32::MAX,
            _ => true,
        }
    }

    /// Whether the seats that come into play can be counted.
    pub fn can_step(&self, event: &ReportEvent) -> (r: bool)
        ensures
            r == self.seats_fit(*event),
    {
        match (self.kind, event) {
            (
                StripeEventKind::CheckoutCompleted,
                ReportEvent::TenantRead { tenant: Some(_), .. },
            ) => webhook::checkout_seats_fit(&self.object),
            (
                StripeEventKind::SubscriptionUpdated,
                ReportEvent::RecordFound { record: Some(record), .. },
            ) => {
                let tier = match tiers::extract_tier_from_subscription(&self.object) {
                    Some(t) => t,
                    None => record.tier,
                };
                webhook::reconciled_seats_fit(&self.object, tiers::tier_to_str(&tier))
            },
            _ => true,
        }
    }

    /// What is done next. A checkout that names no tenant, a customer without a record
    /// and every report of another kind set off nothing.
    pub open spec fn next(self, event: ReportEvent) -> ReportActionView {
        let nothing = ReportActionView::Perform(Seq::empty());
        match event {
            ReportEvent::Begun => match self.kind {
                StripeEventKind::Ignored => nothing,
                StripeEventKind::CheckoutCompleted => match webhook::checkout_tenant(self.object@) {
                    Some(name) => ReportActionView::ReadTenant { name },
                    None => nothing,
                },
                _ => ReportActionView::FindRecord {
                    customer: webhook::text_or_empty(self.object@, "customer"@),
                    status_name: webhook::status_name(self.object@),
                },
            },
            ReportEvent::TenantRead { tenant, now } => match (self.kind, tenant) {
                (StripeEventKind::CheckoutCompleted, Some(t)) => ReportActionView::Perform(
                    checkout_effects(self.object@, t@, now),
                ),
                _ => nothing,
            },
            ReportEvent::RecordFound { record, status } => match record {
                Some(found) => ReportActionView::Perform(
                    record_effects(self.kind, self.object@, found@, status),
                ),
                None => nothing,
            },
        }
    }

    /// What is done next.
    pub fn step(&self, event: ReportEvent) -> (action: ReportAction)
        requires
            self.seats_fit(event),
        ensures
            action@ == self.next(event),
    {
        match event {
            ReportEvent::Begun => match self.kind {
                StripeEventKind::Ignored => ReportAction::Perform(no_effects()),
                StripeEventKind::CheckoutCompleted => match webhook::checkout_tenant_id(
                    &self.object,
                ) {
                    Some(name) => ReportAction::ReadTenant { name },
                    None => ReportAction::Perform(no_effects()),
                },
                _ => ReportAction::FindRecord {
                    customer: webhook::event_customer(&self.object),
                    status_name: webhook::subscription_status_name(&self.object),
                },
            },
            ReportEvent::TenantRead { tenant, now } => match (self.kind, tenant) {
                (StripeEventKind::CheckoutCompleted, Some(t)) => ReportAction::Perform(
                    checkout_plan(&self.object, t, now),
                ),
                _ => ReportAction::Perform(no_effects()),
            },
            ReportEvent::RecordFound { record, status } => match record {
                Some(found) => ReportAction::Perform(
                    match self.kind {
                        StripeEventKind::SubscriptionUpdated => update_plan(
                            &self.object,
                            &found,
                            status,
                        ),
                        StripeEventKind::SubscriptionDeleted => deletion_plan(&found),
                        StripeEventKind::PaymentFailed => failure_plan(&found),
                        _ => no_effects(),
                    },
                ),
                None => ReportAction::Perform(no_effects()),
            },
        }
    }
}

/// A failed payment takes nothing from a tenant but its good standing: the tier is
/// neither changed nor carried anywhere, and the team goes on.
pub proof fn law_a_failed_payment_keeps_the_tier(
    obj: JsonView,
    record: TenantSubscriptionView,
    status: SubscriptionStatus,
)
    ensures
        forall|i: int|
            0 <= i < record_effects(StripeEventKind::PaymentFailed, obj, record, status).len()
                ==> (#[trigger] record_effects(
                StripeEventKind::PaymentFailed,
                obj,
                record,
                status,
            )[i] matches EffectView::UpdateTier { tenant_id, tier, period_end, .. } && tenant_id
                == record.tenant_id && tier == record.tier && period_end
                == record.current_period_end),
{
}

/// Whatever a report on a customer sets off concerns the customer's own tenant.
pub proof fn law_reports_concern_their_own_tenant(
    kind: StripeEventKind,
    obj: JsonView,
    record: TenantSubscriptionView,
    status: SubscriptionStatus,
    i: int,
)
    requires
        0 <= i < record_effects(kind, obj, record, status).len(),
    ensures
        match record_effects(kind, obj, record, status)[i] {
            EffectView::Store(_) => false,
            EffectView::UpdateTier { tenant_id, .. } => tenant_id == record.tenant_id,
            EffectView::CarryTier { tenant_id, .. } => tenant_id == record.tenant_id,
            EffectView::AlignTeam { tenant_id, .. } => tenant_id == record.tenant_id,
            EffectView::StoreSeats { tenant_id, .. } => tenant_id == record.tenant_id,
            EffectView::MigrateSeats { .. } => true,
        },
{
}

/// The tier that is stored, the tier that is carried on and the tier that the team is
/// brought in line with are one.
pub proof fn law_one_tier_everywhere(
    obj: JsonView,
    record: TenantSubscriptionView,
    status: SubscriptionStatus,
)
    ensures
        update_effects(obj, record, status).len() >= 3,
        update_effects(obj, record, status)[0]->UpdateTier_tier == webhook::tier_after(
            obj,
            record.tier,
        ),
        update_effects(obj, record, status)[1] == (EffectView::CarryTier {
            tenant_id: record.tenant_id,
            tier: webhook::tier_after(obj, record.tier),
        }),
        update_effects(obj, record, status)[2] == (EffectView::AlignTeam {
            tenant_id: record.tenant_id,
            tier: webhook::tier_after(obj, record.tier),
        }),
{
}

/// Where the record of a checkout, or the end of a subscription, cannot be stored, the
/// report ends there: no tier is carried on and no team is touched. Where a changed
/// tier cannot be stored, the report goes on.
pub proof fn law_what_is_not_stored_is_not_carried_on(
    obj: JsonView,
    tenant: Seq<char>,
    record: TenantSubscriptionView,
    status: SubscriptionStatus,
    now: Moment,
)
    ensures
        after(checkout_effects(obj, tenant, now)[0], true) is Stop,
        after(deletion_effects(record)[0], true) is Stop,
        after(update_effects(obj, record, status)[0], true) is GoOn,
{
}

/// A changed subscription brings its tenant in line: tier, status and period are stored as
/// the subscription tells them, the tier is carried on and the team brought in line with
/// it, the new number of seats is stored where it differs, and a misplaced seat add-on is
/// moved.
pub proof fn law_a_changed_subscription_is_brought_in_line(
    report: Report,
    record: TenantSubscription,
    status: SubscriptionStatus,
)
    requires
        report.kind == StripeEventKind::SubscriptionUpdated,
        0 <= webhook::reconciled_seats(
            report.object@,
            webhook::tier_after(report.object@, record.tier).name(),
        ) <= u32::MAX,
    ensures
        ({
            let tier = webhook::tier_after(report.object@, record.tier);
            let seats = webhook::reconciled_seats(report.object@, tier.name());
            &&& report.next(
                ReportEvent::RecordFound { record: Some(record), status },
            ) matches ReportActionView::Perform(effects)
            &&& effects.len() >= 3
            &&& effects[0] == (EffectView::UpdateTier {
                tenant_id: record.tenant_id@,
                tier,
                status,
                period_end: webhook::period_end(report.object@),
                required: false,
            })
            &&& effects[1] == (EffectView::CarryTier { tenant_id: record.tenant_id@, tier })
            &&& effects[2] == (EffectView::AlignTeam { tenant_id: record.tenant_id@, tier })
            &&& seats != record.seat_count ==> effects.len() >= 4 && (
            effects[3] matches EffectView::StoreSeats { tenant_id, previous, new, .. }
                && tenant_id == record.tenant_id@ && previous == record.seat_count && new == seats)
            &&& webhook::seat_migration(report.object@, tier) matches Some(migration)
                ==> effects.last() == (EffectView::MigrateSeats { tier, migration })
            &&& effects.len() == 3 + (if seats != record.seat_count {
                1int
            } else {
                0
            }) + (if webhook::seat_migration(report.object@, tier) is Some {
                1int
            } else {
                0
            })
        }),
{
}

/// A deleted subscription leaves its tenant on the free tier, cancelled and without a
/// period, and that is carried on and to the team; a failed payment only leaves it past
/// due.
pub proof fn law_the_end_of_a_subscription_is_carried_on(
    report: Report,
    record: TenantSubscription,
    status: SubscriptionStatus,
)
    ensures
        report.kind == StripeEventKind::SubscriptionDeleted ==> report.next(
            ReportEvent::RecordFound { record: Some(record), status },
        ) == ReportActionView::Perform(
            seq![
                EffectView::UpdateTier {
                    tenant_id: record.tenant_id@,
                    tier: TenantTier::Free,
                    status: SubscriptionStatus::Canceled,
                    period_end: None,
                    required: true,
                },
                EffectView::CarryTier { tenant_id: record.tenant_id@, tier: TenantTier::Free },
                EffectView::AlignTeam { tenant_id: record.tenant_id@, tier: TenantTier::Free },
            ],
        ),
        report.kind == StripeEventKind::PaymentFailed ==> report.next(
            ReportEvent::RecordFound { record: Some(record), status },
        ) == ReportActionView::Perform(
            seq![
                EffectView::UpdateTier {
                    tenant_id: record.tenant_id@,
                    tier: record.tier,
                    status: SubscriptionStatus::PastDue,
                    period_end: record.current_period_end,
                    required: false,
                },
            ],
        ),
        report.next(ReportEvent::RecordFound { record: None, status }) == ReportActionView::Perform(
            Seq::empty(),
        ),
{
}

/// A completed checkout is stored for its tenant, and the tier of its record is carried on;
/// before that, the tenant is the one that the checkout names. Every report on a customer
/// is acted upon by that customer's record.
pub proof fn law_reports_are_acted_upon_by_what_they_name(
    report: Report,
    tenant: TenantId,
    now: Moment,
    name: Seq<char>,
    customer: Seq<char>,
)
    ensures
        report.kind == StripeEventKind::CheckoutCompleted && webhook::checkout_tenant(
            report.object@,
        ) == Some(name) ==> report.next(ReportEvent::Begun) == (ReportActionView::ReadTenant {
            name,
        }),
        report.kind == StripeEventKind::CheckoutCompleted ==> ({
            let record = webhook::completed_record(report.object@, tenant@, now);
            &&& report.next(
                ReportEvent::TenantRead { tenant: Some(tenant), now },
            ) matches ReportActionView::Perform(effects)
            &&& effects.len() == 2
            &&& effects[0] == EffectView::Store(record)
            &&& effects[1] == (EffectView::CarryTier { tenant_id: tenant@, tier: record.tier })
        }),
        report.next(ReportEvent::TenantRead { tenant: None, now }) == ReportActionView::Perform(
            Seq::empty(),
        ),
        report.kind != StripeEventKind::Ignored && report.kind
            != StripeEventKind::CheckoutCompleted && report.object@.get("customer"@) == Some(
            JsonView::Str(customer),
        ) ==> (report.next(ReportEvent::Begun) matches ReportActionView::FindRecord {
            customer: c,
            status_name,
        } && c == customer && status_name == webhook::status_name(report.object@)),
        report.kind == StripeEventKind::Ignored ==> report.next(ReportEvent::Begun)
            == ReportActionView::Perform(Seq::empty()),
{
}

/// The team learns of a new number of seats exactly where it was stored; a record, or a
/// tier that is required, that could not be stored ends the report, and nothing else does.
pub proof fn law_what_follows_an_effect(effect: EffectView, failed: bool)
    ensures
        after(effect, failed) is Stop <==> failed && (effect is Store || (
        effect matches EffectView::UpdateTier { required, .. } && required)),
        after(effect, failed) is TellSeats <==> !failed && effect is StoreSeats,
        effect matches EffectView::StoreSeats { tenant_id, previous, new, .. } ==> after(
            effect,
            false,
        ) == (AfterEffectView::TellSeats { tenant_id, previous, new }),
{
}

} // verus!
