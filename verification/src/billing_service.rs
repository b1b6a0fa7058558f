//! What a team is charged for, kept in step between the payment provider and the
//! store of subscriptions.

use crate::handlers::billing;
use crate::handlers::billing::seats::Proration;
use crate::identity::TenantId;
use crate::operator_read_models::Moment;
use crate::tenancy::{SubscriptionStatus, TenantSubscription, TenantSubscriptionView, TenantTier};
use crate::{primitives, text};
use vstd::prelude::*;

verus! {

/// Why an operation on a team's account failed.
pub enum BillingServiceError {
    NotConfigured,
    NoSubscription(String),
    NoActiveSubscription,
    InvalidStripeId(String),
    Stripe(String),
    Repository(String),
}

/// The mathematical content of a failure.
pub enum BillingServiceErrorView {
    NotConfigured,
    NoSubscription(Seq<char>),
    NoActiveSubscription,
    InvalidStripeId(Seq<char>),
    Stripe(Seq<char>),
    Repository(Seq<char>),
}

impl View for BillingServiceError {
    type V = BillingServiceErrorView;

    open spec fn view(&self) -> BillingServiceErrorView {
        match self {
            BillingServiceError::NotConfigured => BillingServiceErrorView::NotConfigured,
            BillingServiceError::NoSubscription(t) => BillingServiceErrorView::NoSubscription(t@),
            BillingServiceError::NoActiveSubscription =>
                BillingServiceErrorView::NoActiveSubscription,
            BillingServiceError::InvalidStripeId(e) => BillingServiceErrorView::InvalidStripeId(e@),
            BillingServiceError::Stripe(e) => BillingServiceErrorView::Stripe(e@),
            BillingServiceError::Repository(e) => BillingServiceErrorView::Repository(e@),
        }
    }
}

/// The key of the payment provider.
pub fn stripe_client_key(resolved: Option<String>) -> (r: Result<String, BillingServiceError>)
    ensures
        match resolved {
            Some(key) => if key@.len() > 0 {
                r matches Ok(k) && k == key
            } else {
                r matches Err(BillingServiceError::NotConfigured)
            },
            None => r matches Err(BillingServiceError::NotConfigured),
        },
{
    match billing::stripe_key(resolved) {
        Some(key) => Ok(key),
        None => Err(BillingServiceError::NotConfigured),
    }
}

/// The subscription after its seats were set.
pub open spec fn with_seats(
    sub: TenantSubscriptionView,
    seats: u32,
    now: Moment,
) -> TenantSubscriptionView {
    TenantSubscriptionView { seat_count: seats, updated_at: now, ..sub }
}

/// The seats of a team's subscription, on the way to one for each active member: the
/// record, once it is known.
pub struct SeatSync {
    pub tenant_id: TenantId,
    pub active_member_count: u32,
    pub record: Option<TenantSubscription>,
}

/// What was learnt on the way.
pub enum SeatSyncEvent {
    /// It begins; and whether there is a payment provider.
    Begun { configured: bool },
    /// The record of the tenant was looked up.
    Loaded(Result<Option<TenantSubscription>, String>),
    /// The items of the subscription were looked up.
    Retrieved(Result<Vec<String>, String>),
    /// The provider was told the number, at the given time.
    Updated { failure: Option<String>, now: Moment },
    /// The record was stored.
    Stored { failure: Option<String>, previous: u32 },
}

/// What is done next on the way.
pub enum SeatSyncAction {
    Load,
    Retrieve { subscription: String },
    Update { subscription: String, item: String, quantity: u64, proration: Proration },
    Store { record: TenantSubscription, previous: u32 },
    /// It is over: with the number of seats that there were before.
    Finish(Result<u32, BillingServiceError>),
}

/// The mathematical content of what is done next.
pub enum SeatSyncActionView {
    Load,
    Retrieve { subscription: Seq<char> },
    Update { subscription: Seq<char>, item: Seq<char>, quantity: u64, proration: Proration },
    Store { record: TenantSubscriptionView, previous: u32 },
    Finish(Result<u32, BillingServiceErrorView>),
}

impl View for SeatSyncAction {
    type V = SeatSyncActionView;

    open spec fn view(&self) -> SeatSyncActionView {
        match self {
            SeatSyncAction::Load => SeatSyncActionView::Load,
            SeatSyncAction::Retrieve { subscription } => SeatSyncActionView::Retrieve {
                subscription: subscription@,
            },
            SeatSyncAction::Update { subscription, item, quantity, proration } =>
                SeatSyncActionView::Update {
                subscription: subscription@,
                item: item@,
                quantity: *quantity,
                proration: *proration,
            },
            SeatSyncAction::Store { record, previous } => SeatSyncActionView::Store {
                record: record@,
                previous: *previous,
            },
            SeatSyncAction::Finish(Ok(n)) => SeatSyncActionView::Finish(Ok(*n)),
            SeatSyncAction::Finish(Err(e)) => SeatSyncActionView::Finish(Err(e@)),
        }
    }
}

/// The end of the way with a failure.
pub open spec fn sync_fails(e: BillingServiceErrorView) -> SeatSyncActionView {
    SeatSyncActionView::Finish(Err(e))
}

/// What is done once the identifier of the subscription was read as one of the
/// provider's.
pub open spec fn sync_after(read: Result<Seq<char>, Seq<char>>) -> SeatSyncActionView {
    match read {
        Ok(id) => SeatSyncActionView::Retrieve { subscription: id },
        Err(e) => sync_fails(BillingServiceErrorView::InvalidStripeId(e)),
    }
}

/// What is done once the identifier of the subscription was read as one of the
/// provider's.
pub fn sync_with(read: Result<String, String>) -> (r: SeatSyncAction)
    ensures
        r@ == sync_after(
            match read {
                Ok(id) => Ok(id@),
                Err(e) => Err(e@),
            },
        ),
{
    match read {
        Ok(id) => SeatSyncAction::Retrieve { subscription: id },
        Err(e) => SeatSyncAction::Finish(Err(BillingServiceError::InvalidStripeId(e))),
    }
}

impl SeatSync {
    /// What is done next. The provider is told before the record is stored, and nothing
    /// is stored where it does not take the number.
    pub open spec fn next(self, event: SeatSyncEvent) -> SeatSyncActionView {
        match event {
            SeatSyncEvent::Begun { configured } => if configured {
                SeatSyncActionView::Load
            } else {
                sync_fails(BillingServiceErrorView::NotConfigured)
            },
            SeatSyncEvent::Loaded(Err(e)) => sync_fails(BillingServiceErrorView::Repository(e@)),
            SeatSyncEvent::Loaded(Ok(None)) => sync_fails(
                BillingServiceErrorView::NoSubscription(self.tenant_id@),
            ),
            SeatSyncEvent::Loaded(Ok(Some(sub))) => match sub@.stripe_subscription_id {
                Some(id) => SeatSyncActionView::Retrieve { subscription: id },
                None => sync_fails(BillingServiceErrorView::NoActiveSubscription),
            },
            SeatSyncEvent::Retrieved(Err(e)) => sync_fails(BillingServiceErrorView::Stripe(e@)),
            SeatSyncEvent::Retrieved(Ok(items)) => match self.record {
                Some(sub) => if sub@.stripe_subscription_id is None {
                    sync_fails(BillingServiceErrorView::NoActiveSubscription)
                } else if items@.len() == 0 {
                    sync_fails(BillingServiceErrorView::Stripe("subscription has no items"@))
                } else {
                    SeatSyncActionView::Update {
                        subscription: sub@.stripe_subscription_id->Some_0,
                        item: items@[0]@,
                        quantity: self.active_member_count as u64,
                        proration: Proration::Unstated,
                    }
                },
                None => SeatSyncActionView::Load,
            },
            SeatSyncEvent::Updated { failure: Some(e), .. } => sync_fails(
                BillingServiceErrorView::Stripe(e@),
            ),
            SeatSyncEvent::Updated { failure: None, now } => match self.record {
                Some(sub) => SeatSyncActionView::Store {
                    record: with_seats(sub@, self.active_member_count, now),
                    previous: sub.seat_count,
                },
                None => SeatSyncActionView::Load,
            },
            SeatSyncEvent::Stored { failure: Some(e), .. } => sync_fails(
                BillingServiceErrorView::Repository(e@),
            ),
            SeatSyncEvent::Stored { failure: None, previous } => SeatSyncActionView::Finish(
                Ok(previous),
            ),
        }
    }

    /// The record that is known after an event.
    pub open spec fn record_after(self, event: SeatSyncEvent) -> Option<TenantSubscriptionView> {
        match event {
            SeatSyncEvent::Loaded(Ok(Some(sub))) => Some(sub@),
            _ => match self.record {
                Some(sub) => Some(sub@),
                None => None,
            },
        }
    }

    /// What is done next.
    pub fn step(&mut self, event: SeatSyncEvent) -> (action: SeatSyncAction)
        ensures
            action@ == old(self).next(event),
            final(self).tenant_id == old(self).tenant_id,
            final(self).active_member_count == old(self).active_member_count,
            (match final(self).record {
                Some(sub) => Some(sub@),
                None => None,
            }) == old(self).record_after(event),
    {
        match event {
            SeatSyncEvent::Begun { configured } => if configured {
                SeatSyncAction::Load
            } else {
                SeatSyncAction::Finish(Err(BillingServiceError::NotConfigured))
            },
            SeatSyncEvent::Loaded(found) => match found {
                Err(e) => SeatSyncAction::Finish(Err(BillingServiceError::Repository(e))),
                Ok(None) => SeatSyncAction::Finish(
                    Err(BillingServiceError::NoSubscription(self.tenant_id.as_str().to_owned())),
                ),
                Ok(Some(sub)) => {
                    let action = match &sub.stripe_subscription_id {
                        Some(id) => sync_with(primitives::subscription_id(id.as_str())),
                        None => SeatSyncAction::Finish(
                            Err(BillingServiceError::NoActiveSubscription),
                        ),
                    };
                    self.record = Some(sub);
                    action
                },
            },
            SeatSyncEvent::Retrieved(Err(e)) => SeatSyncAction::Finish(
                Err(BillingServiceError::Stripe(e)),
            ),
            SeatSyncEvent::Retrieved(Ok(items)) => match &self.record {
                Some(sub) => match &sub.stripe_subscription_id {
                    Some(id) => if items.len() == 0 {
                        SeatSyncAction::Finish(
                            Err(BillingServiceError::Stripe("subscription has no items".to_owned())),
                        )
                    } else {
                        SeatSyncAction::Update {
                            subscription: id.clone(),
                            item: items[0].clone(),
                            quantity: self.active_member_count as u64,
                            proration: Proration::Unstated,
                        }
                    },
                    None => SeatSyncAction::Finish(Err(BillingServiceError::NoActiveSubscription)),
                },
                None => SeatSyncAction::Load,
            },
            SeatSyncEvent::Updated { failure: Some(e), .. } => SeatSyncAction::Finish(
                Err(BillingServiceError::Stripe(e)),
            ),
            SeatSyncEvent::Updated { failure: None, now } => match &self.record {
                Some(sub) => {
                    let mut stored = sub.clone();
                    let previous: u32 = sub.seat_count;
                    stored.seat_count = self.active_member_count;
                    stored.updated_at = now;
                    SeatSyncAction::Store { record: stored, previous }
                },
                None => SeatSyncAction::Load,
            },
            SeatSyncEvent::Stored { failure: Some(e), .. } => SeatSyncAction::Finish(
                Err(BillingServiceError::Repository(e)),
            ),
            SeatSyncEvent::Stored { failure: None, previous } => SeatSyncAction::Finish(
                Ok(previous),
            ),
        }
    }
}

/// What the payment provider keeps with the account of a team.
pub open spec fn team_metadata(tenant_id: Seq<char>, team_id: Seq<char>) -> Seq<
    (Seq<char>, Seq<char>),
> {
    seq![("tenant_id"@, tenant_id), ("team_id"@, team_id), ("tenant_kind"@, "team"@)]
}

/// What the payment provider keeps with the account of a team.
pub fn team_customer_metadata(tenant_id: &TenantId, team_id: &str) -> (r: Vec<(String, String)>)
    ensures
        text::pair_views(r@) == team_metadata(tenant_id@, team_id@),
{
    let mut pairs: Vec<(String, String)> = Vec::new();
    pairs.push(("tenant_id".to_owned(), tenant_id.as_str().to_owned()));
    pairs.push(("team_id".to_owned(), team_id.to_owned()));
    pairs.push(("tenant_kind".to_owned(), "team".to_owned()));
    assert(text::pair_views(pairs@) =~= team_metadata(tenant_id@, team_id@));
    pairs
}

/// The order for an account of a team with the payment provider.
pub struct TeamProvision {
    pub tenant_id: TenantId,
    pub team_id: String,
    pub owner_email: String,
    pub tier: TenantTier,
}

/// What was learnt on the way to the account.
pub enum TeamProvisionEvent {
    /// It begins; and whether there is a payment provider.
    Begun { configured: bool },
    /// The account was asked for, and the time at which it was made.
    Created { made: Result<String, String>, now: Moment },
    /// The record was stored.
    Stored { failure: Option<String>, customer: String },
}

/// What is done next on the way to the account.
pub enum TeamProvisionAction {
    Create { email: String, metadata: Vec<(String, String)> },
    Store { record: TenantSubscription, customer: String },
    /// It is over: with the account.
    Finish(Result<String, BillingServiceError>),
}

/// The mathematical content of what is done next on the way to the account.
pub enum TeamProvisionActionView {
    Create { email: Seq<char>, metadata: Seq<(Seq<char>, Seq<char>)> },
    Store { record: TenantSubscriptionView, customer: Seq<char> },
    Finish(Result<Seq<char>, BillingServiceErrorView>),
}

impl View for TeamProvisionAction {
    type V = TeamProvisionActionView;

    open spec fn view(&self) -> TeamProvisionActionView {
        match self {
            TeamProvisionAction::Create { email, metadata } => TeamProvisionActionView::Create {
                email: email@,
                metadata: text::pair_views(metadata@),
            },
            TeamProvisionAction::Store { record, customer } => TeamProvisionActionView::Store {
                record: record@,
                customer: customer@,
            },
            TeamProvisionAction::Finish(Ok(id)) => TeamProvisionActionView::Finish(Ok(id@)),
            TeamProvisionAction::Finish(Err(e)) => TeamProvisionActionView::Finish(Err(e@)),
        }
    }
}

impl TeamProvision {
    /// The record of a team that has an account and nothing more: one seat, and no
    /// subscription with the payment provider.
    pub open spec fn first_record(self, customer: Seq<char>, now: Moment) -> TenantSubscriptionView {
        TenantSubscriptionView {
            tenant_id: self.tenant_id@,
            stripe_customer_id: customer,
            stripe_subscription_id: None,
            tier: self.tier,
            status: SubscriptionStatus::Unsubscribed,
            current_period_end: None,
            cancel_at_period_end: false,
            created_at: now,
            updated_at: now,
            seat_count: 1,
        }
    }

    /// What is done next. Nothing is stored where the provider makes no account.
    pub open spec fn next(self, event: TeamProvisionEvent) -> TeamProvisionActionView {
        match event {
            TeamProvisionEvent::Begun { configured } => if configured {
                TeamProvisionActionView::Create {
                    email: self.owner_email@,
                    metadata: team_metadata(self.tenant_id@, self.team_id@),
                }
            } else {
                TeamProvisionActionView::Finish(Err(BillingServiceErrorView::NotConfigured))
            },
            TeamProvisionEvent::Created { made: Err(e), .. } => TeamProvisionActionView::Finish(
                Err(BillingServiceErrorView::Stripe(e@)),
            ),
            TeamProvisionEvent::Created { made: Ok(id), now } => TeamProvisionActionView::Store {
                record: self.first_record(id@, now),
                customer: id@,
            },
            TeamProvisionEvent::Stored { failure: Some(e), .. } => TeamProvisionActionView::Finish(
                Err(BillingServiceErrorView::Repository(e@)),
            ),
            TeamProvisionEvent::Stored { failure: None, customer } =>
                TeamProvisionActionView::Finish(Ok(customer@)),
        }
    }
}

/// Decides what is done next on the way to a team's account.
pub fn provision_team_customer(request: &TeamProvision, event: TeamProvisionEvent) -> (action:
    TeamProvisionAction)
    ensures
        action@ == request.next(event),
{
    match event {
        TeamProvisionEvent::Begun { configured } => if configured {
            TeamProvisionAction::Create {
                email: request.owner_email.clone(),
                metadata: team_customer_metadata(&request.tenant_id, request.team_id.as_str()),
            }
        } else {
            TeamProvisionAction::Finish(Err(BillingServiceError::NotConfigured))
        },
        TeamProvisionEvent::Created { made: Err(e), .. } => TeamProvisionAction::Finish(
            Err(BillingServiceError::Stripe(e)),
        ),
        TeamProvisionEvent::Created { made: Ok(id), now } => TeamProvisionAction::Store {
            record: TenantSubscription {
                tenant_id: request.tenant_id.clone(),
                stripe_customer_id: id.clone(),
                stripe_subscription_id: None,
                tier: request.tier,
                status: SubscriptionStatus::Unsubscribed,
                current_period_end: None,
                cancel_at_period_end: false,
                created_at: now,
                updated_at: now,
                seat_count: 1,
            },
            customer: id,
        },
        TeamProvisionEvent::Stored { failure: Some(e), .. } => TeamProvisionAction::Finish(
            Err(BillingServiceError::Repository(e)),
        ),
        TeamProvisionEvent::Stored { failure: None, customer } => TeamProvisionAction::Finish(
            Ok(customer),
        ),
    }
}

/// The end of a team's subscription: the record, once it is known.
pub struct TeamCancel {
    pub record: Option<TenantSubscription>,
}

/// What was learnt on the way to the end of a subscription.
pub enum TeamCancelEvent {
    /// It begins; and whether there is a payment provider.
    Begun { configured: bool },
    /// The record of the tenant was looked up, at the given time.
    Loaded { found: Result<Option<TenantSubscription>, String>, now: Moment },
    /// The provider was told to end the subscription, at the given time.
    Cancelled { failure: Option<String>, now: Moment },
    /// The record was stored.
    Stored { failure: Option<String> },
}

/// What is done next on the way to the end of a subscription.
pub enum TeamCancelAction {
    Load,
    Cancel { subscription: String },
    Store { record: TenantSubscription },
    Finish(Result<(), BillingServiceError>),
}

/// The mathematical content of what is done next on the way to the end of a subscription.
pub enum TeamCancelActionView {
    Load,
    Cancel { subscription: Seq<char> },
    Store { record: TenantSubscriptionView },
    Finish(Result<(), BillingServiceErrorView>),
}

impl View for TeamCancelAction {
    type V = TeamCancelActionView;

    open spec fn view(&self) -> TeamCancelActionView {
        match self {
            TeamCancelAction::Load => TeamCancelActionView::Load,
            TeamCancelAction::Cancel { subscription } => TeamCancelActionView::Cancel {
                subscription: subscription@,
            },
            TeamCancelAction::Store { record } => TeamCancelActionView::Store { record: record@ },
            TeamCancelAction::Finish(Ok(_)) => TeamCancelActionView::Finish(Ok(())),
            TeamCancelAction::Finish(Err(e)) => TeamCancelActionView::Finish(Err(e@)),
        }
    }
}

/// The subscription after it was ended.
pub open spec fn ended(sub: TenantSubscriptionView, now: Moment) -> TenantSubscriptionView {
    TenantSubscriptionView { status: SubscriptionStatus::Canceled, updated_at: now, ..sub }
}

/// The end of the way with a failure, and with nothing stored.
pub open spec fn cancel_fails(e: BillingServiceErrorView) -> TeamCancelActionView {
    TeamCancelActionView::Finish(Err(e))
}

/// What is done once the identifier of the subscription was read as one of the
/// provider's.
pub open spec fn cancel_after(read: Result<Seq<char>, Seq<char>>) -> TeamCancelActionView {
    match read {
        Ok(id) => TeamCancelActionView::Cancel { subscription: id },
        Err(e) => cancel_fails(BillingServiceErrorView::InvalidStripeId(e)),
    }
}

/// What is done once the identifier of the subscription was read as one of the
/// provider's.
pub fn cancel_with(read: Result<String, String>) -> (r: TeamCancelAction)
    ensures
        r@ == cancel_after(
            match read {
                Ok(id) => Ok(id@),
                Err(e) => Err(e@),
            },
        ),
{
    match read {
        Ok(id) => TeamCancelAction::Cancel { subscription: id },
        Err(e) => TeamCancelAction::Finish(Err(BillingServiceError::InvalidStripeId(e))),
    }
}

impl TeamCancel {
    /// What is done next. A tenant without a record has nothing to end, and one without
    /// a subscription with the provider is stored as ended at once. Else the provider is
    /// told first, and nothing is stored where it does not end the subscription.
    pub open spec fn next(self, event: TeamCancelEvent) -> TeamCancelActionView {
        match event {
            TeamCancelEvent::Begun { configured } => if configured {
                TeamCancelActionView::Load
            } else {
                cancel_fails(BillingServiceErrorView::NotConfigured)
            },
            TeamCancelEvent::Loaded { found: Err(e), .. } => cancel_fails(
                BillingServiceErrorView::Repository(e@),
            ),
            TeamCancelEvent::Loaded { found: Ok(None), .. } => TeamCancelActionView::Finish(Ok(())),
            TeamCancelEvent::Loaded { found: Ok(Some(sub)), now } =>
                match sub@.stripe_subscription_id {
                    Some(id) => TeamCancelActionView::Cancel { subscription: id },
                    None => TeamCancelActionView::Store { record: ended(sub@, now) },
                },
            TeamCancelEvent::Cancelled { failure: Some(e), .. } => cancel_fails(
                BillingServiceErrorView::Stripe(e@),
            ),
            TeamCancelEvent::Cancelled { failure: None, now } => match self.record {
                Some(sub) => TeamCancelActionView::Store { record: ended(sub@, now) },
                None => TeamCancelActionView::Load,
            },
            TeamCancelEvent::Stored { failure: Some(e) } => cancel_fails(
                BillingServiceErrorView::Repository(e@),
            ),
            TeamCancelEvent::Stored { failure: None } => TeamCancelActionView::Finish(Ok(())),
        }
    }

    /// The record that is known after an event.
    pub open spec fn record_after(self, event: TeamCancelEvent) -> Option<TenantSubscriptionView> {
        match event {
            TeamCancelEvent::Loaded { found: Ok(Some(sub)), .. } => Some(sub@),
            _ => match self.record {
                Some(sub) => Some(sub@),
                None => None,
            },
        }
    }
}

/// The record as it is stored when the subscription has ended.
fn end_record(sub: &TenantSubscription, now: Moment) -> (r: TenantSubscription)
    ensures
        r@ == ended(sub@, now),
{
    let mut stored = sub.clone();
    stored.status = SubscriptionStatus::Canceled;
    stored.updated_at = now;
    stored
}

/// Decides what is done next to end a team's subscription.
pub fn cancel_team_subscription(cancel: &mut TeamCancel, event: TeamCancelEvent) -> (action:
    TeamCancelAction)
    ensures
        action@ == old(cancel).next(event),
        (match final(cancel).record {
            Some(sub) => Some(sub@),
            None => None,
        }) == old(cancel).record_after(event),
{
    match event {
        TeamCancelEvent::Begun { configured } => if configured {
            TeamCancelAction::Load
        } else {
            TeamCancelAction::Finish(Err(BillingServiceError::NotConfigured))
        },
        TeamCancelEvent::Loaded { found, now } => match found {
            Err(e) => TeamCancelAction::Finish(Err(BillingServiceError::Repository(e))),
            Ok(None) => TeamCancelAction::Finish(Ok(())),
            Ok(Some(sub)) => {
                let action = match &sub.stripe_subscription_id {
                    Some(id) => cancel_with(primitives::subscription_id(id.as_str())),
                    None => TeamCancelAction::Store { record: end_record(&sub, now) },
                };
                cancel.record = Some(sub);
                action
            },
        },
        TeamCancelEvent::Cancelled { failure: Some(e), .. } => TeamCancelAction::Finish(
            Err(BillingServiceError::Stripe(e)),
        ),
        TeamCancelEvent::Cancelled { failure: None, now } => match &cancel.record {
            Some(sub) => TeamCancelAction::Store { record: end_record(sub, now) },
            None => TeamCancelAction::Load,
        },
        TeamCancelEvent::Stored { failure: Some(e) } => TeamCancelAction::Finish(
            Err(BillingServiceError::Repository(e)),
        ),
        TeamCancelEvent::Stored { failure: None } => TeamCancelAction::Finish(Ok(())),
    }
}

/// A subscription is stored as ended only where the provider has ended it, or where the
/// record names none that the provider could end.
pub proof fn law_only_an_ended_subscription_is_stored_as_ended(
    cancel: TeamCancel,
    event: TeamCancelEvent,
)
    ensures
        cancel.next(event) is Store ==> {
            ||| event matches TeamCancelEvent::Cancelled { failure: None, .. }
            ||| (event matches TeamCancelEvent::Loaded { found: Ok(Some(sub)), .. }
                && sub@.stripe_subscription_id is None)
        },
{
}

/// An identifier that is none of the provider's ends the way with that error, whichever
/// way it is: the provider is told nothing, and nothing is stored. One that is the
/// provider's is the one that the provider is asked about.
pub proof fn law_a_foreign_identifier_is_refused(read: Result<Seq<char>, Seq<char>>)
    ensures
        read matches Err(reason) ==> sync_after(read) == sync_fails(
            BillingServiceErrorView::InvalidStripeId(reason),
        ) && cancel_after(read) == cancel_fails(BillingServiceErrorView::InvalidStripeId(reason)),
        read matches Ok(id) ==> sync_after(read) == (SeatSyncActionView::Retrieve {
            subscription: id,
        }) && cancel_after(read) == (TeamCancelActionView::Cancel { subscription: id }),
{
}

/// Setting seats touches nothing of a subscription but its seats and the time.
pub proof fn law_seats_change_nothing_else(sub: TenantSubscriptionView, seats: u32, now: Moment)
    ensures
        with_seats(sub, seats, now).seat_count == seats,
        with_seats(with_seats(sub, seats, now), sub.seat_count, sub.updated_at) == sub,
{
}

/// The seats of a team follow its members: the first item of the subscription is set to the
/// number of active members, and the record is stored with it once the provider took it.
pub proof fn law_seats_follow_the_active_members(
    sync: SeatSync,
    sub: TenantSubscription,
    id: Seq<char>,
    items: Vec<String>,
    now: Moment,
    previous: u32,
)
    requires
        sync.record == Some(sub),
        sub@.stripe_subscription_id == Some(id),
    ensures
        sync.next(SeatSyncEvent::Loaded(Ok(Some(sub)))) == (SeatSyncActionView::Retrieve {
            subscription: id,
        }),
        items@.len() > 0 ==> (sync.next(
            SeatSyncEvent::Retrieved(Ok(items)),
        ) matches SeatSyncActionView::Update { subscription, item, quantity, .. } && subscription
            == id && item == items@[0]@ && quantity == sync.active_member_count),
        items@.len() == 0 ==> (sync.next(
            SeatSyncEvent::Retrieved(Ok(items)),
        ) matches SeatSyncActionView::Finish(Err(_))),
        ({
            &&& sync.next(
                SeatSyncEvent::Updated { failure: None, now },
            ) matches SeatSyncActionView::Store { record, previous: before }
            &&& record.seat_count == sync.active_member_count
            &&& record.updated_at == now
            &&& record.tenant_id == sub@.tenant_id
            &&& record.tier == sub@.tier
            &&& before == sub.seat_count
        }),
        sync.next(SeatSyncEvent::Stored { failure: None, previous }) == SeatSyncActionView::Finish(
            Ok(previous),
        ),
{
}

/// Whatever stands in the way of the seats is told: no provider, no record, no
/// subscription, and what the provider or the store says.
pub proof fn law_failures_of_the_seats_are_told(
    sync: SeatSync,
    sub: TenantSubscription,
    e: String,
    now: Moment,
    previous: u32,
)
    ensures
        sync.next(SeatSyncEvent::Begun { configured: true }) is Load,
        sync.next(SeatSyncEvent::Begun { configured: false }) == sync_fails(
            BillingServiceErrorView::NotConfigured,
        ),
        sync.next(SeatSyncEvent::Loaded(Ok(None))) == sync_fails(
            BillingServiceErrorView::NoSubscription(sync.tenant_id@),
        ),
        sub@.stripe_subscription_id is None ==> sync.next(SeatSyncEvent::Loaded(Ok(Some(sub))))
            == sync_fails(BillingServiceErrorView::NoActiveSubscription),
        sync.next(SeatSyncEvent::Loaded(Err(e))) == sync_fails(
            BillingServiceErrorView::Repository(e@),
        ),
        sync.next(SeatSyncEvent::Retrieved(Err(e))) == sync_fails(
            BillingServiceErrorView::Stripe(e@),
        ),
        sync.next(SeatSyncEvent::Updated { failure: Some(e), now }) == sync_fails(
            BillingServiceErrorView::Stripe(e@),
        ),
        sync.next(SeatSyncEvent::Stored { failure: Some(e), previous }) == sync_fails(
            BillingServiceErrorView::Repository(e@),
        ),
{
}

/// A team gets a customer of its owner's address, marked as the team's; its first record is
/// of that customer, of the team's tier, with one seat and no subscription yet.
pub proof fn law_a_team_gets_a_customer(
    order: TeamProvision,
    customer: String,
    now: Moment,
    e: String,
)
    ensures
        ({
            &&& order.next(
                TeamProvisionEvent::Begun { configured: true },
            ) matches TeamProvisionActionView::Create { email, metadata }
            &&& email == order.owner_email@
            &&& metadata.contains(("tenant_id"@, order.tenant_id@))
            &&& metadata.contains(("team_id"@, order.team_id@))
            &&& metadata.contains(("tenant_kind"@, "team"@))
        }),
        order.next(TeamProvisionEvent::Begun { configured: false })
            == TeamProvisionActionView::Finish(Err(BillingServiceErrorView::NotConfigured)),
        ({
            &&& order.next(
                TeamProvisionEvent::Created { made: Ok(customer), now },
            ) matches TeamProvisionActionView::Store { record, customer: told }
            &&& told == customer@
            &&& record.tenant_id == order.tenant_id@
            &&& record.stripe_customer_id == customer@
            &&& record.stripe_subscription_id is None
            &&& record.tier == order.tier
            &&& record.status == SubscriptionStatus::Unsubscribed
            &&& record.seat_count == 1
            &&& record.created_at == now && record.updated_at == now
        }),
        order.next(TeamProvisionEvent::Stored { failure: None, customer })
            == TeamProvisionActionView::Finish(Ok(customer@)),
        order.next(TeamProvisionEvent::Created { made: Err(e), now })
            == TeamProvisionActionView::Finish(Err(BillingServiceErrorView::Stripe(e@))),
        order.next(TeamProvisionEvent::Stored { failure: Some(e), customer })
            == TeamProvisionActionView::Finish(Err(BillingServiceErrorView::Repository(e@))),
{
    let metadata = team_metadata(order.tenant_id@, order.team_id@);
    assert(metadata[0] == ("tenant_id"@, order.tenant_id@));
    assert(metadata[1] == ("team_id"@, order.team_id@));
    assert(metadata[2] == ("tenant_kind"@, "team"@));
}

/// A team's subscription is ended with the provider and stored as cancelled, with all else
/// as it was; a tenant without one has nothing to end.
pub proof fn law_an_ended_subscription_is_cancelled(
    cancel: TeamCancel,
    sub: TenantSubscription,
    id: Seq<char>,
    now: Moment,
    e: String,
)
    requires
        cancel.record == Some(sub),
    ensures
        cancel.next(TeamCancelEvent::Begun { configured: true }) is Load,
        cancel.next(TeamCancelEvent::Begun { configured: false }) == cancel_fails(
            BillingServiceErrorView::NotConfigured,
        ),
        sub@.stripe_subscription_id == Some(id) ==> cancel.next(
            TeamCancelEvent::Loaded { found: Ok(Some(sub)), now },
        ) == (TeamCancelActionView::Cancel { subscription: id }),
        sub@.stripe_subscription_id is None ==> (cancel.next(
            TeamCancelEvent::Loaded { found: Ok(Some(sub)), now },
        ) matches TeamCancelActionView::Store { record } && record.status
            == SubscriptionStatus::Canceled),
        cancel.next(TeamCancelEvent::Loaded { found: Ok(None), now })
            == TeamCancelActionView::Finish(Ok(())),
        ({
            &&& cancel.next(
                TeamCancelEvent::Cancelled { failure: None, now },
            ) matches TeamCancelActionView::Store { record }
            &&& record.status == SubscriptionStatus::Canceled
            &&& record.updated_at == now
            &&& record.tier == sub@.tier && record.seat_count == sub@.seat_count
            &&& record.tenant_id == sub@.tenant_id
            &&& record.stripe_customer_id == sub@.stripe_customer_id
            &&& record.stripe_subscription_id == sub@.stripe_subscription_id
        }),
        cancel.next(TeamCancelEvent::Cancelled { failure: Some(e), now }) == cancel_fails(
            BillingServiceErrorView::Stripe(e@),
        ),
        cancel.next(TeamCancelEvent::Stored { failure: None }) == TeamCancelActionView::Finish(
            Ok(()),
        ),
        cancel.next(TeamCancelEvent::Stored { failure: Some(e) }) == cancel_fails(
            BillingServiceErrorView::Repository(e@),
        ),
{
}

/// The record that was loaded is known from that moment on, whatever comes after it.
pub proof fn law_loaded_records_stay_known(
    sync: SeatSync,
    cancel: TeamCancel,
    sub: TenantSubscription,
    now: Moment,
    other: SeatSyncEvent,
    later: TeamCancelEvent,
)
    requires
        !(other is Loaded),
        !(later is Loaded),
    ensures
        sync.record_after(SeatSyncEvent::Loaded(Ok(Some(sub)))) == Some(sub@),
        sync.record == Some(sub) ==> sync.record_after(other) == Some(sub@),
        sync.record is None ==> sync.record_after(other) is None,
        cancel.record_after(TeamCancelEvent::Loaded { found: Ok(Some(sub)), now }) == Some(sub@),
        cancel.record == Some(sub) ==> cancel.record_after(later) == Some(sub@),
        cancel.record is None ==> cancel.record_after(later) is None,
{
}

} // verus!
