//! Tiers, subscriptions and teams.

use crate::identity::TenantId;
use crate::operator_read_models::Moment;
use crate::text;
use vstd::prelude::*;

verus! {

/// The tier of a tenant.
#[derive(Clone, Copy, PartialEq, Eq, Structural, Debug)]
pub enum TenantTier {
    Free,
    Pro,
    Business,
    Enterprise,
    System,
}

impl TenantTier {
    /// The name of a tier, as claims and metadata carry it.
    pub open spec fn name(self) -> Seq<char> {
        match self {
            TenantTier::Free => "free"@,
            TenantTier::Pro => "pro"@,
            TenantTier::Business => "business"@,
            TenantTier::Enterprise => "enterprise"@,
            TenantTier::System => "system"@,
        }
    }

    /// The name of the tier, as claims and metadata carry it.
    pub fn as_keycloak_str(&self) -> (r: &'static str)
        ensures
            r@ == self.name(),
    {
        match self {
            TenantTier::Free => "free",
            TenantTier::Pro => "pro",
            TenantTier::Business => "business",
            TenantTier::Enterprise => "enterprise",
            TenantTier::System => "system",
        }
    }

    /// The tier with the given name: the free one for any other name.
    pub open spec fn named(name: Seq<char>) -> TenantTier {
        if name == "pro"@ {
            TenantTier::Pro
        } else if name == "business"@ {
            TenantTier::Business
        } else if name == "enterprise"@ {
            TenantTier::Enterprise
        } else if name == "system"@ {
            TenantTier::System
        } else {
            TenantTier::Free
        }
    }

    /// Whether a tenant of the tier may own a colony.
    pub open spec fn colony_allowed(self) -> bool {
        self == TenantTier::Business || self == TenantTier::Enterprise
    }

    /// Whether a tenant of the tier may own a colony.
    pub fn allows_colony(&self) -> (r: bool)
        ensures
            r == self.colony_allowed(),
    {
        match self {
            TenantTier::Business => true,
            TenantTier::Enterprise => true,
            _ => false,
        }
    }

    /// The seats that the tier includes.
    pub open spec fn seats(self) -> u32 {
        match self {
            TenantTier::Business => 5,
            TenantTier::Enterprise => 10,
            _ => 0,
        }
    }

    /// The seats that the tier includes.
    pub fn included_seats(&self) -> (r: u32)
        ensures
            r == self.seats(),
    {
        match self {
            TenantTier::Business => 5,
            TenantTier::Enterprise => 10,
            _ => 0,
        }
    }
}

/// Reading a tier's name back gives the tier.
pub proof fn law_tier_name_round_trip(tier: TenantTier)
    ensures
        TenantTier::named(tier.name()) == tier,
{
    reveal_strlit("free");
    reveal_strlit("pro");
    reveal_strlit("business");
    reveal_strlit("enterprise");
    reveal_strlit("system");
    assert("free"@[0] == 'f' && "pro"@[0] == 'p' && "business"@[0] == 'b' && "enterprise"@[0] == 'e'
        && "system"@[0] == 's');
}

/// Where a subscription stands.
#[derive(Clone, Copy, PartialEq, Eq, Structural, Debug)]
pub enum SubscriptionStatus {
    /// There is a billing account but no subscription.
    Unsubscribed,
    Active,
    Trialing,
    PastDue,
    Canceled,
    /// Any other status that the payment provider reports.
    Other,
}

/// A tenant's subscription, as it is stored.
pub struct TenantSubscription {
    pub tenant_id: TenantId,
    pub stripe_customer_id: String,
    pub stripe_subscription_id: Option<String>,
    pub tier: TenantTier,
    pub status: SubscriptionStatus,
    pub current_period_end: Option<Moment>,
    pub cancel_at_period_end: bool,
    pub created_at: Moment,
    pub updated_at: Moment,
    pub seat_count: u32,
}

/// The mathematical content of a subscription.
pub struct TenantSubscriptionView {
    pub tenant_id: Seq<char>,
    pub stripe_customer_id: Seq<char>,
    pub stripe_subscription_id: Option<Seq<char>>,
    pub tier: TenantTier,
    pub status: SubscriptionStatus,
    pub current_period_end: Option<Moment>,
    pub cancel_at_period_end: bool,
    pub created_at: Moment,
    pub updated_at: Moment,
    pub seat_count: u32,
}

impl View for TenantSubscription {
    type V = TenantSubscriptionView;

    open spec fn view(&self) -> TenantSubscriptionView {
        TenantSubscriptionView {
            tenant_id: self.tenant_id@,
            stripe_customer_id: self.stripe_customer_id@,
            stripe_subscription_id: text::opt_view(self.stripe_subscription_id),
            tier: self.tier,
            status: self.status,
            current_period_end: self.current_period_end,
            cancel_at_period_end: self.cancel_at_period_end,
            created_at: self.created_at,
            updated_at: self.updated_at,
            seat_count: self.seat_count,
        }
    }
}

impl Clone for TenantSubscription {
    fn clone(&self) -> (r: Self)
        ensures
            r@ == self@,
    {
        TenantSubscription {
            tenant_id: self.tenant_id.clone(),
            stripe_customer_id: self.stripe_customer_id.clone(),
            stripe_subscription_id: match &self.stripe_subscription_id {
                Some(id) => Some(id.clone()),
                None => None,
            },
            tier: self.tier,
            status: self.status,
            current_period_end: self.current_period_end,
            cancel_at_period_end: self.cancel_at_period_end,
            created_at: self.created_at,
            updated_at: self.updated_at,
            seat_count: self.seat_count,
        }
    }
}

/// The view of an optional subscription.
pub open spec fn opt_subscription(s: Option<TenantSubscription>) -> Option<TenantSubscriptionView> {
    match s {
        Some(s) => Some(s@),
        None => None,
    }
}

/// Where a team stands.
#[derive(Clone, Copy, PartialEq, Eq, Structural, Debug)]
pub enum TeamStatus {
    Active,
    Suspended,
    Deleted,
}

/// The tiers go by their names, and every other name stands for the free tier.
pub proof fn law_tiers_go_by_their_names(name: Seq<char>, tier: TenantTier)
    ensures
        TenantTier::named(name) == TenantTier::Pro <==> name == "pro"@,
        TenantTier::named(name) == TenantTier::Business <==> name == "business"@,
        TenantTier::named(name) == TenantTier::Enterprise <==> name == "enterprise"@,
        TenantTier::named(name) == TenantTier::System <==> name == "system"@,
        tier.name() == "free"@ <==> tier == TenantTier::Free,
{
    reveal_strlit("free");
    reveal_strlit("pro");
    reveal_strlit("business");
    reveal_strlit("enterprise");
    reveal_strlit("system");
    assert("free"@[0] == 'f' && "pro"@[0] == 'p' && "business"@[0] == 'b' && "enterprise"@[0] == 'e'
        && "system"@[0] == 's');
}

/// Only the tiers that allow a colony include seats: five with one, ten with the other.
pub proof fn law_seats_come_with_a_colony(tier: TenantTier)
    ensures
        tier.colony_allowed() <==> tier.seats() > 0,
        tier.seats() == 5 <==> tier == TenantTier::Business,
        tier.seats() == 10 <==> tier == TenantTier::Enterprise,
        tier.seats() == 0 || tier.seats() == 5 || tier.seats() == 10,
{
}

} // verus!
