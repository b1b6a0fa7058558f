//! Which tier a product, a price or a subscription stands for, and where a change
//! of tier has to be carried.

use crate::identity::TenantId;
use crate::json::{Json, JsonView};
use crate::tenancy::{TeamStatus, TenantTier};
use crate::text;
use vstd::prelude::*;

verus! {

/// The tier of a base product and the seats it includes. Seat add-ons are no base
/// products.
pub open spec fn base_tier(name: Seq<char>) -> Option<(Seq<char>, u32)> {
    if text::occurs("Extra Seat"@, name) {
        None
    } else if "Zaru Pro"@.is_prefix_of(name) {
        Some(("pro"@, 0u32))
    } else if "Zaru Business"@.is_prefix_of(name) {
        Some(("business"@, 5u32))
    } else if "Zaru Enterprise"@.is_prefix_of(name) {
        Some(("enterprise"@, 10u32))
    } else {
        None
    }
}

/// The tier of a base product, by its name, and the seats it includes.
pub fn product_name_to_tier(name: &str) -> (r: Option<(&'static str, u32)>)
    ensures
        (match r {
            Some((tier, seats)) => Some((tier@, seats)),
            None => None,
        }) == base_tier(name@),
{
    if text::contains(name, "Extra Seat") {
        return None;
    }
    if text::starts_with(name, "Zaru Pro") {
        Some(("pro", 0))
    } else if text::starts_with(name, "Zaru Business") {
        Some(("business", 5))
    } else if text::starts_with(name, "Zaru Enterprise") {
        Some(("enterprise", 10))
    } else {
        None
    }
}

/// The tier of a seat add-on. Only tiers with a colony have one.
pub open spec fn seat_tier(name: Seq<char>) -> Option<Seq<char>> {
    if !text::occurs("Extra Seat"@, name) {
        None
    } else if "Zaru Business"@.is_prefix_of(name) {
        Some("business"@)
    } else if "Zaru Enterprise"@.is_prefix_of(name) {
        Some("enterprise"@)
    } else {
        None
    }
}

/// The tier of a seat add-on, by its product's name.
pub fn seat_product_tier(name: &str) -> (r: Option<&'static str>)
    ensures
        text::opt_str_view(r) == seat_tier(name@),
{
    if !text::contains(name, "Extra Seat") {
        return None;
    }
    if text::starts_with(name, "Zaru Business") {
        Some("business")
    } else if text::starts_with(name, "Zaru Enterprise") {
        Some("enterprise")
    } else {
        None
    }
}

/// The seats that a tier includes, by its name.
pub open spec fn seats_included(tier: Seq<char>) -> u32 {
    if tier == "business"@ {
        5
    } else if tier == "enterprise"@ {
        10
    } else {
        0
    }
}

/// The seats that a tier includes, by its name.
pub fn included_seats_for_tier(tier: &str) -> (r: u32)
    ensures
        r == seats_included(tier@),
{
    if text::str_eq(tier, "business") {
        TenantTier::Business.included_seats()
    } else if text::str_eq(tier, "enterprise") {
        TenantTier::Enterprise.included_seats()
    } else {
        0
    }
}

/// The text at `price.metadata.<key>` of a subscription item.
pub open spec fn price_metadata(item: JsonView, key: Seq<char>) -> Option<Seq<char>> {
    match item.get("price"@) {
        Some(price) => match price.get("metadata"@) {
            Some(metadata) => metadata.get_str(key),
            None => None,
        },
        None => None,
    }
}

fn price_metadata_of<'a>(item: &'a Json, key: &str) -> (r: Option<&'a str>)
    ensures
        text::opt_str_view(r) == price_metadata(item@, key@),
{
    match item.get("price") {
        Some(price) => match price.get("metadata") {
            Some(metadata) => metadata.get_str(key),
            None => None,
        },
        None => None,
    }
}

/// The text at `price.recurring.interval` of a subscription item.
pub open spec fn price_interval(item: JsonView) -> Option<Seq<char>> {
    match item.get("price"@) {
        Some(price) => match price.get("recurring"@) {
            Some(recurring) => recurring.get_str("interval"@),
            None => None,
        },
        None => None,
    }
}

/// Whether a subscription item is a seat add-on.
pub open spec fn is_seat_item(item: JsonView) -> bool {
    price_metadata(item, "kind"@) == Some("seat"@)
}

/// The tier and the billing interval of a seat add-on.
pub open spec fn seat_item_tier(item: JsonView) -> Option<(Seq<char>, Seq<char>)> {
    if is_seat_item(item) && price_metadata(item, "tier"@) is Some && price_interval(item) is Some {
        Some((price_metadata(item, "tier"@)->Some_0, price_interval(item)->Some_0))
    } else {
        None
    }
}

/// The tier and the billing interval of a seat add-on.
pub fn tier_for_seat_item(item: &Json) -> (r: Option<(String, String)>)
    ensures
        (match r {
            Some((tier, interval)) => Some((tier@, interval@)),
            None => None,
        }) == seat_item_tier(item@),
{
    if !item_is_seat_addon(item) {
        return None;
    }
    let tier = match price_metadata_of(item, "tier") {
        Some(t) => t,
        None => {
            return None;
        },
    };
    match item.get("price") {
        Some(price) => match price.get("recurring") {
            Some(recurring) => match recurring.get_str("interval") {
                Some(interval) => Some((tier.to_owned(), interval.to_owned())),
                None => None,
            },
            None => None,
        },
        None => None,
    }
}

/// Whether a subscription item is a seat add-on.
pub fn item_is_seat_addon(item: &Json) -> (r: bool)
    ensures
        r == is_seat_item(item@),
{
    text::opt_eq(price_metadata_of(item, "kind"), "seat")
}

/// The name of a tier.
pub fn tier_to_str(tier: &TenantTier) -> (r: &'static str)
    ensures
        r@ == tier.name(),
{
    tier.as_keycloak_str()
}

/// The tier with the given name: the free one for any other name.
pub fn str_to_tier(s: &str) -> (r: TenantTier)
    ensures
        r == TenantTier::named(s@),
{
    if text::str_eq(s, "pro") {
        TenantTier::Pro
    } else if text::str_eq(s, "business") {
        TenantTier::Business
    } else if text::str_eq(s, "enterprise") {
        TenantTier::Enterprise
    } else if text::str_eq(s, "system") {
        TenantTier::System
    } else {
        TenantTier::Free
    }
}

/// The items of a subscription.
pub open spec fn subscription_items(subscription: JsonView) -> Option<Seq<JsonView>> {
    match subscription.get("items"@) {
        Some(items) => match items.get("data"@) {
            Some(data) => data.as_array(),
            None => None,
        },
        None => None,
    }
}

/// The items of a subscription.
pub fn items_of(subscription: &Json) -> (r: Option<&Vec<Json>>)
    ensures
        match r {
            Some(v) => subscription_items(subscription@) == Some(crate::json::json_views(v@)),
            None => subscription_items(subscription@) is None,
        },
{
    match subscription.get("items") {
        Some(items) => match items.get("data") {
            Some(data) => data.as_array(),
            None => None,
        },
        None => None,
    }
}

/// The tier in a subscription's own metadata.
pub open spec fn metadata_tier(subscription: JsonView) -> Option<Seq<char>> {
    match subscription.get("metadata"@) {
        Some(metadata) => metadata.get_str("tier"@),
        None => None,
    }
}

/// The tier that a subscription names: in its own metadata, or else in that of its
/// first item's price.
pub open spec fn subscription_tier(subscription: JsonView) -> Option<TenantTier> {
    match metadata_tier(subscription) {
        Some(name) => Some(TenantTier::named(name)),
        None => match subscription_items(subscription) {
            Some(items) => if items.len() > 0 && price_metadata(items[0], "tier"@) is Some {
                Some(TenantTier::named(price_metadata(items[0], "tier"@)->Some_0))
            } else {
                None
            },
            None => None,
        },
    }
}

/// The tier that a subscription names.
pub fn extract_tier_from_subscription(obj: &Json) -> (r: Option<TenantTier>)
    ensures
        r == subscription_tier(obj@),
{
    if let Some(metadata) = obj.get("metadata") {
        if let Some(name) = metadata.get_str("tier") {
            return Some(str_to_tier(name));
        }
    }
    match items_of(obj) {
        Some(items) => {
            if items.len() > 0 {
                match price_metadata_of(&items[0], "tier") {
                    Some(name) => Some(str_to_tier(name)),
                    None => None,
                }
            } else {
                None
            }
        },
        None => None,
    }
}

/// Whether a character is a hexadecimal digit.
pub open spec fn is_hex_char(c: char) -> bool {
    ('0' <= c && c <= '9') || ('a' <= c && c <= 'f') || ('A' <= c && c <= 'F')
}

/// The subject of the user that a personal tenant belongs to: of a tenant `u-` and
/// thirty-two hexadecimal digits, and of no other.
pub open spec fn personal_tenant_sub(tenant: Seq<char>) -> Option<Seq<char>> {
    if "u-"@.is_prefix_of(tenant) {
        let digits = tenant.skip("u-"@.len() as int);
        if digits.len() == 32 && forall|i: int|
            0 <= i < digits.len() ==> is_hex_char(#[trigger] digits[i]) {
            Some(text::hyphenated(digits))
        } else {
            None
        }
    } else {
        None
    }
}

/// The subject of the user that a personal tenant belongs to.
pub fn consumer_tenant_id_to_user_sub(tenant_id: &TenantId) -> (r: Option<String>)
    ensures
        text::opt_view(r) == personal_tenant_sub(tenant_id@),
{
    let rest = match text::strip_prefix(tenant_id.as_str(), "u-") {
        Some(r) => r,
        None => {
            return None;
        },
    };
    let digits = text::chars_of(rest.as_str());
    if digits.len() != 32 {
        return None;
    }
    let mut i: usize = 0;
    while i < 32
        invariant
            i <= 32,
            digits@.len() == 32,
            digits@ == tenant_id@.skip("u-"@.len() as int),
            forall|j: int| 0 <= j < i ==> is_hex_char(#[trigger] digits@[j]),
        decreases 32 - i,
    {
        let c = digits[i];
        if !(('0' <= c && c <= '9') || ('a' <= c && c <= 'f') || ('A' <= c && c <= 'F')) {
            assert(!is_hex_char(digits@[i as int]));
            return None;
        }
        i += 1;
    }
    let sub = text::string_of(&digits, 0, 8).concat("-").concat(
        text::string_of(&digits, 8, 12).as_str(),
    ).concat("-").concat(text::string_of(&digits, 12, 16).as_str()).concat("-").concat(
        text::string_of(&digits, 16, 20).as_str(),
    ).concat("-").concat(text::string_of(&digits, 20, 32).as_str());
    Some(sub)
}

/// Where a change of a tenant's tier has to be carried.
pub enum TierSync {
    /// The user's effective tier is computed anew.
    RecomputeUser { user_sub: String },
    /// No identity provider is there to write to.
    NoIdentityProvider,
    /// The tenant is the one that all consumers share: nothing is written.
    SharedTenant,
    /// The tier is written to one user.
    SetUser { realm: String, user_sub: String, tier: &'static str },
    /// The tier is written to every user of a realm.
    SetRealm { realm: String, tier: &'static str },
}

/// The mathematical content of such a plan.
pub enum TierSyncView {
    RecomputeUser { user_sub: Seq<char> },
    NoIdentityProvider,
    SharedTenant,
    SetUser { realm: Seq<char>, user_sub: Seq<char>, tier: Seq<char> },
    SetRealm { realm: Seq<char>, tier: Seq<char> },
}

impl View for TierSync {
    type V = TierSyncView;

    open spec fn view(&self) -> TierSyncView {
        match self {
            TierSync::RecomputeUser { user_sub } => TierSyncView::RecomputeUser {
                user_sub: user_sub@,
            },
            TierSync::NoIdentityProvider => TierSyncView::NoIdentityProvider,
            TierSync::SharedTenant => TierSyncView::SharedTenant,
            TierSync::SetUser { realm, user_sub, tier } => TierSyncView::SetUser {
                realm: realm@,
                user_sub: user_sub@,
                tier: tier@,
            },
            TierSync::SetRealm { realm, tier } => TierSyncView::SetRealm {
                realm: realm@,
                tier: tier@,
            },
        }
    }
}

/// Where a tier is written directly, past the effective-tier service.
pub open spec fn direct_sync(
    tenant: Seq<char>,
    tier: TenantTier,
    identity_provider: bool,
) -> TierSyncView {
    if !identity_provider {
        TierSyncView::NoIdentityProvider
    } else if tenant == "zaru-consumer"@ {
        TierSyncView::SharedTenant
    } else {
        match personal_tenant_sub(tenant) {
            Some(user_sub) => TierSyncView::SetUser {
                realm: "zaru-consumer"@,
                user_sub,
                tier: tier.name(),
            },
            None => TierSyncView::SetRealm { realm: "tenant-"@ + tenant, tier: tier.name() },
        }
    }
}

/// Where a change of a tenant's tier has to be carried: the personal tenants go
/// through the effective-tier service where it is there.
pub open spec fn tier_sync_plan(
    tenant: Seq<char>,
    tier: TenantTier,
    effective_tier_service: bool,
    identity_provider: bool,
) -> TierSyncView {
    match personal_tenant_sub(tenant) {
        Some(user_sub) if effective_tier_service => TierSyncView::RecomputeUser { user_sub },
        _ => direct_sync(tenant, tier, identity_provider),
    }
}

/// Where a tier is written directly.
pub fn sync_tier_to_keycloak(tenant_id: &TenantId, tier: &TenantTier, identity_provider: bool) -> (r:
    TierSync)
    ensures
        r@ == direct_sync(tenant_id@, *tier, identity_provider),
{
    if !identity_provider {
        return TierSync::NoIdentityProvider;
    }
    if text::str_eq(tenant_id.as_str(), "zaru-consumer") {
        return TierSync::SharedTenant;
    }
    match consumer_tenant_id_to_user_sub(tenant_id) {
        Some(user_sub) => TierSync::SetUser {
            realm: "zaru-consumer".to_owned(),
            user_sub,
            tier: tier_to_str(tier),
        },
        None => TierSync::SetRealm {
            realm: "tenant-".to_owned().concat(tenant_id.as_str()),
            tier: tier_to_str(tier),
        },
    }
}

/// Where a change of a tenant's tier has to be carried.
pub fn sync_tier(
    tenant_id: &TenantId,
    tier: &TenantTier,
    effective_tier_service: bool,
    identity_provider: bool,
) -> (r: TierSync)
    ensures
        r@ == tier_sync_plan(tenant_id@, *tier, effective_tier_service, identity_provider),
{
    if let Some(user_sub) = consumer_tenant_id_to_user_sub(tenant_id) {
        if effective_tier_service {
            return TierSync::RecomputeUser { user_sub };
        }
    }
    sync_tier_to_keycloak(tenant_id, tier, identity_provider)
}

/// What becomes of a team when its tenant's tier changes.
#[derive(Clone, Copy, PartialEq, Eq, Structural, Debug)]
pub enum TeamTransition {
    Suspend,
    Resume,
    Keep,
}

/// What becomes of a team under a tier: it is suspended where the tier allows no
/// colony, and resumed where it does.
pub open spec fn team_transition(status: TeamStatus, tier: TenantTier) -> TeamTransition {
    if !tier.colony_allowed() && status == TeamStatus::Active {
        TeamTransition::Suspend
    } else if tier.colony_allowed() && status == TeamStatus::Suspended {
        TeamTransition::Resume
    } else {
        TeamTransition::Keep
    }
}

/// The status of a team after a transition.
pub open spec fn status_after(status: TeamStatus, transition: TeamTransition) -> TeamStatus {
    match transition {
        TeamTransition::Suspend => TeamStatus::Suspended,
        TeamTransition::Resume => TeamStatus::Active,
        TeamTransition::Keep => status,
    }
}

/// Whether a tenant is a team's.
pub open spec fn is_team_tenant(tenant: Seq<char>) -> bool {
    "t-"@.is_prefix_of(tenant)
}

/// What is done about a team.
#[derive(Clone, Copy, PartialEq, Eq, Structural, Debug)]
pub enum TeamEffect {
    /// Its status becomes the given one.
    Save(TeamStatus),
    /// The tiers of its members are computed anew.
    RecomputeMembers,
}

/// What has to be done about a tenant's team when the tenant's tier changes: each thing
/// in its order, and on the team that was found.
pub struct TeamPlan {
    pub team_id: String,
    pub effects: Vec<TeamEffect>,
}

/// The effects of a transition. The members' tiers are computed anew in any case, and
/// after the team's status was brought in line.
pub open spec fn team_effects(status: TeamStatus, tier: TenantTier) -> Seq<TeamEffect> {
    match team_transition(status, tier) {
        TeamTransition::Keep => seq![TeamEffect::RecomputeMembers],
        changed => seq![
            TeamEffect::Save(status_after(status, changed)),
            TeamEffect::RecomputeMembers,
        ],
    }
}

/// Whether a team has to be looked up when a tenant's tier changes.
pub fn needs_team(tenant_id: &TenantId) -> (r: bool)
    ensures
        r == is_team_tenant(tenant_id@),
{
    text::starts_with(tenant_id.as_str(), "t-")
}

/// What has to be done about a tenant's team when the tenant's tier changes: nothing
/// where the tenant is no team's, or where the team was not found. `team` is the
/// identifier and the status of the team that was found, where one was.
pub fn reconcile_team_suspension(
    tenant_id: &TenantId,
    tier: &TenantTier,
    team: Option<(String, TeamStatus)>,
) -> (r: Option<TeamPlan>)
    ensures
        match team {
            Some((id, status)) if is_team_tenant(tenant_id@) => r matches Some(plan)
                && plan.team_id == id && plan.effects@ == team_effects(status, *tier),
            _ => r is None,
        },
{
    if !needs_team(tenant_id) {
        return None;
    }
    match team {
        Some((team_id, status)) => {
            let allows = tier.allows_colony();
            let mut effects: Vec<TeamEffect> = Vec::new();
            if !allows && status == TeamStatus::Active {
                effects.push(TeamEffect::Save(TeamStatus::Suspended));
            } else if allows && status == TeamStatus::Suspended {
                effects.push(TeamEffect::Save(TeamStatus::Active));
            }
            effects.push(TeamEffect::RecomputeMembers);
            assert(effects@ =~= team_effects(status, *tier));
            Some(TeamPlan { team_id, effects })
        },
        None => None,
    }
}

/// Whatever a change of a tier does to a team, the tiers of the team's members are
/// computed anew once, and last.
pub proof fn law_members_follow_their_team(status: TeamStatus, tier: TenantTier)
    ensures
        team_effects(status, tier).len() > 0,
        team_effects(status, tier).last() == TeamEffect::RecomputeMembers,
        forall|i: int|
            0 <= i < team_effects(status, tier).len() - 1 ==> #[trigger] team_effects(
                status,
                tier,
            )[i] == TeamEffect::Save(status_after(status, team_transition(status, tier))),
{
}

/// No product is both a base product and a seat add-on.
pub proof fn law_products_are_base_or_seat(name: Seq<char>)
    ensures
        base_tier(name) is None || seat_tier(name) is None,
{
}

/// The tier that a base product's name gives is one of the names that tiers have,
/// and includes the seats that the tier includes.
pub proof fn law_product_seats_agree(name: Seq<char>)
    requires
        base_tier(name) is Some,
    ensures
        base_tier(name)->Some_0.1 == seats_included(base_tier(name)->Some_0.0),
        TenantTier::named(base_tier(name)->Some_0.0).seats() == base_tier(name)->Some_0.1,
{
    reveal_strlit("pro");
    reveal_strlit("business");
    reveal_strlit("enterprise");
    reveal_strlit("system");
    assert("pro"@[0] == 'p' && "business"@[0] == 'b' && "enterprise"@[0] == 'e' && "system"@[0]
        == 's');
}

/// Bringing a team in line with a tier is done once: a second time changes nothing.
/// A team that is neither active nor suspended is left alone.
pub proof fn law_suspension_is_idempotent(status: TeamStatus, tier: TenantTier)
    ensures
        team_transition(status_after(status, team_transition(status, tier)), tier)
            == TeamTransition::Keep,
        status == TeamStatus::Deleted ==> team_transition(status, tier) == TeamTransition::Keep,
{
}

/// A downgrade below a colony tier followed by an upgrade to one leaves an active
/// team active.
pub proof fn law_resume_undoes_suspend(down: TenantTier, up: TenantTier)
    requires
        !down.colony_allowed(),
        up.colony_allowed(),
    ensures
        status_after(TeamStatus::Active, team_transition(TeamStatus::Active, down))
            == TeamStatus::Suspended,
        status_after(TeamStatus::Suspended, team_transition(TeamStatus::Suspended, up))
            == TeamStatus::Active,
{
}

/// Whether `s` has the form of a UUID: thirty-two hexadecimal digits in five groups.
pub open spec fn is_uuid_text(s: Seq<char>) -> bool {
    &&& s.len() == 36
    &&& forall|i: int|
        0 <= i < 36 ==> if i == 8 || i == 13 || i == 18 || i == 23 {
            #[trigger] s[i] == '-'
        } else {
            is_hex_char(s[i])
        }
}

/// The groups of a UUID, one behind the other.
spec fn uuid_digits(s: Seq<char>) -> Seq<char> {
    s.subrange(0, 8) + s.subrange(9, 13) + s.subrange(14, 18) + s.subrange(19, 23) + s.subrange(
        24,
        36,
    )
}

proof fn lemma_filter_plain(s: Seq<char>)
    requires
        forall|i: int| 0 <= i < s.len() ==> #[trigger] s[i] != '-',
    ensures
        crate::identity::unhyphenated(s) == s,
    decreases s.len(),
{
    reveal(Seq::filter);
    if s.len() > 0 {
        lemma_filter_plain(s.drop_last());
        assert(s =~= s.drop_last().push(s.last()));
    }
}

proof fn lemma_filter_add(a: Seq<char>, b: Seq<char>)
    ensures
        crate::identity::unhyphenated(a + b) == crate::identity::unhyphenated(a)
            + crate::identity::unhyphenated(b),
    decreases b.len(),
{
    reveal(Seq::filter);
    if b.len() == 0 {
        assert(a + b =~= a);
        assert(crate::identity::unhyphenated(b) =~= Seq::<char>::empty());
    } else {
        lemma_filter_add(a, b.drop_last());
        assert((a + b).drop_last() =~= a + b.drop_last());
        assert((a + b).last() == b.last());
        assert(crate::identity::unhyphenated(a + b) =~= crate::identity::unhyphenated(a)
            + crate::identity::unhyphenated(b));
    }
}

proof fn lemma_filter_hyphen()
    ensures
        crate::identity::unhyphenated(seq!['-']) == Seq::<char>::empty(),
{
    reveal_with_fuel(Seq::filter, 2);
    assert(seq!['-'].drop_last() =~= Seq::<char>::empty());
}

proof fn lemma_uuid_digits(s: Seq<char>)
    requires
        is_uuid_text(s),
    ensures
        crate::identity::unhyphenated(s) == uuid_digits(s),
{
    let h = seq!['-'];
    let a = s.subrange(0, 8);
    let b = s.subrange(9, 13);
    let c = s.subrange(14, 18);
    let d = s.subrange(19, 23);
    let e = s.subrange(24, 36);
    assert(s[8] == '-' && s[13] == '-' && s[18] == '-' && s[23] == '-');
    assert(s =~= a + h + b + h + c + h + d + h + e);
    lemma_filter_hyphen();
    lemma_filter_plain(a);
    lemma_filter_plain(b);
    lemma_filter_plain(c);
    lemma_filter_plain(d);
    lemma_filter_plain(e);
    lemma_filter_add(a, h);
    lemma_filter_add(a + h, b);
    lemma_filter_add(a + h + b, h);
    lemma_filter_add(a + h + b + h, c);
    lemma_filter_add(a + h + b + h + c, h);
    lemma_filter_add(a + h + b + h + c + h, d);
    lemma_filter_add(a + h + b + h + c + h + d, h);
    lemma_filter_add(a + h + b + h + c + h + d + h, e);
    assert(crate::identity::unhyphenated(s) =~= uuid_digits(s));
}

/// The personal tenant of a user whose subject is a UUID leads back to that user.
pub proof fn law_personal_tenant_round_trip(sub: Seq<char>)
    requires
        is_uuid_text(sub),
    ensures
        personal_tenant_sub(crate::identity::consumer_user_slug(sub)) == Some(sub),
{
    let tenant = crate::identity::consumer_user_slug(sub);
    let digits = uuid_digits(sub);
    reveal_strlit("u-");
    reveal_strlit("-");
    lemma_uuid_digits(sub);
    assert(tenant.take(2) =~= "u-"@);
    assert(tenant.skip(2) =~= digits);
    assert forall|i: int| 0 <= i < digits.len() implies is_hex_char(#[trigger] digits[i]) by {
        if i < 8 {
            assert(digits[i] == sub[i]);
        } else if i < 12 {
            assert(digits[i] == sub[i + 1]);
        } else if i < 16 {
            assert(digits[i] == sub[i + 2]);
        } else if i < 20 {
            assert(digits[i] == sub[i + 3]);
        } else {
            assert(digits[i] == sub[i + 4]);
        }
    }
    assert("-"@ =~= seq!['-']);
    assert(sub[8] == '-' && sub[13] == '-' && sub[18] == '-' && sub[23] == '-');
    assert(text::hyphenated(digits) =~= sub);
}

/// The seats that come with a tier go by its name: five with `business`, ten with
/// `enterprise`, none with any other.
pub proof fn law_included_seats_go_by_name(tier: Seq<char>)
    ensures
        seats_included(tier) == 5 <==> tier == "business"@,
        seats_included(tier) == 10 <==> tier == "enterprise"@,
        tier != "business"@ && tier != "enterprise"@ ==> seats_included(tier) == 0,
        seats_included(tier) == TenantTier::named(tier).seats(),
{
    reveal_strlit("pro");
    reveal_strlit("business");
    reveal_strlit("enterprise");
    reveal_strlit("system");
    assert("pro"@[0] == 'p' && "business"@[0] == 'b' && "enterprise"@[0] == 'e' && "system"@[0]
        == 's');
}

/// An item is a seat add-on exactly where the metadata of its price say that it is of
/// the kind `seat`; then its tier and its interval are those of its price.
pub proof fn law_seat_items_are_of_their_kind(
    item: JsonView,
    price: JsonView,
    metadata: JsonView,
    recurring: JsonView,
    tier: Seq<char>,
    interval: Seq<char>,
)
    requires
        item.get("price"@) == Some(price),
        price.get("metadata"@) == Some(metadata),
    ensures
        is_seat_item(item) <==> metadata.get("kind"@) == Some(JsonView::Str("seat"@)),
        metadata.get("kind"@) == Some(JsonView::Str("seat"@)) && metadata.get("tier"@) == Some(
            JsonView::Str(tier),
        ) && price.get("recurring"@) == Some(recurring) && recurring.get("interval"@) == Some(
            JsonView::Str(interval),
        ) ==> seat_item_tier(item) == Some((tier, interval)),
        metadata.get("kind"@) != Some(JsonView::Str("seat"@)) ==> seat_item_tier(item) is None,
{
}

/// A base product is what begins with the name of a paid plan and is no extra seat; an
/// extra seat is sold for the two plans that include seats.
pub proof fn law_products_go_by_their_names(rest: Seq<char>)
    ensures
        !text::occurs("Extra Seat"@, "Zaru Business"@ + rest) ==> base_tier(
            "Zaru Business"@ + rest,
        ) == Some(("business"@, 5u32)),
        !text::occurs("Extra Seat"@, "Zaru Enterprise"@ + rest) ==> base_tier(
            "Zaru Enterprise"@ + rest,
        ) == Some(("enterprise"@, 10u32)),
        !text::occurs("Extra Seat"@, "Zaru Pro"@ + rest) ==> base_tier("Zaru Pro"@ + rest)
            == Some(("pro"@, 0u32)),
        text::occurs("Extra Seat"@, "Zaru Business"@ + rest) ==> seat_tier(
            "Zaru Business"@ + rest,
        ) == Some("business"@),
        text::occurs("Extra Seat"@, "Zaru Enterprise"@ + rest) ==> seat_tier(
            "Zaru Enterprise"@ + rest,
        ) == Some("enterprise"@),
        text::occurs("Extra Seat"@, "Zaru Pro"@ + rest) ==> seat_tier("Zaru Pro"@ + rest) is None,
{
    reveal_strlit("Zaru Business");
    reveal_strlit("Zaru Enterprise");
    reveal_strlit("Zaru Pro");
    let b = "Zaru Business"@ + rest;
    let e = "Zaru Enterprise"@ + rest;
    let p = "Zaru Pro"@ + rest;
    assert(b.take("Zaru Business"@.len() as int) =~= "Zaru Business"@);
    assert(e.take("Zaru Enterprise"@.len() as int) =~= "Zaru Enterprise"@);
    assert(p.take("Zaru Pro"@.len() as int) =~= "Zaru Pro"@);
    assert(b[5] == 'B' && e[5] == 'E' && p[5] == 'P');
    assert("Zaru Business"@[5] == 'B' && "Zaru Enterprise"@[5] == 'E' && "Zaru Pro"@[5] == 'P');
}

/// The items of a subscription are those of its list, and its tier is read from its own
/// metadata before those of its items.
pub proof fn law_items_are_those_of_the_list(
    subscription: JsonView,
    list: JsonView,
    items: Seq<JsonView>,
)
    ensures
        subscription.get("items"@) == Some(list) && list.get("data"@) == Some(JsonView::Arr(items))
            ==> subscription_items(subscription) == Some(items),
        subscription.get("items"@) is None ==> subscription_items(subscription) is None,
{
}

/// A tier reaches the one user of a personal tenant, every user of any other tenant, and
/// nobody where the tenant is the one that all consumers share.
pub proof fn law_a_tier_reaches_its_tenant(
    tenant: Seq<char>,
    tier: TenantTier,
    service: bool,
    provider: bool,
)
    ensures
        service && personal_tenant_sub(tenant) is Some ==> tier_sync_plan(
            tenant,
            tier,
            service,
            provider,
        ) == (TierSyncView::RecomputeUser { user_sub: personal_tenant_sub(tenant)->Some_0 }),
        !service || personal_tenant_sub(tenant) is None ==> tier_sync_plan(
            tenant,
            tier,
            service,
            provider,
        ) == direct_sync(tenant, tier, provider),
        direct_sync(tenant, tier, provider) is NoIdentityProvider <==> !provider,
        direct_sync(tenant, tier, true) is SharedTenant <==> tenant == "zaru-consumer"@,
        direct_sync(tenant, tier, true) matches TierSyncView::SetUser { realm, user_sub, tier: t }
            ==> realm == "zaru-consumer"@ && personal_tenant_sub(tenant) == Some(user_sub) && t
            == tier.name(),
        direct_sync(tenant, tier, true) matches TierSyncView::SetRealm { realm, tier: t } ==> realm
            == "tenant-"@ + tenant && t == tier.name() && personal_tenant_sub(tenant) is None,
{
}

/// A team stands suspended or active as its tier allows a colony; a deleted one stays
/// deleted.
pub proof fn law_teams_stand_as_their_tier_allows(status: TeamStatus, tier: TenantTier)
    ensures
        status != TeamStatus::Deleted && tier.colony_allowed() ==> status_after(
            status,
            team_transition(status, tier),
        ) == TeamStatus::Active,
        status != TeamStatus::Deleted && !tier.colony_allowed() ==> status_after(
            status,
            team_transition(status, tier),
        ) == TeamStatus::Suspended,
        status == TeamStatus::Deleted ==> status_after(status, team_transition(status, tier))
            == TeamStatus::Deleted,
        team_effects(status, tier).contains(TeamEffect::Save(TeamStatus::Suspended)) <==> status
            == TeamStatus::Active && !tier.colony_allowed(),
        team_effects(status, tier).contains(TeamEffect::Save(TeamStatus::Active)) <==> status
            == TeamStatus::Suspended && tier.colony_allowed(),
{
    let effects = team_effects(status, tier);
    if effects.len() == 2 {
        assert(effects[0] == TeamEffect::Save(status_after(status, team_transition(status, tier))));
    }
}

/// Only tenants that begin with `t-` are a team's.
pub proof fn law_team_tenants_begin_alike(rest: Seq<char>, tenant: Seq<char>)
    ensures
        is_team_tenant("t-"@ + rest),
        tenant.len() > 0 && tenant[0] != 't' ==> !is_team_tenant(tenant),
{
    reveal_strlit("t-");
    let whole = "t-"@ + rest;
    assert(whole.take("t-"@.len() as int) =~= "t-"@);
    assert("t-"@[0] == 't');
}

/// Personal tenants are those whose name is the mark of one and thirty-two hexadecimal
/// digits, and no others.
pub proof fn law_personal_tenants(tenant: Seq<char>)
    ensures
        personal_tenant_sub(tenant) is Some <==> "u-"@.is_prefix_of(tenant) && tenant.len()
            == "u-"@.len() + 32 && forall|i: int|
            "u-"@.len() <= i < tenant.len() ==> is_hex_char(#[trigger] tenant[i]),
        is_hex_char('0') && is_hex_char('9') && is_hex_char('a') && is_hex_char('f')
            && is_hex_char('A') && is_hex_char('F'),
        !is_hex_char('g') && !is_hex_char('-') && !is_hex_char('G'),
{
    let n = "u-"@.len() as int;
    if "u-"@.is_prefix_of(tenant) && tenant.len() == n + 32 {
        let digits = tenant.skip(n);
        assert forall|i: int| 0 <= i < 32 implies #[trigger] digits[i] == tenant[n + i] by {}
        if forall|i: int| n <= i < tenant.len() ==> is_hex_char(#[trigger] tenant[i]) {
            assert forall|i: int| 0 <= i < digits.len() implies is_hex_char(
                #[trigger] digits[i],
            ) by {
                assert(is_hex_char(tenant[n + i]));
            }
        }
        if personal_tenant_sub(tenant) is Some {
            assert forall|i: int| n <= i < tenant.len() implies is_hex_char(
                #[trigger] tenant[i],
            ) by {
                assert(digits[i - n] == tenant[i]);
            }
        }
    }
}

} // verus!
