//! Teams: who is in them, who may join, and what they are subscribed to.

use crate::http;
use crate::http::Reply;
use crate::identity;
use crate::identity::{TenantId, UserIdentity, UserIdentityView};
use crate::json::{Json, JsonView};
use crate::tenancy::{SubscriptionStatus, TenantTier};
use crate::operator_read_models::Moment;
use crate::{operator_read_models, primitives, text};
use vstd::prelude::*;

verus! {

/// What a tenant is.
#[derive(Clone, Copy, PartialEq, Eq, Structural, Debug)]
pub enum TenantKind {
    System,
    Consumer,
    Team,
    Enterprise,
}

/// What a tenant is, by its slug.
pub open spec fn kind_of_slug(slug: Seq<char>) -> TenantKind {
    if slug == "aegis-system"@ {
        TenantKind::System
    } else if slug == "zaru-consumer"@ || "u-"@.is_prefix_of(slug) {
        TenantKind::Consumer
    } else if "t-"@.is_prefix_of(slug) {
        TenantKind::Team
    } else {
        TenantKind::Enterprise
    }
}

/// What a tenant is.
pub fn team_kind_for(tenant_id: &TenantId) -> (r: TenantKind)
    ensures
        r == kind_of_slug(tenant_id@),
{
    let s = tenant_id.as_str();
    if text::str_eq(s, "aegis-system") {
        TenantKind::System
    } else if text::str_eq(s, "zaru-consumer") || text::starts_with(s, "u-") {
        TenantKind::Consumer
    } else if text::starts_with(s, "t-") {
        TenantKind::Team
    } else {
        TenantKind::Enterprise
    }
}

/// The tier of a team with the given name, in any case of letters. Teams are not
/// free, and not the system.
pub open spec fn team_tier(name: Seq<char>) -> Option<TenantTier> {
    let lowered = text::lowered(name);
    if lowered == "pro"@ {
        Some(TenantTier::Pro)
    } else if lowered == "business"@ {
        Some(TenantTier::Business)
    } else if lowered == "enterprise"@ {
        Some(TenantTier::Enterprise)
    } else {
        None
    }
}

/// The tier of a team with the given name, or why there is none.
pub fn parse_tier(s: &str) -> (r: Result<TenantTier, String>)
    ensures
        match team_tier(s@) {
            Some(tier) => r == Ok::<TenantTier, String>(tier),
            None => r matches Err(e) && e@ == "unsupported tier: "@ + text::lowered(s@),
        },
{
    let lowered = text::ascii_lower(s);
    if text::str_eq(lowered.as_str(), "pro") {
        Ok(TenantTier::Pro)
    } else if text::str_eq(lowered.as_str(), "business") {
        Ok(TenantTier::Business)
    } else if text::str_eq(lowered.as_str(), "enterprise") {
        Ok(TenantTier::Enterprise)
    } else {
        Err("unsupported tier: ".to_owned().concat(lowered.as_str()))
    }
}

/// The name of a tier.
pub fn tier_str(t: &TenantTier) -> (r: &'static str)
    ensures
        r@ == t.name(),
{
    t.as_keycloak_str()
}

/// An answer that carries a code and a message.
pub open spec fn coded(status: u16, code: Seq<char>, message: Seq<char>) -> http::ReplyView {
    http::json_reply(
        status,
        JsonView::object().with("error"@, JsonView::Str(code)).with(
            "message"@,
            JsonView::Str(message),
        ),
    )
}

/// An answer that carries a code and a message.
pub fn coded_reply(status: u16, code: &str, message: &str) -> (r: Reply)
    ensures
        r@ == coded(status, code@, message@),
{
    Reply::json(
        status,
        Json::object().with("error", Json::text(code)).with("message", Json::text(message)),
    )
}

/// The answer where there is no service for teams.
pub open spec fn no_team_service() -> http::ReplyView {
    coded(503, "teams_not_configured"@, "Team tenancy is not configured on this node"@)
}

/// The answer where there is no service for teams, if there is none.
pub fn team_service(configured: bool) -> (r: Result<(), Reply>)
    ensures
        if configured {
            r is Ok
        } else {
            r matches Err(reply) && reply@ == no_team_service()
        },
{
    if configured {
        Ok(())
    } else {
        Err(
            coded_reply(
                503,
                "teams_not_configured",
                "Team tenancy is not configured on this node",
            ),
        )
    }
}

/// The answer where teams are not stored, if they are not.
pub fn team_store(configured: bool) -> (r: Result<(), Reply>)
    ensures
        if configured {
            r is Ok
        } else {
            r matches Err(reply) && reply@ == http::error_reply(503, "teams_not_configured"@)
        },
{
    if configured {
        Ok(())
    } else {
        Err(Reply::error(503, "teams_not_configured"))
    }
}

/// The answer to a caller that is not authenticated.
pub open spec fn unauthenticated_answer() -> http::ReplyView {
    http::error_reply(401, "Authentication required"@)
}

/// The answer to a caller that is not authenticated.
pub fn unauthenticated() -> (r: Reply)
    ensures
        r@ == unauthenticated_answer(),
{
    Reply::error(401, "Authentication required")
}

/// Why an operation on a team failed.
#[derive(Clone, Copy, PartialEq, Eq, Structural, Debug)]
pub enum TeamServiceError {
    Unauthorized,
    TierNotPermitted,
    PersonalTierTooLow,
    SeatCapReached,
    NotFound,
    InvalidInvitation,
    InvitationExpired,
    InvitationNotPending,
    OwnerRoleImmutable,
    InvalidCommand,
    Domain,
    InvitationsNotConfigured,
    Repository,
    Billing,
}

/// The status and the code that a failed operation on a team is answered with.
pub open spec fn team_error(e: TeamServiceError) -> (u16, Seq<char>) {
    match e {
        TeamServiceError::Unauthorized => (403, "forbidden"@),
        TeamServiceError::TierNotPermitted => (403, "tier_not_permitted"@),
        TeamServiceError::PersonalTierTooLow => (402, "personal_tier_too_low"@),
        TeamServiceError::SeatCapReached => (409, "seat_cap_reached"@),
        TeamServiceError::NotFound => (404, "not_found"@),
        TeamServiceError::InvalidInvitation => (400, "invalid_invitation"@),
        TeamServiceError::InvitationExpired => (410, "invitation_expired"@),
        TeamServiceError::InvitationNotPending => (409, "invitation_not_pending"@),
        TeamServiceError::OwnerRoleImmutable => (400, "owner_role_immutable"@),
        TeamServiceError::InvalidCommand => (400, "invalid_command"@),
        TeamServiceError::Domain => (400, "domain_invariant"@),
        TeamServiceError::InvitationsNotConfigured => (503, "invitations_not_configured"@),
        TeamServiceError::Repository => (500, "internal"@),
        TeamServiceError::Billing => (500, "internal"@),
    }
}

/// The answer to a failed operation on a team.
pub fn map_service_error(e: TeamServiceError, message: &str) -> (r: Reply)
    ensures
        r@ == coded(team_error(e).0, team_error(e).1, message@),
{
    match e {
        TeamServiceError::Unauthorized => coded_reply(403, "forbidden", message),
        TeamServiceError::TierNotPermitted => coded_reply(403, "tier_not_permitted", message),
        TeamServiceError::PersonalTierTooLow => coded_reply(402, "personal_tier_too_low", message),
        TeamServiceError::SeatCapReached => coded_reply(409, "seat_cap_reached", message),
        TeamServiceError::NotFound => coded_reply(404, "not_found", message),
        TeamServiceError::InvalidInvitation => coded_reply(400, "invalid_invitation", message),
        TeamServiceError::InvitationExpired => coded_reply(410, "invitation_expired", message),
        TeamServiceError::InvitationNotPending => coded_reply(
            409,
            "invitation_not_pending",
            message,
        ),
        TeamServiceError::OwnerRoleImmutable => coded_reply(400, "owner_role_immutable", message),
        TeamServiceError::InvalidCommand => coded_reply(400, "invalid_command", message),
        TeamServiceError::Domain => coded_reply(400, "domain_invariant", message),
        TeamServiceError::InvitationsNotConfigured => coded_reply(
            503,
            "invitations_not_configured",
            message,
        ),
        TeamServiceError::Repository | TeamServiceError::Billing => coded_reply(
            500,
            "internal",
            message,
        ),
    }
}

/// The identifier that a text denotes, or the answer that refuses it with a code.
pub fn id_or_refusal(denoted: Option<u128>, code: &str) -> (r: Result<u128, Reply>)
    ensures
        match denoted {
            Some(id) => r matches Ok(n) && n == id,
            None => r matches Err(reply) && reply@ == http::error_reply(400, code@),
        },
{
    match denoted {
        Some(id) => Ok(id),
        None => Err(Reply::error(400, code)),
    }
}

/// The team that a text identifies.
pub fn parse_team_id(s: &str) -> (r: Result<u128, Reply>)
    ensures
        match primitives::parsed_uuid(s@) {
            Some(id) => r matches Ok(n) && n == id,
            None => r matches Err(reply) && reply@ == http::error_reply(400, "invalid_team_id"@),
        },
{
    id_or_refusal(primitives::parse_uuid(s), "invalid_team_id")
}

/// The invitation that a text identifies.
pub fn parse_invitation_id(s: &str) -> (r: Result<u128, Reply>)
    ensures
        match primitives::parsed_uuid(s@) {
            Some(id) => r matches Ok(n) && n == id,
            None => r matches Err(reply) && reply@ == http::error_reply(
                400,
                "invalid_invitation_id"@,
            ),
        },
{
    id_or_refusal(primitives::parse_uuid(s), "invalid_invitation_id")
}

/// A team.
pub struct Team {
    pub id: String,
    pub slug: String,
    pub display_name: String,
    pub tier: TenantTier,
    pub tenant_id: TenantId,
    pub owner_user_id: String,
}

/// Whether the team that a caller acts in is to be looked up. In a tenant that is no
/// team's there is none. The slug's flaw is missing where the slug is well formed.
pub fn resolve_active_team(kind: TenantKind, has_store: bool, slug_flaw: Option<&str>) -> (r:
    Result<bool, Reply>)
    ensures
        if kind != TenantKind::Team {
            r matches Ok(b) && !b
        } else if !has_store {
            r matches Err(reply) && reply@ == http::error_reply(503, "teams_not_configured"@)
        } else {
            match text::opt_str_view(slug_flaw) {
                Some(e) => r matches Err(reply) && reply@ == coded(400, "invalid_team_slug"@, e),
                None => r matches Ok(b) && b,
            }
        },
{
    if kind != TenantKind::Team {
        return Ok(false);
    }
    if let Err(reply) = team_store(has_store) {
        return Err(reply);
    }
    match slug_flaw {
        Some(e) => Err(coded_reply(400, "invalid_team_slug", e)),
        None => Ok(true),
    }
}

/// The team that was looked up, or the answer where it was not found.
pub fn active_team(found: Result<Option<Team>, String>) -> (r: Result<Team, Reply>)
    ensures
        match found {
            Ok(Some(team)) => r matches Ok(t) && t == team,
            Ok(None) => r matches Err(reply) && reply@ == http::error_reply(404, "team_not_found"@),
            Err(e) => r matches Err(reply) && reply@ == http::error_reply(500, e@),
        },
{
    match found {
        Ok(Some(team)) => Ok(team),
        Ok(None) => Err(Reply::error(404, "team_not_found")),
        Err(e) => Err(Reply::error(500, e.as_str())),
    }
}

/// The answer to a caller that acts in no team.
pub open spec fn team_context_answer(for_members: bool) -> http::ReplyView {
    if for_members {
        coded(
            400,
            "team_context_required"@,
            "Send X-Tenant-Id: t-{uuid} to list team members"@,
        )
    } else {
        http::error_reply(400, "team_context_required"@)
    }
}

/// The answer to a caller that acts in no team.
pub fn team_context_required(for_members: bool) -> (r: Reply)
    ensures
        r@ == team_context_answer(for_members),
{
    if for_members {
        coded_reply(
            400,
            "team_context_required",
            "Send X-Tenant-Id: t-{uuid} to list team members",
        )
    } else {
        Reply::error(400, "team_context_required")
    }
}

/// A membership of a team, with the names of its role and its status.
pub struct Membership {
    pub team_id: String,
    pub user_id: String,
    pub role: String,
    pub status: String,
    pub active: bool,
    pub can_manage: bool,
    pub joined_at_ms: i64,
}

/// The membership of a user: the first one under that user's name.
pub open spec fn membership_of(members: Seq<Membership>, user_id: Seq<char>) -> Option<Membership>
    decreases members.len(),
{
    if members.len() == 0 {
        None
    } else if members[0].user_id@ == user_id {
        Some(members[0])
    } else {
        membership_of(members.skip(1), user_id)
    }
}

/// The membership of a caller, with its role and its status.
pub fn caller_role<'a>(members: &'a Vec<Membership>, user_id: &str) -> (r: Option<&'a Membership>)
    ensures
        match r {
            Some(m) => membership_of(members@, user_id@) == Some(*m),
            None => membership_of(members@, user_id@) is None,
        },
{
    let mut i: usize = 0;
    assert(members@.skip(0) =~= members@);
    while i < members.len()
        invariant
            i <= members@.len(),
            membership_of(members@, user_id@) == membership_of(members@.skip(i as int), user_id@),
        decreases members@.len() - i,
    {
        assert(members@.skip(i as int)[0] == members@[i as int]);
        assert(members@.skip(i as int).skip(1) =~= members@.skip(i + 1));
        if text::str_eq(members[i].user_id.as_str(), user_id) {
            return Some(&members[i]);
        }
        i += 1;
    }
    None
}

/// Whether a user is an active member.
pub open spec fn is_member(members: Seq<Membership>, user_id: Seq<char>) -> bool {
    membership_of(members, user_id) matches Some(m) && m.active
}

/// Whether a user is an active member that manages others.
pub open spec fn is_manager(members: Seq<Membership>, user_id: Seq<char>) -> bool {
    membership_of(members, user_id) matches Some(m) && m.active && m.can_manage
}

/// Lets in active members alone.
pub fn require_member(members: &Vec<Membership>, user_id: &str) -> (r: Result<(), Reply>)
    ensures
        if is_member(members@, user_id@) {
            r is Ok
        } else {
            r matches Err(reply) && reply@ == http::error_reply(403, "not_a_member"@)
        },
{
    let admitted = match caller_role(members, user_id) {
        Some(m) => m.active,
        None => false,
    };
    if admitted {
        Ok(())
    } else {
        Err(Reply::error(403, "not_a_member"))
    }
}

/// A team among the teams of a caller.
pub open spec fn team_summary(m: Membership, team: Team, member_count: u32) -> JsonView {
    JsonView::object().with("id"@, JsonView::Str(team.id@)).with(
        "slug"@,
        JsonView::Str(team.slug@),
    ).with("display_name"@, JsonView::Str(team.display_name@)).with(
        "tier"@,
        JsonView::Str(team.tier.name()),
    ).with("tenant_id"@, JsonView::Str(team.tenant_id@)).with("role"@, JsonView::Str(m.role@)).with(
        "status"@,
        JsonView::Str(m.status@),
    ).with("member_count"@, JsonView::Int(member_count as int))
}

/// A membership of a caller, with what was found of its team: the team, and the number
/// of its active members, which is missing where it could not be counted.
pub struct TeamLookup {
    pub membership: Membership,
    pub team: Result<Option<(Team, Option<u32>)>, String>,
}

/// What is shown of the teams of which a caller is an active member, or why one of
/// them could not be looked up.
pub open spec fn team_summaries(lookups: Seq<TeamLookup>) -> Result<Seq<JsonView>, Seq<char>>
    decreases lookups.len(),
{
    if lookups.len() == 0 {
        Ok(Seq::empty())
    } else {
        match team_summaries(lookups.drop_last()) {
            Err(e) => Err(e),
            Ok(before) => if !lookups.last().membership.active {
                Ok(before)
            } else {
                match lookups.last().team {
                    Err(e) => Err(e@),
                    Ok(None) => Ok(before),
                    Ok(Some((team, count))) => Ok(
                        before.push(
                            team_summary(
                                lookups.last().membership,
                                team,
                                match count {
                                    Some(n) => n,
                                    None => 0,
                                },
                            ),
                        ),
                    ),
                }
            },
        }
    }
}

proof fn lemma_failed_lookup_stays(lookups: Seq<TeamLookup>, upto: int)
    requires
        0 <= upto <= lookups.len(),
        team_summaries(lookups.take(upto)) is Err,
    ensures
        team_summaries(lookups) == team_summaries(lookups.take(upto)),
    decreases lookups.len() - upto,
{
    if upto < lookups.len() {
        assert(lookups.take(upto + 1).drop_last() =~= lookups.take(upto));
        lemma_failed_lookup_stays(lookups, upto + 1);
    } else {
        assert(lookups.take(upto) =~= lookups);
    }
}

/// The answer that lists the teams of a caller.
pub fn list_teams_reply(lookups: &Vec<TeamLookup>) -> (r: Reply)
    ensures
        r@ == (match team_summaries(lookups@) {
            Ok(teams) => http::json_reply(
                200,
                JsonView::object().with("teams"@, JsonView::Arr(teams)).with(
                    "count"@,
                    JsonView::Int(teams.len() as int),
                ),
            ),
            Err(e) => http::error_reply(500, e),
        }),
{
    let mut items: Vec<Json> = Vec::new();
    let mut i: usize = 0;
    assert(crate::json::json_views(items@) =~= Seq::empty());
    while i < lookups.len()
        invariant
            i <= lookups@.len(),
            team_summaries(lookups@.take(i as int)) == Ok::<Seq<JsonView>, Seq<char>>(
                crate::json::json_views(items@),
            ),
        decreases lookups@.len() - i,
    {
        assert(lookups@.take(i + 1).drop_last() =~= lookups@.take(i as int));
        assert(lookups@.take(i + 1).last() == lookups@[i as int]);
        let m = &lookups[i].membership;
        if m.active {
            match &lookups[i].team {
                Err(e) => {
                    proof {
                        lemma_failed_lookup_stays(lookups@, i + 1);
                    }
                    return Reply::error(500, e.as_str());
                },
                Ok(found) => {
                    if let Some((team, count)) = found {
                        let member_count: u32 = match count {
                            Some(n) => *n,
                            None => 0,
                        };
                        let ghost old_items = items@;
                        items.push(
                            Json::object().with("id", Json::text(team.id.as_str())).with(
                                "slug",
                                Json::text(team.slug.as_str()),
                            ).with("display_name", Json::text(team.display_name.as_str())).with(
                                "tier",
                                Json::text(tier_str(&team.tier)),
                            ).with("tenant_id", Json::text(team.tenant_id.as_str())).with(
                                "role",
                                Json::text(m.role.as_str()),
                            ).with("status", Json::text(m.status.as_str())).with(
                                "member_count",
                                Json::Int(member_count as i128),
                            ),
                        );
                        assert(crate::json::json_views(items@) =~= crate::json::json_views(
                            old_items,
                        ).push(items@.last()@));
                    }
                },
            }
        }
        i += 1;
    }
    assert(lookups@.take(lookups@.len() as int) =~= lookups@);
    let count: usize = items.len();
    Reply::json(
        200,
        Json::object().with("teams", Json::array(items)).with("count", Json::Int(count as i128)),
    )
}

/// The order to found a team.
pub struct ProvisionTeamCommand {
    pub display_name: String,
    pub owner_user_id: String,
    pub owner_email: String,
    pub tier: TenantTier,
}

/// Why a team is not founded, if it is not: the caller, its address, the tier and the
/// service are looked at in this order.
pub open spec fn create_refusal(
    caller: Option<UserIdentityView>,
    tier: Seq<char>,
    configured: bool,
) -> Option<http::ReplyView> {
    if caller is None {
        Some(unauthenticated_answer())
    } else if caller->Some_0.email is None {
        Some(
            coded(
                400,
                "missing_email"@,
                "Owner email is required to provision a Stripe customer"@,
            ),
        )
    } else if team_tier(tier) is None {
        Some(coded(400, "invalid_tier"@, "unsupported tier: "@ + text::lowered(tier)))
    } else if !configured {
        Some(no_team_service())
    } else {
        None
    }
}

/// The order that a request to found a team leads to: the caller owns it.
pub fn create_team(
    caller: Option<&UserIdentity>,
    display_name: String,
    tier: &str,
    configured: bool,
) -> (r: Result<ProvisionTeamCommand, Reply>)
    ensures
        match create_refusal(identity::opt_identity(caller), tier@, configured) {
            Some(refusal) => r matches Err(reply) && reply@ == refusal,
            None => r matches Ok(order) && order.display_name == display_name
                && order.owner_user_id@ == caller->Some_0@.sub && Some(order.owner_email@)
                == caller->Some_0@.email && Some(order.tier) == team_tier(tier@),
        },
{
    let i = match caller {
        Some(i) => i,
        None => {
            return Err(unauthenticated());
        },
    };
    let owner_email = match &i.email {
        Some(e) => e.clone(),
        None => {
            return Err(
                coded_reply(
                    400,
                    "missing_email",
                    "Owner email is required to provision a Stripe customer",
                ),
            );
        },
    };
    let parsed = match parse_tier(tier) {
        Ok(t) => t,
        Err(e) => {
            return Err(coded_reply(400, "invalid_tier", e.as_str()));
        },
    };
    if let Err(reply) = team_service(configured) {
        return Err(reply);
    }
    Ok(
        ProvisionTeamCommand {
            display_name,
            owner_user_id: i.sub.clone(),
            owner_email,
            tier: parsed,
        },
    )
}

/// Whether a team has a realm of its own.
pub open spec fn has_own_realm(tier: TenantTier) -> bool {
    tier == TenantTier::Enterprise
}

/// Whether a team has a realm of its own.
pub fn needs_realm(tier: &TenantTier) -> (r: bool)
    ensures
        r == has_own_realm(*tier),
{
    match tier {
        TenantTier::Enterprise => true,
        _ => false,
    }
}

/// The realm in which a team's users are known: its own, or the consumers'.
pub open spec fn realm_of(tier: TenantTier, slug: Seq<char>) -> Seq<char> {
    if has_own_realm(tier) {
        "team-"@ + slug
    } else {
        "zaru-consumer"@
    }
}

/// The realm in which a team's users are known.
pub fn team_realm(tier: &TenantTier, slug: &str) -> (r: String)
    ensures
        r@ == realm_of(*tier, slug@),
{
    if needs_realm(tier) {
        "team-".to_owned().concat(slug)
    } else {
        "zaru-consumer".to_owned()
    }
}

/// The answer to a team that was founded.
pub open spec fn created_answer(team: Team) -> http::ReplyView {
    http::json_reply(
        201,
        JsonView::object().with(
            "team"@,
            JsonView::object().with("id"@, JsonView::Str(team.id@)).with(
                "slug"@,
                JsonView::Str(team.slug@),
            ).with("display_name"@, JsonView::Str(team.display_name@)).with(
                "tier"@,
                JsonView::Str(team.tier.name()),
            ).with("tenant_id"@, JsonView::Str(team.tenant_id@)),
        ),
    )
}

/// The answer to a team that was founded.
pub fn team_created_reply(team: &Team) -> (r: Reply)
    ensures
        r@ == created_answer(*team),
{
    Reply::json(
        201,
        Json::object().with(
            "team",
            Json::object().with("id", Json::text(team.id.as_str())).with(
                "slug",
                Json::text(team.slug.as_str()),
            ).with("display_name", Json::text(team.display_name.as_str())).with(
                "tier",
                Json::text(tier_str(&team.tier)),
            ).with("tenant_id", Json::text(team.tenant_id.as_str())),
        ),
    )
}

/// Decides whether a caller may dissolve a team that was looked up: its owner may.
pub fn delete_team(caller: &UserIdentity, found: Result<Option<Team>, String>) -> (r: Result<
    Team,
    Reply,
>)
    ensures
        match found {
            Ok(Some(team)) => if team.owner_user_id@ == caller@.sub {
                r matches Ok(t) && t == team
            } else {
                r matches Err(reply) && reply@ == http::error_reply(403, "owner_only"@)
            },
            Ok(None) => r matches Err(reply) && reply@ == http::error_reply(404, "not_found"@),
            Err(e) => r matches Err(reply) && reply@ == http::error_reply(500, e@),
        },
{
    match found {
        Ok(Some(team)) => if text::str_eq(team.owner_user_id.as_str(), caller.sub.as_str()) {
            Ok(team)
        } else {
            Err(Reply::error(403, "owner_only"))
        },
        Ok(None) => Err(Reply::error(404, "not_found")),
        Err(e) => Err(Reply::error(500, e.as_str())),
    }
}

/// What the identity provider is told when a team, or a member of one, goes.
pub enum Cleanup {
    /// The realm of the team, which goes, or loses the member.
    Realm(String),
    /// The group of the team among the consumers, which goes, or loses the member.
    Group(String),
}

/// The mathematical content of what the identity provider is told.
pub enum CleanupView {
    Realm(Seq<char>),
    Group(Seq<char>),
}

impl View for Cleanup {
    type V = CleanupView;

    open spec fn view(&self) -> CleanupView {
        match *self {
            Cleanup::Realm(realm) => CleanupView::Realm(realm@),
            Cleanup::Group(group) => CleanupView::Group(group@),
        }
    }
}

/// What the identity provider is told when a team, or a member of one, goes: a team
/// with its own realm is that realm, any other a group under its slug.
pub open spec fn cleanup_of(tier: TenantTier, slug: Seq<char>) -> CleanupView {
    if has_own_realm(tier) {
        CleanupView::Realm(realm_of(tier, slug))
    } else {
        CleanupView::Group(slug)
    }
}

/// What the identity provider is told when a team, or a member of one, goes.
pub fn team_cleanup(tier: &TenantTier, slug: &str) -> (r: Cleanup)
    ensures
        r@ == cleanup_of(*tier, slug@),
{
    if needs_realm(tier) {
        Cleanup::Realm(team_realm(tier, slug))
    } else {
        Cleanup::Group(slug.to_owned())
    }
}

/// What the identity provider knows of a user.
pub struct DirectoryUser {
    pub email: Option<String>,
    pub first_name: Option<String>,
    pub last_name: Option<String>,
}

/// The name of a user, from what is known of its parts.
pub open spec fn full_name(first: Option<Seq<char>>, last: Option<Seq<char>>) -> Option<Seq<char>> {
    match (first, last) {
        (Some(f), Some(l)) => Some(f + " "@ + l),
        (Some(f), None) => Some(f),
        (None, Some(l)) => Some(l),
        (None, None) => None,
    }
}

/// The name of a user.
pub fn member_name(first: &Option<String>, last: &Option<String>) -> (r: Option<String>)
    ensures
        text::opt_view(r) == full_name(text::opt_view(*first), text::opt_view(*last)),
{
    match (first, last) {
        (Some(f), Some(l)) => Some(f.clone().concat(" ").concat(l.as_str())),
        (Some(f), None) => Some(f.clone()),
        (None, Some(l)) => Some(l.clone()),
        (None, None) => None,
    }
}

/// A member as it is shown, with what the identity provider knows of it, if anything.
pub open spec fn member_view(m: Membership, user: Option<DirectoryUser>) -> JsonView {
    JsonView::object().with("user_id"@, JsonView::Str(m.user_id@)).with(
        "email"@,
        JsonView::opt_text(
            match user {
                Some(u) => text::opt_view(u.email),
                None => None,
            },
        ),
    ).with(
        "name"@,
        JsonView::opt_text(
            match user {
                Some(u) => full_name(text::opt_view(u.first_name), text::opt_view(u.last_name)),
                None => None,
            },
        ),
    ).with("role"@, JsonView::Str(m.role@)).with("status"@, JsonView::Str(m.status@)).with(
        "joined_at"@,
        JsonView::Int(m.joined_at_ms as int),
    )
}

/// The answer that lists the members of a team.
pub open spec fn members_answer(members: Seq<(Membership, Option<DirectoryUser>)>) ->
    http::ReplyView {
    http::json_reply(
        200,
        JsonView::object().with(
            "members"@,
            JsonView::Arr(
                members.map_values(
                    |m: (Membership, Option<DirectoryUser>)| member_view(m.0, m.1),
                ),
            ),
        ).with("count"@, JsonView::Int(members.len() as int)),
    )
}

/// The answer that lists the members of a team.
pub fn list_members_reply(members: &Vec<(Membership, Option<DirectoryUser>)>) -> (r: Reply)
    ensures
        r@ == members_answer(members@),
{
    let mut items: Vec<Json> = Vec::new();
    let mut i: usize = 0;
    while i < members.len()
        invariant
            i <= members@.len(),
            items@.len() == i,
            forall|k: int|
                0 <= k < i ==> #[trigger] items@[k]@ == member_view(members@[k].0, members@[k].1),
        decreases members@.len() - i,
    {
        let m = &members[i].0;
        let (email, name) = match &members[i].1 {
            Some(u) => (u.email.clone(), member_name(&u.first_name, &u.last_name)),
            None => (None, None),
        };
        items.push(
            Json::object().with("user_id", Json::text(m.user_id.as_str())).with(
                "email",
                Json::opt_text(&email),
            ).with("name", Json::opt_text(&name)).with("role", Json::text(m.role.as_str())).with(
                "status",
                Json::text(m.status.as_str()),
            ).with("joined_at", Json::Int(m.joined_at_ms as i128)),
        );
        i += 1;
    }
    assert(crate::json::json_views(items@) =~= members@.map_values(
        |m: (Membership, Option<DirectoryUser>)| member_view(m.0, m.1),
    ));
    let count: usize = items.len();
    Reply::json(
        200,
        Json::object().with("members", Json::array(items)).with("count", Json::Int(count as i128)),
    )
}

/// The role that an invitation gives: the one that is asked for, or the usual one.
pub fn invitation_role<'a>(asked: Option<&'a str>, usual: &'a str) -> (r: &'a str)
    ensures
        r@ == (match asked {
            Some(role) => role@,
            None => usual@,
        }),
{
    match asked {
        Some(role) => role,
        None => usual,
    }
}

/// An invitation that was issued.
pub struct IssuedInvitation {
    pub id: String,
    pub team_id: String,
    pub invitee_email: String,
    pub raw_token: String,
    pub expires_at: Moment,
}

/// The answer to an invitation that was issued. Its token is shown this once.
pub open spec fn issued_answer(issued: IssuedInvitation) -> http::ReplyView {
    http::json_reply(
        201,
        JsonView::object().with(
            "invitation"@,
            JsonView::object().with("id"@, JsonView::Str(issued.id@)).with(
                "team_id"@,
                JsonView::Str(issued.team_id@),
            ).with("invitee_email"@, JsonView::Str(issued.invitee_email@)).with(
                "token"@,
                JsonView::Str(issued.raw_token@),
            ).with("expires_at"@, operator_read_models::stamp_shown(issued.expires_at)),
        ),
    )
}

/// The answer to an invitation that was issued.
pub fn invitation_issued_reply(issued: &IssuedInvitation) -> (r: Reply)
    ensures
        r@ == issued_answer(*issued),
{
    Reply::json(
        201,
        Json::object().with(
            "invitation",
            Json::object().with("id", Json::text(issued.id.as_str())).with(
                "team_id",
                Json::text(issued.team_id.as_str()),
            ).with("invitee_email", Json::text(issued.invitee_email.as_str())).with(
                "token",
                Json::text(issued.raw_token.as_str()),
            ).with("expires_at", operator_read_models::show_stamp(issued.expires_at)),
        ),
    )
}

/// An invitation, with the name of its status.
pub struct Invitation {
    pub id: String,
    pub team_id: String,
    pub invitee_email: String,
    pub status: String,
    pub pending: bool,
    pub expires_at: Moment,
    pub created_at: Moment,
    pub invited_by: String,
}

impl Invitation {
    /// The invitation as it is shown.
    pub open spec fn shown(&self) -> JsonView {
        JsonView::object().with("id"@, JsonView::Str(self.id@)).with(
            "team_id"@,
            JsonView::Str(self.team_id@),
        ).with("invitee_email"@, JsonView::Str(self.invitee_email@)).with(
            "status"@,
            JsonView::Str(self.status@),
        ).with("expires_at"@, operator_read_models::stamp_shown(self.expires_at)).with(
            "created_at"@,
            operator_read_models::stamp_shown(self.created_at),
        ).with("invited_by"@, JsonView::Str(self.invited_by@))
    }

    fn show(&self) -> (r: Json)
        ensures
            r@ == self.shown(),
    {
        Json::object().with("id", Json::text(self.id.as_str())).with(
            "team_id",
            Json::text(self.team_id.as_str()),
        ).with("invitee_email", Json::text(self.invitee_email.as_str())).with(
            "status",
            Json::text(self.status.as_str()),
        ).with("expires_at", operator_read_models::show_stamp(self.expires_at)).with(
            "created_at",
            operator_read_models::show_stamp(self.created_at),
        ).with("invited_by", Json::text(self.invited_by.as_str()))
    }
}

/// What is shown of the invitations that are pending, in their order.
pub open spec fn pending_shown(invitations: Seq<Invitation>) -> Seq<JsonView> {
    invitations.filter(|i: Invitation| i.pending).map_values(|i: Invitation| i.shown())
}

/// The answer that lists the pending invitations of a team.
pub open spec fn invitations_answer(invitations: Seq<Invitation>) -> http::ReplyView {
    http::json_reply(
        200,
        JsonView::object().with("invitations"@, JsonView::Arr(pending_shown(invitations))).with(
            "count"@,
            JsonView::Int(pending_shown(invitations).len() as int),
        ),
    )
}

/// The answer that lists the pending invitations of a team.
pub fn list_invitations_reply(invitations: &Vec<Invitation>) -> (r: Reply)
    ensures
        r@ == invitations_answer(invitations@),
{
    let ghost wanted = |i: Invitation| i.pending;
    let ghost show = |i: Invitation| i.shown();
    let mut items: Vec<Json> = Vec::new();
    let mut i: usize = 0;
    assert(invitations@.take(0).filter(wanted) =~= Seq::empty()) by {
        reveal(Seq::filter);
    }
    assert(crate::json::json_views(items@) =~= invitations@.take(0).filter(wanted).map_values(
        show,
    ));
    while i < invitations.len()
        invariant
            i <= invitations@.len(),
            wanted == (|i: Invitation| i.pending),
            show == (|i: Invitation| i.shown()),
            crate::json::json_views(items@) == invitations@.take(i as int).filter(
                wanted,
            ).map_values(show),
        decreases invitations@.len() - i,
    {
        let ghost before = invitations@.take(i as int).filter(wanted);
        proof {
            reveal(Seq::filter);
            assert(invitations@.take(i + 1).drop_last() =~= invitations@.take(i as int));
            assert(invitations@.take(i + 1).last() == invitations@[i as int]);
        }
        if invitations[i].pending {
            let ghost old_items = items@;
            items.push(invitations[i].show());
            assert(crate::json::json_views(items@) =~= crate::json::json_views(old_items).push(
                invitations@[i as int].shown(),
            ));
            assert(before.push(invitations@[i as int]).map_values(show) =~= before.map_values(
                show,
            ).push(invitations@[i as int].shown()));
        }
        i += 1;
    }
    assert(invitations@.take(invitations@.len() as int) =~= invitations@);
    let count: usize = items.len();
    Reply::json(
        200,
        Json::object().with("invitations", Json::array(items)).with(
            "count",
            Json::Int(count as i128),
        ),
    )
}

/// The order to accept an invitation.
pub struct AcceptInvitationCommand {
    pub token: String,
    pub authenticated_email: String,
    pub authenticated_user_id: String,
}

/// The order that a request to accept an invitation leads to: it is accepted by the
/// caller, under the address that the caller's claims name.
pub fn accept_invitation(caller: Option<&UserIdentity>, token: String, configured: bool) -> (r:
    Result<AcceptInvitationCommand, Reply>)
    ensures
        match identity::opt_identity(caller) {
            None => r matches Err(reply) && reply@ == unauthenticated_answer(),
            Some(i) => match i.email {
                None => r matches Err(reply) && reply@ == coded(
                    400,
                    "missing_email"@,
                    "Authenticated caller must have a verified email to accept an invitation"@,
                ),
                Some(email) => if configured {
                    r matches Ok(order) && order.token == token && order.authenticated_email@
                        == email && order.authenticated_user_id@ == i.sub
                } else {
                    r matches Err(reply) && reply@ == no_team_service()
                },
            },
        },
{
    let i = match caller {
        Some(i) => i,
        None => {
            return Err(unauthenticated());
        },
    };
    let email = match &i.email {
        Some(e) => e.clone(),
        None => {
            return Err(
                coded_reply(
                    400,
                    "missing_email",
                    "Authenticated caller must have a verified email to accept an invitation",
                ),
            );
        },
    };
    if let Err(reply) = team_service(configured) {
        return Err(reply);
    }
    Ok(
        AcceptInvitationCommand {
            token,
            authenticated_email: email,
            authenticated_user_id: i.sub.clone(),
        },
    )
}

/// The answer to an invitation that was accepted.
pub open spec fn accepted_answer(m: Membership) -> http::ReplyView {
    http::json_reply(
        200,
        JsonView::object().with("team_id"@, JsonView::Str(m.team_id@)).with(
            "user_id"@,
            JsonView::Str(m.user_id@),
        ).with("role"@, JsonView::Str(m.role@)).with("status"@, JsonView::Str(m.status@)),
    )
}

/// The answer to an invitation that was accepted.
pub fn invitation_accepted_reply(m: &Membership) -> (r: Reply)
    ensures
        r@ == accepted_answer(*m),
{
    Reply::json(
        200,
        Json::object().with("team_id", Json::text(m.team_id.as_str())).with(
            "user_id",
            Json::text(m.user_id.as_str()),
        ).with("role", Json::text(m.role.as_str())).with("status", Json::text(m.status.as_str())),
    )
}

/// The answer to a role that was changed.
pub open spec fn role_updated_answer() -> http::ReplyView {
    http::json_reply(200, JsonView::object().with("status"@, JsonView::Str("updated"@)))
}

/// The answer to a role that was changed.
pub fn role_updated_reply() -> (r: Reply)
    ensures
        r@ == role_updated_answer(),
{
    Reply::json(200, Json::object().with("status", Json::text("updated")))
}

/// The answer where a team has no sign-on of its own.
pub open spec fn enterprise_only(reading: bool) -> http::ReplyView {
    if reading {
        coded(
            403,
            "enterprise_only"@,
            "SAML federation is only available on Enterprise teams"@,
        )
    } else {
        http::error_reply(403, "enterprise_only"@)
    }
}

/// The answer where a team has no sign-on of its own.
pub fn enterprise_only_reply(reading: bool) -> (r: Reply)
    ensures
        r@ == enterprise_only(reading),
{
    if reading {
        coded_reply(
            403,
            "enterprise_only",
            "SAML federation is only available on Enterprise teams",
        )
    } else {
        Reply::error(403, "enterprise_only")
    }
}

/// Why a request about a team's own sign-on is refused, if it is: only a manager of a
/// team with its own realm may make one.
pub open spec fn saml_refusal(
    team: Team,
    members: Option<Seq<Membership>>,
    user_id: Seq<char>,
    has_directory: bool,
    reading: bool,
) -> Option<http::ReplyView> {
    if !has_own_realm(team.tier) {
        Some(enterprise_only(reading))
    } else if !(members is Some && is_manager(members->Some_0, user_id)) {
        Some(http::error_reply(403, "forbidden"@))
    } else if !has_directory {
        Some(http::error_reply(503, "Keycloak admin not configured"@))
    } else {
        None
    }
}

/// The view of members that could perhaps not be looked up.
pub open spec fn opt_members(members: Option<&Vec<Membership>>) -> Option<Seq<Membership>> {
    match members {
        Some(v) => Some(v@),
        None => None,
    }
}

/// The realm whose sign-on a request is about, or the answer that refuses it. The
/// members are missing where they could not be looked up.
pub fn saml_realm(
    team: &Team,
    members: Option<&Vec<Membership>>,
    user_id: &str,
    has_directory: bool,
    reading: bool,
) -> (r: Result<String, Reply>)
    ensures
        match saml_refusal(*team, opt_members(members), user_id@, has_directory, reading) {
            Some(refusal) => r matches Err(reply) && reply@ == refusal,
            None => r matches Ok(realm) && realm@ == "team-"@ + team.slug@,
        },
{
    if !needs_realm(&team.tier) {
        return Err(enterprise_only_reply(reading));
    }
    let admitted = match members {
        Some(v) => match caller_role(v, user_id) {
            Some(m) => m.active && m.can_manage,
            None => false,
        },
        None => false,
    };
    if !admitted {
        return Err(Reply::error(403, "forbidden"));
    }
    if !has_directory {
        return Err(Reply::error(503, "Keycloak admin not configured"));
    }
    Ok(team_realm(&team.tier, team.slug.as_str()))
}

/// How a team's users sign on elsewhere.
pub struct SamlIdpConfig {
    pub entity_id: String,
    pub sso_url: String,
    pub certificate: String,
}

/// The mathematical content of how a team's users sign on.
pub struct SamlIdpConfigView {
    pub entity_id: Seq<char>,
    pub sso_url: Seq<char>,
    pub certificate: Seq<char>,
}

impl View for SamlIdpConfig {
    type V = SamlIdpConfigView;

    open spec fn view(&self) -> SamlIdpConfigView {
        SamlIdpConfigView {
            entity_id: self.entity_id@,
            sso_url: self.sso_url@,
            certificate: self.certificate@,
        }
    }
}

impl SamlIdpConfig {
    /// The same once more.
    pub fn copy(&self) -> (r: Self)
        ensures
            r@ == self@,
    {
        SamlIdpConfig {
            entity_id: self.entity_id.clone(),
            sso_url: self.sso_url.clone(),
            certificate: self.certificate.clone(),
        }
    }
}

/// The answer that shows how a team's users sign on.
pub open spec fn saml_answer(found: Result<Option<SamlIdpConfig>, String>) -> http::ReplyView {
    match found {
        Ok(Some(cfg)) => http::json_reply(
            200,
            JsonView::object().with("entity_id"@, JsonView::Str(cfg.entity_id@)).with(
                "sso_url"@,
                JsonView::Str(cfg.sso_url@),
            ).with("certificate"@, JsonView::Str(cfg.certificate@)),
        ),
        Ok(None) => http::json_reply(200, JsonView::object().with("saml"@, JsonView::Null)),
        Err(e) => http::error_reply(500, e@),
    }
}

/// The answer that shows how a team's users sign on.
pub fn get_saml_config_reply(found: Result<Option<SamlIdpConfig>, String>) -> (r: Reply)
    ensures
        r@ == saml_answer(found),
{
    match found {
        Ok(Some(cfg)) => Reply::json(
            200,
            Json::object().with("entity_id", Json::Str(cfg.entity_id)).with(
                "sso_url",
                Json::Str(cfg.sso_url),
            ).with("certificate", Json::Str(cfg.certificate)),
        ),
        Ok(None) => Reply::json(200, Json::object().with("saml", Json::Null)),
        Err(e) => Reply::error(500, e.as_str()),
    }
}

/// The answer to a sign-on that was set; the failure is missing where it was.
pub open spec fn saml_set_answer(failure: Option<Seq<char>>) -> http::ReplyView {
    match failure {
        Some(e) => http::error_reply(500, e),
        None => http::json_reply(
            200,
            JsonView::object().with("status"@, JsonView::Str("configured"@)),
        ),
    }
}

/// The answer to a sign-on that was set; the failure is missing where it was.
pub fn set_saml_config_reply(failure: Option<&str>) -> (r: Reply)
    ensures
        r@ == saml_set_answer(text::opt_str_view(failure)),
{
    match failure {
        Some(e) => Reply::error(500, e),
        None => Reply::json(200, Json::object().with("status", Json::text("configured"))),
    }
}

/// What is read of a subscription, with the name of its status.
pub struct SubscriptionRow {
    pub tier: TenantTier,
    pub status: SubscriptionStatus,
    pub status_name: String,
    pub seat_count: u32,
    pub current_period_end: Option<Moment>,
}

/// The subscription that a reference points to, where there is one.
pub open spec fn opt_row(row: Option<&SubscriptionRow>) -> Option<SubscriptionRow> {
    match row {
        Some(r) => Some(*r),
        None => None,
    }
}

/// The tier that a subscription gives: the one that it is for, while it is active or
/// on trial; the free one otherwise, and where there is none.
pub open spec fn tier_given(row: Option<SubscriptionRow>) -> TenantTier {
    match row {
        Some(sub) => if sub.status == SubscriptionStatus::Active || sub.status
            == SubscriptionStatus::Trialing {
            sub.tier
        } else {
            TenantTier::Free
        },
        None => TenantTier::Free,
    }
}

/// The tier that a subscription gives.
pub fn effective_tier(row: Option<&SubscriptionRow>) -> (r: TenantTier)
    ensures
        r == tier_given(opt_row(row)),
{
    match row {
        Some(sub) => match sub.status {
            SubscriptionStatus::Active | SubscriptionStatus::Trialing => sub.tier,
            _ => TenantTier::Free,
        },
        None => TenantTier::Free,
    }
}

/// The number of members that a tier allows.
pub open spec fn member_limit(tier: TenantTier) -> u32 {
    match tier {
        TenantTier::Free => 1,
        TenantTier::Pro => 5,
        TenantTier::Business => 25,
        TenantTier::Enterprise => u32::MAX,
        TenantTier::System => u32::MAX,
    }
}

/// The number of members that a tier allows.
pub fn members_limit(tier: &TenantTier) -> (r: u32)
    ensures
        r == member_limit(*tier),
{
    match tier {
        TenantTier::Free => 1,
        TenantTier::Pro => 5,
        TenantTier::Business => 25,
        TenantTier::Enterprise | TenantTier::System => u32::MAX,
    }
}

/// What is shown of a subscription. The number of members of a team is missing where
/// the tenant is no team's; it is 0 where it could not be counted.
pub open spec fn subscription_shown(
    tier: TenantTier,
    team_members: Option<u32>,
    row: Option<SubscriptionRow>,
) -> JsonView {
    JsonView::object().with("tier"@, JsonView::Str(tier.name())).with(
        "members_used"@,
        JsonView::Int(
            match team_members {
                Some(n) => n as int,
                None => 1,
            },
        ),
    ).with("members_limit"@, JsonView::Int(member_limit(tier) as int)).with(
        "seat_count"@,
        match row {
            Some(sub) => JsonView::Int(sub.seat_count as int),
            None => JsonView::Null,
        },
    ).with(
        "status"@,
        JsonView::opt_text(
            match row {
                Some(sub) => Some(sub.status_name@),
                None => None,
            },
        ),
    ).with(
        "current_period_end"@,
        match row {
            Some(sub) => operator_read_models::opt_stamp_shown(sub.current_period_end),
            None => JsonView::Null,
        },
    ).with("is_team"@, JsonView::Bool(team_members is Some))
}

/// The answer that shows a subscription, under the tier that it gives.
pub fn get_subscription_reply(
    tier: TenantTier,
    team_members: Option<u32>,
    row: Option<&SubscriptionRow>,
) -> (r: Reply)
    ensures
        r@ == http::json_reply(200, subscription_shown(tier, team_members, opt_row(row))),
{
    let members_used: u32 = match team_members {
        Some(n) => n,
        None => 1,
    };
    let seat_count = match row {
        Some(sub) => Json::Int(sub.seat_count as i128),
        None => Json::Null,
    };
    let status = match row {
        Some(sub) => Json::text(sub.status_name.as_str()),
        None => Json::Null,
    };
    let period_end = match row {
        Some(sub) => operator_read_models::show_opt_stamp(sub.current_period_end),
        None => Json::Null,
    };
    Reply::json(
        200,
        Json::object().with("tier", Json::text(tier_str(&tier))).with(
            "members_used",
            Json::Int(members_used as i128),
        ).with("members_limit", Json::Int(members_limit(&tier) as i128)).with(
            "seat_count",
            seat_count,
        ).with("status", status).with("current_period_end", period_end).with(
            "is_team",
            Json::Bool(team_members.is_some()),
        ),
    )
}

/// A team is shown only to its active members: of a caller whose memberships are all
/// inactive none is shown, whatever the lookups found.
pub proof fn law_inactive_members_see_no_team(lookups: Seq<TeamLookup>)
    requires
        forall|i: int| 0 <= i < lookups.len() ==> !(#[trigger] lookups[i]).membership.active,
    ensures
        team_summaries(lookups) == Ok::<Seq<JsonView>, Seq<char>>(Seq::empty()),
    decreases lookups.len(),
{
    if lookups.len() > 0 {
        assert(!lookups[lookups.len() - 1].membership.active);
        assert forall|i: int| 0 <= i < lookups.drop_last().len() implies !(
        #[trigger] lookups.drop_last()[i]).membership.active by {
            assert(lookups.drop_last()[i] == lookups[i]);
        }
        law_inactive_members_see_no_team(lookups.drop_last());
    }
}

/// A tenant of one consumer is never taken for a team's, nor a team's for a consumer's.
pub proof fn law_tenant_kinds_are_told_apart(rest: Seq<char>)
    ensures
        kind_of_slug("u-"@ + rest) == TenantKind::Consumer,
        kind_of_slug("t-"@ + rest) == TenantKind::Team,
{
    reveal_strlit("u-");
    reveal_strlit("t-");
    reveal_strlit("aegis-system");
    reveal_strlit("zaru-consumer");
    let u = "u-"@ + rest;
    let t = "t-"@ + rest;
    assert(u[0] == 'u');
    assert(t[0] == 't');
    assert("aegis-system"@[0] == 'a');
    assert("zaru-consumer"@[0] == 'z');
    assert("u-"@ =~= u.take(2));
    assert("t-"@ =~= t.take(2));
    assert("u-"@[0] != t[0]);
}

/// A subscription that has ended, or of which payment is overdue, gives no more than
/// the free tier, and so no more than one member.
pub proof fn law_lapsed_subscriptions_are_free(row: SubscriptionRow)
    requires
        row.status != SubscriptionStatus::Active,
        row.status != SubscriptionStatus::Trialing,
    ensures
        tier_given(Some(row)) == TenantTier::Free,
        member_limit(tier_given(Some(row))) == 1,
{
}

/// An answer that carries a code and a message: each part is found under its own name,
/// as it is.
pub proof fn law_coded_holds_its_parts(
    status: u16,
    code: Seq<char>,
    message: Seq<char>,
)
    ensures
        coded(status, code, message).status == status,
        coded(status, code, message).body is Some,
        coded(status, code, message).body->Some_0.get("error"@) == Some(JsonView::Str(code)),
        coded(status, code, message).body->Some_0.get("message"@) == Some(JsonView::Str(message)),
{
    broadcast use crate::json::lemma_get_with;

    reveal_strlit("error");
    reveal_strlit("message");
    assert("error"@.len() == 5 && "message"@.len() == 7);
}

/// A team among the teams of a caller: each part is found under its own name, as it is.
pub proof fn law_team_summary_holds_its_parts(
    m: Membership,
    team: Team,
    member_count: u32,
)
    ensures
        team_summary(m, team, member_count).get("id"@) == Some(JsonView::Str(team.id@)),
        team_summary(m, team, member_count).get("slug"@) == Some(JsonView::Str(team.slug@)),
        team_summary(m, team, member_count).get("display_name"@) == Some(JsonView::Str(team.display_name@)),
        team_summary(m, team, member_count).get("tier"@) == Some(JsonView::Str(team.tier.name())),
        team_summary(m, team, member_count).get("tenant_id"@) == Some(JsonView::Str(team.tenant_id@)),
        team_summary(m, team, member_count).get("role"@) == Some(JsonView::Str(m.role@)),
        team_summary(m, team, member_count).get("status"@) == Some(JsonView::Str(m.status@)),
        team_summary(m, team, member_count).get("member_count"@) == Some(JsonView::Int(member_count as int)),
{
    broadcast use crate::json::lemma_get_with;

    reveal_strlit("id");
    reveal_strlit("slug");
    reveal_strlit("display_name");
    reveal_strlit("tier");
    reveal_strlit("tenant_id");
    reveal_strlit("role");
    reveal_strlit("status");
    reveal_strlit("member_count");
    assert("id"@.len() == 2 && "slug"@.len() == 4 && "display_name"@.len() == 12 && "tier"@.len() == 4 && "tenant_id"@.len() == 9 && "role"@.len() == 4 && "status"@.len() == 6 && "member_count"@.len() == 12 && "tier"@[0] == 't' && "slug"@[0] == 's' && "role"@[0] == 'r' && "member_count"@[0] == 'm' && "display_name"@[0] == 'd');
}

/// The answer to a team that was founded: each part is found under its own name, as it
/// is.
pub proof fn law_created_answer_holds_its_parts(
    team: Team,
)
    ensures
        created_answer(team).status == 201,
        created_answer(team).body is Some,
        created_answer(team).body->Some_0.get("team"@) == Some(JsonView::object().with("id"@, JsonView::Str(team.id@)).with( "slug"@, JsonView::Str(team.slug@), ).with("display_name"@, JsonView::Str(team.display_name@)).with( "tier"@, JsonView::Str(team.tier.name()), ).with("tenant_id"@, JsonView::Str(team.tenant_id@))),
        created_answer(team).body->Some_0.get("team"@)->Some_0.get("id"@) == Some(JsonView::Str(team.id@)),
        created_answer(team).body->Some_0.get("team"@)->Some_0.get("slug"@) == Some(JsonView::Str(team.slug@)),
        created_answer(team).body->Some_0.get("team"@)->Some_0.get("display_name"@) == Some(JsonView::Str(team.display_name@)),
        created_answer(team).body->Some_0.get("team"@)->Some_0.get("tier"@) == Some(JsonView::Str(team.tier.name())),
        created_answer(team).body->Some_0.get("team"@)->Some_0.get("tenant_id"@) == Some(JsonView::Str(team.tenant_id@)),
{
    broadcast use crate::json::lemma_get_with;

    reveal_strlit("team");
    reveal_strlit("id");
    reveal_strlit("slug");
    reveal_strlit("display_name");
    reveal_strlit("tier");
    reveal_strlit("tenant_id");
    assert("team"@.len() == 4 && "id"@.len() == 2 && "slug"@.len() == 4 && "display_name"@.len() == 12 && "tier"@.len() == 4 && "tenant_id"@.len() == 9 && "slug"@[0] == 's' && "team"@[0] == 't' && "tier"@[1] == 'i' && "team"@[1] == 'e' && "tier"@[0] == 't');
}

/// A member as it is shown, with what the identity provider knows of it, if anything:
/// each part is found under its own name, as it is.
pub proof fn law_member_view_holds_its_parts(
    m: Membership,
    user: Option<DirectoryUser>,
)
    ensures
        member_view(m, user).get("user_id"@) == Some(JsonView::Str(m.user_id@)),
        member_view(m, user).get("email"@) == Some(JsonView::opt_text( match user { Some(u) => text::opt_view(u.email), None => None, }, )),
        member_view(m, user).get("name"@) == Some(JsonView::opt_text( match user { Some(u) => full_name(text::opt_view(u.first_name), text::opt_view(u.last_name)), None => None, }, )),
        member_view(m, user).get("role"@) == Some(JsonView::Str(m.role@)),
        member_view(m, user).get("status"@) == Some(JsonView::Str(m.status@)),
        member_view(m, user).get("joined_at"@) == Some(JsonView::Int(m.joined_at_ms as int)),
{
    broadcast use crate::json::lemma_get_with;

    reveal_strlit("user_id");
    reveal_strlit("email");
    reveal_strlit("name");
    reveal_strlit("role");
    reveal_strlit("status");
    reveal_strlit("joined_at");
    assert("user_id"@.len() == 7 && "email"@.len() == 5 && "name"@.len() == 4 && "role"@.len() == 4 && "status"@.len() == 6 && "joined_at"@.len() == 9 && "role"@[0] == 'r' && "name"@[0] == 'n');
}

/// The answer that lists the members of a team: each part is found under its own name,
/// as it is.
pub proof fn law_members_answer_holds_its_parts(
    members: Seq<(Membership, Option<DirectoryUser>)>,
)
    ensures
        members_answer(members).status == 200,
        members_answer(members).body is Some,
        members_answer(members).body->Some_0.get("members"@) == Some(JsonView::Arr( members.map_values( |m: (Membership, Option<DirectoryUser>)| member_view(m.0, m.1), ), )),
        members_answer(members).body->Some_0.get("count"@) == Some(JsonView::Int(members.len() as int)),
{
    broadcast use crate::json::lemma_get_with;

    reveal_strlit("members");
    reveal_strlit("count");
    assert("members"@.len() == 7 && "count"@.len() == 5);
}

/// The answer to an invitation that was issued: each part is found under its own name,
/// as it is.
pub proof fn law_issued_answer_holds_its_parts(
    issued: IssuedInvitation,
)
    ensures
        issued_answer(issued).status == 201,
        issued_answer(issued).body is Some,
        issued_answer(issued).body->Some_0.get("invitation"@) == Some(JsonView::object().with("id"@, JsonView::Str(issued.id@)).with( "team_id"@, JsonView::Str(issued.team_id@), ).with("invitee_email"@, JsonView::Str(issued.invitee_email@)).with( "token"@, JsonView::Str(issued.raw_token@), ).with("expires_at"@, operator_read_models::stamp_shown(issued.expires_at))),
        issued_answer(issued).body->Some_0.get("invitation"@)->Some_0.get("id"@) == Some(JsonView::Str(issued.id@)),
        issued_answer(issued).body->Some_0.get("invitation"@)->Some_0.get("team_id"@) == Some(JsonView::Str(issued.team_id@)),
        issued_answer(issued).body->Some_0.get("invitation"@)->Some_0.get("invitee_email"@) == Some(JsonView::Str(issued.invitee_email@)),
        issued_answer(issued).body->Some_0.get("invitation"@)->Some_0.get("token"@) == Some(JsonView::Str(issued.raw_token@)),
        issued_answer(issued).body->Some_0.get("invitation"@)->Some_0.get("expires_at"@) == Some(operator_read_models::stamp_shown(issued.expires_at)),
{
    broadcast use crate::json::lemma_get_with;

    reveal_strlit("invitation");
    reveal_strlit("id");
    reveal_strlit("team_id");
    reveal_strlit("invitee_email");
    reveal_strlit("token");
    reveal_strlit("expires_at");
    assert("invitation"@.len() == 10 && "id"@.len() == 2 && "team_id"@.len() == 7 && "invitee_email"@.len() == 13 && "token"@.len() == 5 && "expires_at"@.len() == 10 && "expires_at"@[0] == 'e' && "invitation"@[0] == 'i');
}

/// The invitation as it is shown: each part is found under its own name, as it is.
pub proof fn law_invitation_shown_holds_its_parts(
    row: Invitation,
)
    ensures
        row.shown().get("id"@) == Some(JsonView::Str(row.id@)),
        row.shown().get("team_id"@) == Some(JsonView::Str(row.team_id@)),
        row.shown().get("invitee_email"@) == Some(JsonView::Str(row.invitee_email@)),
        row.shown().get("status"@) == Some(JsonView::Str(row.status@)),
        row.shown().get("expires_at"@) == Some(operator_read_models::stamp_shown(row.expires_at)),
        row.shown().get("created_at"@) == Some(operator_read_models::stamp_shown(row.created_at)),
        row.shown().get("invited_by"@) == Some(JsonView::Str(row.invited_by@)),
{
    broadcast use crate::json::lemma_get_with;

    reveal_strlit("id");
    reveal_strlit("team_id");
    reveal_strlit("invitee_email");
    reveal_strlit("status");
    reveal_strlit("expires_at");
    reveal_strlit("created_at");
    reveal_strlit("invited_by");
    assert("id"@.len() == 2 && "team_id"@.len() == 7 && "invitee_email"@.len() == 13 && "status"@.len() == 6 && "expires_at"@.len() == 10 && "created_at"@.len() == 10 && "invited_by"@.len() == 10 && "created_at"@[0] == 'c' && "expires_at"@[0] == 'e' && "invited_by"@[0] == 'i');
}

/// The answer that lists the pending invitations of a team: each part is found under
/// its own name, as it is.
pub proof fn law_invitations_answer_holds_its_parts(
    invitations: Seq<Invitation>,
)
    ensures
        invitations_answer(invitations).status == 200,
        invitations_answer(invitations).body is Some,
        invitations_answer(invitations).body->Some_0.get("invitations"@) == Some(JsonView::Arr(pending_shown(invitations))),
        invitations_answer(invitations).body->Some_0.get("count"@) == Some(JsonView::Int(pending_shown(invitations).len() as int)),
{
    broadcast use crate::json::lemma_get_with;

    reveal_strlit("invitations");
    reveal_strlit("count");
    assert("invitations"@.len() == 11 && "count"@.len() == 5);
}

/// The answer to an invitation that was accepted: each part is found under its own
/// name, as it is.
pub proof fn law_accepted_answer_holds_its_parts(
    m: Membership,
)
    ensures
        accepted_answer(m).status == 200,
        accepted_answer(m).body is Some,
        accepted_answer(m).body->Some_0.get("team_id"@) == Some(JsonView::Str(m.team_id@)),
        accepted_answer(m).body->Some_0.get("user_id"@) == Some(JsonView::Str(m.user_id@)),
        accepted_answer(m).body->Some_0.get("role"@) == Some(JsonView::Str(m.role@)),
        accepted_answer(m).body->Some_0.get("status"@) == Some(JsonView::Str(m.status@)),
{
    broadcast use crate::json::lemma_get_with;

    reveal_strlit("team_id");
    reveal_strlit("user_id");
    reveal_strlit("role");
    reveal_strlit("status");
    assert("team_id"@.len() == 7 && "user_id"@.len() == 7 && "role"@.len() == 4 && "status"@.len() == 6 && "user_id"@[0] == 'u' && "team_id"@[0] == 't');
}

/// The answer to a role that was changed: each part is found under its own name, as it
/// is.
pub proof fn law_role_updated_answer_holds_its_parts()
    ensures
        role_updated_answer().status == 200,
        role_updated_answer().body is Some,
        role_updated_answer().body->Some_0.get("status"@) == Some(JsonView::Str("updated"@)),
{
    broadcast use crate::json::lemma_get_with;

    reveal_strlit("status");
    assert("status"@.len() == 6);
}

/// What is shown of a subscription: each part is found under its own name, as it is.
pub proof fn law_subscription_shown_holds_its_parts(
    tier: TenantTier,
    team_members: Option<u32>,
    row: Option<SubscriptionRow>,
)
    ensures
        subscription_shown(tier, team_members, row).get("tier"@) == Some(JsonView::Str(tier.name())),
        subscription_shown(tier, team_members, row).get("members_used"@) == Some(JsonView::Int( match team_members { Some(n) => n as int, None => 1, }, )),
        subscription_shown(tier, team_members, row).get("members_limit"@) == Some(JsonView::Int(member_limit(tier) as int)),
        subscription_shown(tier, team_members, row).get("seat_count"@) == Some(match row { Some(sub) => JsonView::Int(sub.seat_count as int), None => JsonView::Null, }),
        subscription_shown(tier, team_members, row).get("status"@) == Some(JsonView::opt_text( match row { Some(sub) => Some(sub.status_name@), None => None, }, )),
        subscription_shown(tier, team_members, row).get("current_period_end"@) == Some(match row { Some(sub) => operator_read_models::opt_stamp_shown(sub.current_period_end), None => JsonView::Null, }),
        subscription_shown(tier, team_members, row).get("is_team"@) == Some(JsonView::Bool(team_members is Some)),
{
    broadcast use crate::json::lemma_get_with;

    reveal_strlit("tier");
    reveal_strlit("members_used");
    reveal_strlit("members_limit");
    reveal_strlit("seat_count");
    reveal_strlit("status");
    reveal_strlit("current_period_end");
    reveal_strlit("is_team");
    assert("tier"@.len() == 4 && "members_used"@.len() == 12 && "members_limit"@.len() == 13 && "seat_count"@.len() == 10 && "status"@.len() == 6 && "current_period_end"@.len() == 18 && "is_team"@.len() == 7);
}

/// A team is of one of three tiers, whatever the case that its name is written in.
pub proof fn law_teams_are_of_a_paid_tier(name: Seq<char>)
    ensures
        team_tier(name) == Some(TenantTier::Pro) <==> text::lowered(name) == "pro"@,
        team_tier(name) == Some(TenantTier::Business) <==> text::lowered(name) == "business"@,
        team_tier(name) == Some(TenantTier::Enterprise) <==> text::lowered(name)
            == "enterprise"@,
        team_tier(name) is None <==> text::lowered(name) != "pro"@ && text::lowered(name)
            != "business"@ && text::lowered(name) != "enterprise"@,
{
    reveal_strlit("pro");
    reveal_strlit("business");
    reveal_strlit("enterprise");
    assert("pro"@.len() == 3 && "business"@.len() == 8 && "enterprise"@.len() == 10);
}

/// What goes wrong with a team is answered by its kind, under a code of its own.
pub proof fn law_team_failures_by_status(e: TeamServiceError)
    ensures
        team_error(e).0 == 403 <==> e == TeamServiceError::Unauthorized || e
            == TeamServiceError::TierNotPermitted,
        team_error(e).0 == 402 <==> e == TeamServiceError::PersonalTierTooLow,
        team_error(e).0 == 409 <==> e == TeamServiceError::SeatCapReached || e
            == TeamServiceError::InvitationNotPending,
        team_error(e).0 == 404 <==> e == TeamServiceError::NotFound,
        team_error(e).0 == 410 <==> e == TeamServiceError::InvitationExpired,
        team_error(e).0 == 400 <==> e == TeamServiceError::InvalidInvitation || e
            == TeamServiceError::OwnerRoleImmutable || e == TeamServiceError::InvalidCommand || e
            == TeamServiceError::Domain,
        team_error(e).0 == 503 <==> e == TeamServiceError::InvitationsNotConfigured,
        team_error(e).0 == 500 <==> e == TeamServiceError::Repository || e
            == TeamServiceError::Billing,
        team_error(TeamServiceError::Unauthorized).1 == "forbidden"@,
        team_error(TeamServiceError::TierNotPermitted).1 == "tier_not_permitted"@,
        team_error(TeamServiceError::PersonalTierTooLow).1 == "personal_tier_too_low"@,
        team_error(TeamServiceError::SeatCapReached).1 == "seat_cap_reached"@,
        team_error(TeamServiceError::NotFound).1 == "not_found"@,
        team_error(TeamServiceError::InvalidInvitation).1 == "invalid_invitation"@,
        team_error(TeamServiceError::InvitationExpired).1 == "invitation_expired"@,
        team_error(TeamServiceError::InvitationNotPending).1 == "invitation_not_pending"@,
        team_error(TeamServiceError::OwnerRoleImmutable).1 == "owner_role_immutable"@,
        team_error(TeamServiceError::InvalidCommand).1 == "invalid_command"@,
        team_error(TeamServiceError::Domain).1 == "domain_invariant"@,
        team_error(TeamServiceError::InvitationsNotConfigured).1
            == "invitations_not_configured"@,
        team_error(TeamServiceError::Repository).1 == "internal"@,
        team_error(TeamServiceError::Billing).1 == "internal"@,
{
}

/// A user's membership is the first that is theirs; they are a member where it is active,
/// and manage the team where it also lets them.
pub proof fn law_memberships_are_the_users(
    members: Seq<Membership>,
    user: Seq<char>,
    at: int,
)
    requires
        0 <= at <= members.len(),
        forall|j: int| 0 <= j < at ==> (#[trigger] members[j]).user_id@ != user,
        at < members.len() ==> members[at].user_id@ == user,
    ensures
        at < members.len() ==> membership_of(members, user) == Some(members[at]),
        at < members.len() ==> (is_member(members, user) <==> members[at].active),
        at < members.len() ==> (is_manager(members, user) <==> members[at].active
            && members[at].can_manage),
        at == members.len() ==> membership_of(members, user) is None && !is_member(members, user)
            && !is_manager(members, user),
    decreases members.len(),
{
    if at > 0 {
        assert(members[0].user_id@ != user);
        let rest = members.skip(1);
        assert forall|j: int| 0 <= j < at - 1 implies (#[trigger] rest[j]).user_id@ != user by {
            assert(rest[j] == members[j + 1]);
        }
        law_memberships_are_the_users(rest, user, at - 1);
    }
}

/// Each team that an active member is in is told after those before it, with its own count;
/// a team that could not be looked up fails the list.
pub proof fn law_each_team_is_told(
    lookups: Seq<TeamLookup>,
    last: TeamLookup,
    before: Seq<JsonView>,
    team: Team,
    count: Option<u32>,
    n: u32,
    e: String,
)
    requires
        team_summaries(lookups) == Ok::<Seq<JsonView>, Seq<char>>(before),
        last.membership.active,
    ensures
        last.team == Ok::<Option<(Team, Option<u32>)>, String>(Some((team, Some(n))))
            ==> team_summaries(lookups.push(last)) == Ok::<Seq<JsonView>, Seq<char>>(
            before.push(team_summary(last.membership, team, n)),
        ),
        last.team == Ok::<Option<(Team, Option<u32>)>, String>(Some((team, None)))
            ==> team_summaries(lookups.push(last)) == Ok::<Seq<JsonView>, Seq<char>>(
            before.push(team_summary(last.membership, team, 0)),
        ),
        last.team == Ok::<Option<(Team, Option<u32>)>, String>(None) ==> team_summaries(
            lookups.push(last),
        ) == Ok::<Seq<JsonView>, Seq<char>>(before),
        last.team == Err::<Option<(Team, Option<u32>)>, String>(e) ==> team_summaries(
            lookups.push(last),
        ) == Err::<Seq<JsonView>, Seq<char>>(e@),
{
    assert(lookups.push(last).drop_last() =~= lookups);
}

/// A team is made by a known caller with an address, at a paid tier, where teams are set
/// up; what is missing is told.
pub proof fn law_who_may_make_a_team(i: UserIdentityView, tier: Seq<char>, configured: bool)
    ensures
        create_refusal(Some(i), tier, configured) is None <==> i.email is Some && team_tier(
            tier,
        ) is Some && configured,
        create_refusal(None, tier, configured) matches Some(r) && r.status == 401,
        i.email is None ==> (create_refusal(Some(i), tier, configured) matches Some(r) && r.status
            == 400),
        i.email is Some && team_tier(tier) is None ==> (create_refusal(
            Some(i),
            tier,
            configured,
        ) matches Some(r) && r.status == 400),
        i.email is Some && team_tier(tier) is Some && !configured ==> (create_refusal(
            Some(i),
            tier,
            configured,
        ) matches Some(r) && r.status == 503),
{
}

/// Teams of the highest tier have a realm of their own; the others are groups in the shared
/// one.
pub proof fn law_realms_of_teams(tier: TenantTier, slug: Seq<char>)
    ensures
        has_own_realm(tier) <==> tier == TenantTier::Enterprise,
        realm_of(TenantTier::Enterprise, slug) == "team-"@ + slug,
        tier != TenantTier::Enterprise ==> realm_of(tier, slug) == "zaru-consumer"@,
        cleanup_of(TenantTier::Enterprise, slug) == CleanupView::Realm("team-"@ + slug),
        tier != TenantTier::Enterprise ==> cleanup_of(tier, slug) == CleanupView::Group(slug),
{
}

/// A name is made of its two parts, or of the one that there is.
pub proof fn law_names_are_made_of_their_parts(a: Seq<char>, b: Seq<char>)
    ensures
        full_name(Some(a), Some(b)) == Some(a + " "@ + b),
        full_name(Some(a), None) == Some(a),
        full_name(None, Some(b)) == Some(b),
        full_name(None, None) is None,
{
}

/// Every member is listed, with what is known of them.
pub proof fn law_every_member_is_listed(
    members: Seq<(Membership, Option<DirectoryUser>)>,
    i: int,
)
    requires
        0 <= i < members.len(),
    ensures
        ({
            &&& members_answer(members).status == 200
            &&& members_answer(members).body matches Some(body)
            &&& body.get("members"@) matches Some(JsonView::Arr(shown))
            &&& shown.len() == members.len()
            &&& shown[i].get("user_id"@) == Some(JsonView::Str(members[i].0.user_id@))
            &&& shown[i].get("role"@) == Some(JsonView::Str(members[i].0.role@))
            &&& shown[i].get("status"@) == Some(JsonView::Str(members[i].0.status@))
            &&& members[i].1 matches Some(u) ==> (u.email matches Some(email) ==> shown[i].get(
                "email"@,
            ) == Some(JsonView::Str(email@)))
            &&& body.get("count"@) == Some(JsonView::Int(members.len() as int))
        }),
{
    broadcast use crate::json::lemma_get_with;

    reveal_strlit("user_id");
    reveal_strlit("email");
    reveal_strlit("name");
    reveal_strlit("role");
    reveal_strlit("status");
    reveal_strlit("joined_at");
    reveal_strlit("members");
    reveal_strlit("count");
    assert("user_id"@.len() == 7 && "email"@.len() == 5 && "name"@.len() == 4 && "role"@.len() == 4 && "status"@.len() == 6 && "joined_at"@.len() == 9 && "members"@.len() == 7 && "count"@.len() == 5 && "role"@[0] == 'r' && "name"@[0] == 'n' && "members"@[0] == 'm' && "user_id"@[0] == 'u' && "count"@[0] == 'c' && "email"@[0] == 'e');
}

/// Every invitation that is pending is listed, in its order, and no other.
pub proof fn law_pending_invitations_are_listed(invitations: Seq<Invitation>, last: Invitation)
    ensures
        last.pending ==> pending_shown(invitations.push(last)) == pending_shown(invitations).push(
            last.shown(),
        ),
        !last.pending ==> pending_shown(invitations.push(last)) == pending_shown(invitations),
        pending_shown(Seq::empty()).len() == 0,
{
    reveal(Seq::filter);
    assert(invitations.push(last).drop_last() =~= invitations);
    assert(last.pending ==> pending_shown(invitations.push(last)) =~= pending_shown(
        invitations,
    ).push(last.shown()));
}

/// Sign-on is for the managers of teams with a realm of their own, where there is a
/// directory.
pub proof fn law_sign_on_is_for_managers(
    team: Team,
    members: Seq<Membership>,
    user: Seq<char>,
    has_directory: bool,
    reading: bool,
)
    ensures
        saml_refusal(team, Some(members), user, has_directory, reading) is None <==> team.tier
            == TenantTier::Enterprise && is_manager(members, user) && has_directory,
        saml_refusal(team, None, user, has_directory, reading) is Some,
        team.tier != TenantTier::Enterprise ==> (saml_refusal(
            team,
            Some(members),
            user,
            has_directory,
            reading,
        ) matches Some(r) && r.status == 403),
        team.tier == TenantTier::Enterprise && !is_manager(members, user) ==> (saml_refusal(
            team,
            Some(members),
            user,
            has_directory,
            reading,
        ) matches Some(r) && r.status == 403),
        team.tier == TenantTier::Enterprise && is_manager(members, user) && !has_directory ==> (
        saml_refusal(team, Some(members), user, has_directory, reading) matches Some(r) && r.status
            == 503),
{
}

/// The set-up of sign-on is told as it is.
pub proof fn law_sign_on_is_told(cfg: SamlIdpConfig, e: String)
    ensures
        ({
            &&& saml_answer(Ok(Some(cfg))).status == 200
            &&& saml_answer(Ok(Some(cfg))).body matches Some(body)
            &&& body.get("entity_id"@) == Some(JsonView::Str(cfg.entity_id@))
            &&& body.get("sso_url"@) == Some(JsonView::Str(cfg.sso_url@))
            &&& body.get("certificate"@) == Some(JsonView::Str(cfg.certificate@))
        }),
        saml_answer(Ok(None)).status == 200,
        saml_answer(Ok(None)).body matches Some(body) && body.get("saml"@) == Some(JsonView::Null),
        saml_answer(Err(e)).status == 500,
        saml_set_answer(None).status == 200,
        saml_set_answer(Some(e@)).status == 500,
{
    broadcast use crate::json::lemma_get_with;

    reveal_strlit("entity_id");
    reveal_strlit("sso_url");
    reveal_strlit("certificate");
    assert("entity_id"@.len() == 9 && "sso_url"@.len() == 7 && "certificate"@.len() == 11);
}

/// A running subscription gives its tier, a trial too; without one the tier is the free one.
/// Each tier has room for its number of members.
pub proof fn law_tiers_give_room(row: SubscriptionRow)
    ensures
        row.status == SubscriptionStatus::Active || row.status == SubscriptionStatus::Trialing
            ==> tier_given(Some(row)) == row.tier,
        row.status != SubscriptionStatus::Active && row.status != SubscriptionStatus::Trialing
            ==> tier_given(Some(row)) == TenantTier::Free,
        tier_given(None) == TenantTier::Free,
        member_limit(TenantTier::Free) == 1,
        member_limit(TenantTier::Pro) == 5,
        member_limit(TenantTier::Business) == 25,
        member_limit(TenantTier::Enterprise) == u32::MAX,
        member_limit(TenantTier::System) == u32::MAX,
{
}

/// A subscription is shown with its tier, the room and the members that it has, and what
/// its record says.
pub proof fn law_subscriptions_are_shown(tier: TenantTier, n: u32, row: SubscriptionRow)
    ensures
        subscription_shown(tier, Some(n), Some(row)).get("members_used"@) == Some(
            JsonView::Int(n as int),
        ),
        subscription_shown(tier, None, Some(row)).get("members_used"@) == Some(JsonView::Int(1)),
        subscription_shown(tier, Some(n), Some(row)).get("seat_count"@) == Some(
            JsonView::Int(row.seat_count as int),
        ),
        subscription_shown(tier, Some(n), None).get("seat_count"@) == Some(JsonView::Null),
        subscription_shown(tier, Some(n), Some(row)).get("status"@) == Some(
            JsonView::Str(row.status_name@),
        ),
        subscription_shown(tier, Some(n), Some(row)).get("is_team"@) == Some(JsonView::Bool(true)),
        subscription_shown(tier, None, Some(row)).get("is_team"@) == Some(JsonView::Bool(false)),
        subscription_shown(tier, None, Some(row)).get("members_limit"@) == Some(
            JsonView::Int(member_limit(tier) as int),
        ),
{
    broadcast use crate::json::lemma_get_with;

    reveal_strlit("tier");
    reveal_strlit("members_used");
    reveal_strlit("members_limit");
    reveal_strlit("seat_count");
    reveal_strlit("status");
    reveal_strlit("current_period_end");
    reveal_strlit("is_team");
    assert("tier"@.len() == 4 && "members_used"@.len() == 12 && "members_limit"@.len() == 13 && "seat_count"@.len() == 10 && "status"@.len() == 6 && "current_period_end"@.len() == 18 && "is_team"@.len() == 7);
}

} // verus!
