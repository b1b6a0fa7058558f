//! The daemon's HTTP handlers: what each request is answered, and what it asks of
//! the services behind it.

use crate::identity::{IdentityKind, IdentityKindView, TenantId, UserIdentity, UserIdentityView};
use vstd::prelude::*;

pub mod admin;
pub mod agents;
pub mod api_keys;
pub mod approvals;
pub mod billing;
pub mod canvas;
pub mod cluster;
pub mod colony;
pub mod cortex;
pub mod credential_requests;
pub mod credentials;
pub mod dispatch;
pub mod executions;
pub mod git_repo;
pub mod health;
pub mod observability;
pub mod permissions;
pub mod scope;
pub mod script;
pub mod seal;
pub mod stimulus;
pub mod swarms;
pub mod team_requests;
pub mod tenant_provisioning;
pub mod uploads;
pub mod volume_requests;
pub mod volumes;
pub mod workflows;

verus! {

/// How many executions one request may list where nothing else is configured.
pub const DEFAULT_MAX_EXECUTION_LIST_LIMIT: usize = 1000;

/// The header by which a service account names the tenant it acts for.
pub const TENANT_DELEGATION_HEADER: &'static str = "x-tenant-id";

/// The tenant that a caller's claims name: `default_tenant` where there is no
/// caller.
pub open spec fn tenant_of_identity(
    identity: Option<UserIdentityView>,
    default_tenant: Seq<char>,
) -> Seq<char> {
    match identity {
        Some(i) => match i.identity_kind {
            IdentityKindView::ConsumerUser { tenant_id, .. } => tenant_id,
            IdentityKindView::TenantUser { tenant, .. } => match tenant {
                Some(t) => t,
                None => "zaru-consumer"@,
            },
            IdentityKindView::Operator { .. } => "aegis-system"@,
            IdentityKindView::ServiceAccount { .. } => "aegis-system"@,
        },
        None => default_tenant,
    }
}

/// The tenant that a caller's claims name.
pub fn tenant_id_from_identity(identity: Option<&UserIdentity>, default_tenant: &TenantId) -> (r:
    TenantId)
    ensures
        r@ == tenant_of_identity(crate::identity::opt_identity(identity), default_tenant@),
{
    match identity {
        Some(i) => match &i.identity_kind {
            IdentityKind::ConsumerUser { tenant_id, .. } => tenant_id.clone(),
            IdentityKind::TenantUser { tenant, .. } => match tenant {
                Some(t) => t.clone(),
                None => TenantId::consumer(),
            },
            IdentityKind::Operator { .. } => TenantId::system(),
            IdentityKind::ServiceAccount { .. } => TenantId::system(),
        },
        None => default_tenant.clone(),
    }
}

/// The tenant that a request is for. A service account acts for the tenant that
/// it delegates to; for every other caller the header counts for nothing.
pub open spec fn tenant_of_request(
    identity: Option<UserIdentityView>,
    delegation: Option<Seq<char>>,
    default_tenant: Seq<char>,
) -> Seq<char> {
    if identity is Some && identity->Some_0.identity_kind is ServiceAccount && delegation is Some
        && delegation->Some_0.len() > 0 {
        delegation->Some_0
    } else {
        tenant_of_identity(identity, default_tenant)
    }
}

/// The tenant that a request is for.
pub fn tenant_id_from_request(
    identity: Option<&UserIdentity>,
    delegation_tenant_id: Option<&str>,
    default_tenant: &TenantId,
) -> (r: TenantId)
    ensures
        r@ == tenant_of_request(
            crate::identity::opt_identity(identity),
            crate::text::opt_str_view(delegation_tenant_id),
            default_tenant@,
        ),
{
    if let Some(i) = identity {
        if let IdentityKind::ServiceAccount { .. } = &i.identity_kind {
            if let Some(slug) = delegation_tenant_id {
                if !slug.is_empty() {
                    return TenantId::new(slug);
                }
            }
        }
    }
    tenant_id_from_identity(identity, default_tenant)
}

/// Whose things a request is about: a user within a tenant.
pub struct Owner {
    pub tenant_id: TenantId,
    pub sub: String,
}

/// The mathematical content of an owner.
pub struct OwnerView {
    pub tenant_id: Seq<char>,
    pub sub: Seq<char>,
}

impl View for Owner {
    type V = OwnerView;

    open spec fn view(&self) -> OwnerView {
        OwnerView { tenant_id: self.tenant_id@, sub: self.sub@ }
    }
}

/// Whose things a caller's request is about.
pub open spec fn owner_of(
    identity: Option<UserIdentityView>,
    default_tenant: Seq<char>,
) -> OwnerView {
    OwnerView {
        tenant_id: tenant_of_identity(identity, default_tenant),
        sub: crate::identity::sub_of(identity),
    }
}

/// Whose things a caller's request is about.
pub fn request_owner(identity: Option<&UserIdentity>, default_tenant: &TenantId) -> (r: Owner)
    ensures
        r@ == owner_of(crate::identity::opt_identity(identity), default_tenant@),
{
    Owner {
        tenant_id: tenant_id_from_identity(identity, default_tenant),
        sub: crate::identity::user_sub(identity),
    }
}

/// How many items a request gets.
pub open spec fn limit_within(limit: Option<usize>, default: usize, maximum: usize) -> usize {
    let wanted = match limit {
        Some(n) => n,
        None => default,
    };
    let capped = if wanted < maximum { wanted } else { maximum };
    if capped < 1 { 1 } else { capped }
}

/// How many items a request gets: what it asks for, at most the maximum, at least
/// one.
pub fn bounded_limit(limit: Option<usize>, default: usize, maximum: usize) -> (r: usize)
    ensures
        r == limit_within(limit, default, maximum),
{
    let wanted: usize = match limit {
        Some(n) => n,
        None => default,
    };
    let capped: usize = if wanted < maximum { wanted } else { maximum };
    if capped < 1 { 1 } else { capped }
}

/// A request always gets at least one item and never more than the maximum, unless
/// the maximum is zero; within those bounds it gets what it asks for.
pub proof fn law_limit_bounds(limit: Option<usize>, default: usize, maximum: usize)
    ensures
        1 <= limit_within(limit, default, maximum),
        maximum >= 1 ==> limit_within(limit, default, maximum) <= maximum,
        limit is Some && 1 <= limit->Some_0 <= maximum ==> limit_within(limit, default, maximum)
            == limit->Some_0,
{
}

/// Only a service account can act for a tenant other than the one its own claims
/// name.
pub proof fn law_only_service_accounts_delegate(
    identity: Option<UserIdentityView>,
    delegation: Option<Seq<char>>,
    default_tenant: Seq<char>,
)
    requires
        identity is None || !(identity->Some_0.identity_kind is ServiceAccount),
    ensures
        tenant_of_request(identity, delegation, default_tenant) == tenant_of_identity(
            identity,
            default_tenant,
        ),
{
}

/// A consumer acts in their own tenant, a tenant's user in that tenant or else in the one
/// that consumers share, operators and services in the system's, and whoever is not known
/// in the usual one.
pub proof fn law_callers_act_in_their_tenant(
    caller: UserIdentityView,
    usual: Seq<char>,
    tenant: Seq<char>,
)
    ensures
        caller.identity_kind matches IdentityKindView::ConsumerUser { tenant_id, .. }
            ==> tenant_of_identity(Some(caller), usual) == tenant_id,
        caller.identity_kind matches IdentityKindView::TenantUser { tenant: t, .. } ==> (t == Some(
            tenant,
        ) ==> tenant_of_identity(Some(caller), usual) == tenant) && (t is None
            ==> tenant_of_identity(Some(caller), usual) == "zaru-consumer"@),
        caller.identity_kind is Operator || caller.identity_kind is ServiceAccount
            ==> tenant_of_identity(Some(caller), usual) == "aegis-system"@,
        tenant_of_identity(None, usual) == usual,
{
}

/// A service acts for the tenant that it names, where it names one; all others act in
/// their own, whatever they name.
pub proof fn law_a_service_acts_for_the_tenant_it_names(
    caller: UserIdentityView,
    named: Seq<char>,
    usual: Seq<char>,
)
    ensures
        caller.identity_kind is ServiceAccount && named.len() > 0 ==> tenant_of_request(
            Some(caller),
            Some(named),
            usual,
        ) == named,
        !(caller.identity_kind is ServiceAccount) || named.len() == 0 ==> tenant_of_request(
            Some(caller),
            Some(named),
            usual,
        ) == tenant_of_identity(Some(caller), usual),
        tenant_of_request(Some(caller), None, usual) == tenant_of_identity(Some(caller), usual),
        tenant_of_request(None, Some(named), usual) == usual,
{
}

/// What a caller owns is owned in the caller's tenant, under the caller's own name.
pub proof fn law_owners_are_the_callers(caller: Option<UserIdentityView>, usual: Seq<char>)
    ensures
        owner_of(caller, usual).tenant_id == tenant_of_identity(caller, usual),
        caller matches Some(i) ==> owner_of(caller, usual).sub == i.sub,
{
}

/// A limit is the one that is asked for, or the usual one, where it lies between one and
/// the largest; else the nearer of the two.
pub proof fn law_limits_are_kept_within_bounds(n: usize, usual: usize, most: usize)
    requires
        1 <= most,
    ensures
        1 <= n <= most ==> limit_within(Some(n), usual, most) == n,
        n > most ==> limit_within(Some(n), usual, most) == most,
        limit_within(Some(0), usual, most) == 1,
        limit_within(None, usual, most) == limit_within(Some(usual), n, most),
{
}

} // verus!
