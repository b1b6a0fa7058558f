//! Who is calling, and for which tenant.

use crate::text;
use vstd::prelude::*;

verus! {

/// A tenant, named by its slug.
#[derive(Debug, PartialEq, Eq)]
pub struct TenantId {
    slug: String,
}

impl View for TenantId {
    type V = Seq<char>;

    closed spec fn view(&self) -> Seq<char> {
        self.slug@
    }
}

impl Clone for TenantId {
    fn clone(&self) -> (r: Self)
        ensures
            r == *self,
    {
        TenantId { slug: self.slug.clone() }
    }
}

/// The view of an optional tenant.
pub open spec fn opt_tenant(t: Option<TenantId>) -> Option<Seq<char>> {
    match t {
        Some(t) => Some(t@),
        None => None,
    }
}

/// `s` without its hyphens.
pub open spec fn unhyphenated(s: Seq<char>) -> Seq<char> {
    s.filter(|c: char| c != '-')
}

/// The slug of the tenant that belongs to one consumer user.
pub open spec fn consumer_user_slug(sub: Seq<char>) -> Seq<char> {
    "u-"@ + unhyphenated(sub)
}

impl TenantId {
    /// The tenant with the given slug.
    pub fn new(slug: &str) -> (r: TenantId)
        ensures
            r@ == slug@,
    {
        TenantId { slug: slug.to_owned() }
    }

    /// The tenant that consumer users share.
    pub fn consumer() -> (r: TenantId)
        ensures
            r@ == "zaru-consumer"@,
    {
        TenantId::new("zaru-consumer")
    }

    /// The tenant of the system itself.
    pub fn system() -> (r: TenantId)
        ensures
            r@ == "aegis-system"@,
    {
        TenantId::new("aegis-system")
    }

    /// The tenant that belongs to one consumer user; a user without a subject has
    /// none.
    pub fn for_consumer_user(sub: &str) -> (r: Option<TenantId>)
        ensures
            opt_tenant(r) == (if sub@.len() == 0 {
                None
            } else {
                Some(consumer_user_slug(sub@))
            }),
    {
        if sub.is_empty() {
            return None;
        }
        let mut slug = "u-".to_owned();
        let ghost keep = |c: char| c != '-';
        assert(Seq::<char>::empty().filter(keep) =~= Seq::<char>::empty()) by {
            reveal(Seq::filter);
        }
        assert("u-"@ + Seq::<char>::empty() =~= "u-"@);
        for c in iter: sub.chars()
            invariant
                iter.seq() == sub@,
                keep == (|c: char| c != '-'),
                slug@ == "u-"@ + iter.seq().take(iter.index() as int).filter(keep),
        {
            let ghost upto = iter.seq().take(iter.index() as int + 1);
            proof {
                reveal(Seq::filter);
                assert(upto.drop_last() =~= iter.seq().take(iter.index() as int));
                assert(upto.last() == c);
            }
            let ghost before = slug@;
            if c != '-' {
                slug.push(c);
                assert(slug@ =~= "u-"@ + iter.seq().take(iter.index() as int).filter(keep).push(c));
            }
        }
        assert(sub@.take(sub@.len() as int) =~= sub@);
        Some(TenantId { slug })
    }

    /// The slug.
    pub fn as_str(&self) -> (r: &str)
        ensures
            r@ == self@,
    {
        self.slug.as_str()
    }

    /// Whether two tenants are the same.
    pub fn same(&self, other: &TenantId) -> (r: bool)
        ensures
            r == (self@ == other@),
    {
        self.slug == other.slug
    }
}

/// A role on the system realm.
#[derive(Clone, Copy, PartialEq, Eq, Structural, Debug)]
pub enum AegisRole {
    Admin,
    Operator,
    Readonly,
}

impl AegisRole {
    /// The claim that stands for the role.
    pub open spec fn claim(self) -> Seq<char> {
        match self {
            AegisRole::Admin => "aegis:admin"@,
            AegisRole::Operator => "aegis:operator"@,
            AegisRole::Readonly => "aegis:readonly"@,
        }
    }

    /// The claim that stands for the role.
    pub fn as_claim_str(&self) -> (r: &'static str)
        ensures
            r@ == self.claim(),
    {
        match self {
            AegisRole::Admin => "aegis:admin",
            AegisRole::Operator => "aegis:operator",
            AegisRole::Readonly => "aegis:readonly",
        }
    }

    /// The role that a claim stands for.
    pub open spec fn of_claim(claim: Seq<char>) -> Option<AegisRole> {
        if claim == "aegis:admin"@ {
            Some(AegisRole::Admin)
        } else if claim == "aegis:operator"@ {
            Some(AegisRole::Operator)
        } else if claim == "aegis:readonly"@ {
            Some(AegisRole::Readonly)
        } else {
            None
        }
    }

    /// The role that a claim stands for.
    pub fn from_claim(claim: &str) -> (r: Option<AegisRole>)
        ensures
            r == AegisRole::of_claim(claim@),
    {
        if text::str_eq(claim, "aegis:admin") {
            Some(AegisRole::Admin)
        } else if text::str_eq(claim, "aegis:operator") {
            Some(AegisRole::Operator)
        } else if text::str_eq(claim, "aegis:readonly") {
            Some(AegisRole::Readonly)
        } else {
            None
        }
    }
}

/// The tier of a consumer user.
#[derive(Clone, Copy, PartialEq, Eq, Structural, Debug)]
pub enum ZaruTier {
    Free,
    Pro,
    Business,
    Enterprise,
}

impl ZaruTier {
    /// The bare claim that stands for the tier.
    pub open spec fn claim(self) -> Seq<char> {
        match self {
            ZaruTier::Free => "free"@,
            ZaruTier::Pro => "pro"@,
            ZaruTier::Business => "business"@,
            ZaruTier::Enterprise => "enterprise"@,
        }
    }

    /// The bare claim that stands for the tier.
    pub fn to_claim_str(&self) -> (r: &'static str)
        ensures
            r@ == self.claim(),
    {
        match self {
            ZaruTier::Free => "free",
            ZaruTier::Pro => "pro",
            ZaruTier::Business => "business",
            ZaruTier::Enterprise => "enterprise",
        }
    }

    /// The tier that a bare claim stands for.
    pub open spec fn of_claim(claim: Seq<char>) -> Option<ZaruTier> {
        if claim == "free"@ {
            Some(ZaruTier::Free)
        } else if claim == "pro"@ {
            Some(ZaruTier::Pro)
        } else if claim == "business"@ {
            Some(ZaruTier::Business)
        } else if claim == "enterprise"@ {
            Some(ZaruTier::Enterprise)
        } else {
            None
        }
    }

    /// The tier that a bare claim stands for.
    pub fn from_claim(claim: &str) -> (r: Option<ZaruTier>)
        ensures
            r == ZaruTier::of_claim(claim@),
    {
        if text::str_eq(claim, "free") {
            Some(ZaruTier::Free)
        } else if text::str_eq(claim, "pro") {
            Some(ZaruTier::Pro)
        } else if text::str_eq(claim, "business") {
            Some(ZaruTier::Business)
        } else if text::str_eq(claim, "enterprise") {
            Some(ZaruTier::Enterprise)
        } else {
            None
        }
    }
}

/// The kind of a caller.
pub enum IdentityKind {
    ConsumerUser { zaru_tier: ZaruTier, tenant_id: TenantId },
    /// A user of a tenant's own realm, with the tenant that the realm's slug
    /// names, where it names one.
    TenantUser { tenant_slug: String, tenant: Option<TenantId> },
    Operator { aegis_role: AegisRole },
    ServiceAccount { client_id: String },
}

/// An authenticated caller.
pub struct UserIdentity {
    pub sub: String,
    pub realm_slug: String,
    pub email: Option<String>,
    pub name: Option<String>,
    pub identity_kind: IdentityKind,
}

/// The mathematical content of a kind of caller.
pub enum IdentityKindView {
    ConsumerUser { zaru_tier: ZaruTier, tenant_id: Seq<char> },
    TenantUser { tenant_slug: Seq<char>, tenant: Option<Seq<char>> },
    Operator { aegis_role: AegisRole },
    ServiceAccount { client_id: Seq<char> },
}

impl View for IdentityKind {
    type V = IdentityKindView;

    open spec fn view(&self) -> IdentityKindView {
        match self {
            IdentityKind::ConsumerUser { zaru_tier, tenant_id } => IdentityKindView::ConsumerUser {
                zaru_tier: *zaru_tier,
                tenant_id: tenant_id@,
            },
            IdentityKind::TenantUser { tenant_slug, tenant } => IdentityKindView::TenantUser {
                tenant_slug: tenant_slug@,
                tenant: opt_tenant(*tenant),
            },
            IdentityKind::Operator { aegis_role } => IdentityKindView::Operator {
                aegis_role: *aegis_role,
            },
            IdentityKind::ServiceAccount { client_id } => IdentityKindView::ServiceAccount {
                client_id: client_id@,
            },
        }
    }
}

/// The mathematical content of a caller.
pub struct UserIdentityView {
    pub sub: Seq<char>,
    pub realm_slug: Seq<char>,
    pub email: Option<Seq<char>>,
    pub name: Option<Seq<char>>,
    pub identity_kind: IdentityKindView,
}

impl View for UserIdentity {
    type V = UserIdentityView;

    open spec fn view(&self) -> UserIdentityView {
        UserIdentityView {
            sub: self.sub@,
            realm_slug: self.realm_slug@,
            email: text::opt_view(self.email),
            name: text::opt_view(self.name),
            identity_kind: self.identity_kind@,
        }
    }
}

/// The view of an optional caller.
pub open spec fn opt_identity(i: Option<&UserIdentity>) -> Option<UserIdentityView> {
    match i {
        Some(i) => Some(i@),
        None => None,
    }
}

/// The content of a caller that is held, where there is one.
pub open spec fn held_identity(identity: Option<UserIdentity>) -> Option<UserIdentityView> {
    match identity {
        Some(i) => Some(i@),
        None => None,
    }
}

/// The tier that a caller is served under. Callers that are no consumers are not
/// held back by tiers.
pub open spec fn tier_of(identity: Option<UserIdentityView>) -> ZaruTier {
    match identity {
        Some(i) => match i.identity_kind {
            IdentityKindView::ConsumerUser { zaru_tier, .. } => zaru_tier,
            _ => ZaruTier::Enterprise,
        },
        None => ZaruTier::Enterprise,
    }
}

/// The tier that a caller is served under.
pub fn user_tier(identity: Option<&UserIdentity>) -> (r: ZaruTier)
    ensures
        r == tier_of(opt_identity(identity)),
{
    match identity {
        Some(i) => match &i.identity_kind {
            IdentityKind::ConsumerUser { zaru_tier, .. } => *zaru_tier,
            _ => ZaruTier::Enterprise,
        },
        None => ZaruTier::Enterprise,
    }
}

/// The subject of a caller.
pub open spec fn sub_of(identity: Option<UserIdentityView>) -> Seq<char> {
    match identity {
        Some(i) => i.sub,
        None => "anonymous"@,
    }
}

/// The subject of a caller, `anonymous` where there is none.
pub fn user_sub(identity: Option<&UserIdentity>) -> (r: String)
    ensures
        r@ == sub_of(opt_identity(identity)),
{
    match identity {
        Some(i) => i.sub.clone(),
        None => "anonymous".to_owned(),
    }
}

/// Reading a tier's claim back gives the tier.
pub proof fn law_tier_claim_round_trip(tier: ZaruTier)
    ensures
        ZaruTier::of_claim(tier.claim()) == Some(tier),
{
    reveal_strlit("free");
    reveal_strlit("pro");
    reveal_strlit("business");
    reveal_strlit("enterprise");
    assert("free"@[0] == 'f' && "pro"@[0] == 'p' && "business"@[0] == 'b' && "enterprise"@[0]
        == 'e');
}

/// Reading a role's claim back gives the role.
pub proof fn law_role_claim_round_trip(role: AegisRole)
    ensures
        AegisRole::of_claim(role.claim()) == Some(role),
{
    reveal_strlit("aegis:admin");
    reveal_strlit("aegis:operator");
    reveal_strlit("aegis:readonly");
    assert("aegis:admin"@[6] == 'a' && "aegis:operator"@[6] == 'o' && "aegis:readonly"@[6] == 'r');
}

/// The tenant of a consumer is named after them, without hyphens.
pub proof fn law_consumers_name_their_tenant(sub: Seq<char>, last: char)
    ensures
        "u-"@.is_prefix_of(consumer_user_slug(sub)),
        last != '-' ==> consumer_user_slug(sub.push(last)) == consumer_user_slug(sub).push(last),
        last == '-' ==> consumer_user_slug(sub.push(last)) == consumer_user_slug(sub),
        consumer_user_slug(Seq::empty()) == "u-"@,
{
    reveal(Seq::filter);
    assert(sub.push(last).drop_last() =~= sub);
    assert(last != '-' ==> consumer_user_slug(sub.push(last)) =~= consumer_user_slug(sub).push(
        last,
    ));
    assert(consumer_user_slug(Seq::empty()) =~= "u-"@);
}

/// Claims are the names of roles and tiers, and no other text is one.
pub proof fn law_claims_are_names(claim: Seq<char>)
    ensures
        AegisRole::Admin.claim() == "aegis:admin"@,
        AegisRole::Operator.claim() == "aegis:operator"@,
        AegisRole::Readonly.claim() == "aegis:readonly"@,
        ZaruTier::Free.claim() == "free"@,
        ZaruTier::Pro.claim() == "pro"@,
        ZaruTier::Business.claim() == "business"@,
        ZaruTier::Enterprise.claim() == "enterprise"@,
        AegisRole::of_claim(claim) matches Some(role) ==> role.claim() == claim,
        ZaruTier::of_claim(claim) matches Some(tier) ==> tier.claim() == claim,
        AegisRole::of_claim(claim) is Some <==> claim == "aegis:admin"@ || claim
            == "aegis:operator"@ || claim == "aegis:readonly"@,
        ZaruTier::of_claim(claim) is Some <==> claim == "free"@ || claim == "pro"@ || claim
            == "business"@ || claim == "enterprise"@,
{
}

/// Consumers have the tier of their identity; everybody else has the highest. Who is not
/// known is anonymous.
pub proof fn law_tiers_of_callers(i: UserIdentityView)
    ensures
        i.identity_kind matches IdentityKindView::ConsumerUser { zaru_tier, .. } ==> tier_of(
            Some(i),
        ) == zaru_tier,
        !(i.identity_kind is ConsumerUser) ==> tier_of(Some(i)) == ZaruTier::Enterprise,
        tier_of(None) == ZaruTier::Enterprise,
        sub_of(Some(i)) == i.sub,
        sub_of(None) == "anonymous"@,
{
}

} // verus!
