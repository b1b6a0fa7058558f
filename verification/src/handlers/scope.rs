//! How far agents and workflows are seen, and who may change that.

use crate::http;
use crate::http::Reply;
use crate::identity;
use crate::identity::{IdentityKind, IdentityKindView, TenantId, UserIdentity, UserIdentityView};
use crate::json::{Json, JsonView};
use crate::text;
use vstd::prelude::*;

verus! {

/// How far something is seen: in every tenant, or in its own.
#[derive(Clone, Copy, PartialEq, Eq, Structural, Debug)]
pub enum Scope {
    Global,
    Tenant,
}

impl Scope {
    /// The name of the scope.
    pub open spec fn name(self) -> Seq<char> {
        match self {
            Scope::Global => "global"@,
            Scope::Tenant => "tenant"@,
        }
    }

    /// The scope with the given name.
    pub open spec fn named(name: Seq<char>) -> Option<Scope> {
        if name == "global"@ {
            Some(Scope::Global)
        } else if name == "tenant"@ {
            Some(Scope::Tenant)
        } else {
            None
        }
    }

    /// The name of the scope.
    pub fn as_str(&self) -> (r: &'static str)
        ensures
            r@ == self.name(),
    {
        match self {
            Scope::Global => "global",
            Scope::Tenant => "tenant",
        }
    }
}

/// A scope is found under its own name.
pub proof fn law_scope_name_round_trip(scope: Scope)
    ensures
        Scope::named(scope.name()) == Some(scope),
{
    reveal_strlit("global");
    reveal_strlit("tenant");
    assert("global"@[0] == 'g');
    assert("tenant"@[0] == 't');
}

/// The scope that a request to deploy asks for. Whatever is not asked to be global
/// belongs to a tenant.
pub open spec fn deploy_scope(asked: Option<Seq<char>>) -> Scope {
    if asked == Some("global"@) {
        Scope::Global
    } else {
        Scope::Tenant
    }
}

/// The scope that a request to deploy asks for.
pub fn requested_scope(asked: Option<&str>) -> (r: Scope)
    ensures
        r == deploy_scope(text::opt_str_view(asked)),
{
    if text::opt_eq(asked, "global") {
        Scope::Global
    } else {
        Scope::Tenant
    }
}

/// The tenant under which something of a scope is deployed: what is global belongs
/// to the system.
pub open spec fn deploy_tenant(scope: Scope, tenant: Seq<char>) -> Seq<char> {
    match scope {
        Scope::Global => "aegis-system"@,
        Scope::Tenant => tenant,
    }
}

/// The tenant under which something of a scope is deployed.
pub fn effective_tenant(scope: Scope, tenant: TenantId) -> (r: TenantId)
    ensures
        r@ == deploy_tenant(scope, tenant@),
{
    match scope {
        Scope::Global => TenantId::system(),
        Scope::Tenant => tenant,
    }
}

/// The role of a caller. A caller without an identity is on the daemon's own
/// machine, and an operator.
pub open spec fn role_of(caller: Option<UserIdentityView>) -> Seq<char> {
    match caller {
        Some(i) => match i.identity_kind {
            IdentityKindView::Operator { aegis_role } => aegis_role.claim(),
            IdentityKindView::ServiceAccount { .. } => "aegis:operator"@,
            IdentityKindView::TenantUser { .. } => "tenant:admin"@,
            IdentityKindView::ConsumerUser { .. } => "user"@,
        },
        None => "aegis:operator"@,
    }
}

/// The roles of a caller: exactly one.
pub fn build_roles(caller: Option<&UserIdentity>) -> (r: Vec<String>)
    ensures
        text::views(r@) == seq![role_of(identity::opt_identity(caller))],
{
    let role = match caller {
        Some(i) => match &i.identity_kind {
            IdentityKind::Operator { aegis_role } => aegis_role.as_claim_str(),
            IdentityKind::ServiceAccount { .. } => "aegis:operator",
            IdentityKind::TenantUser { .. } => "tenant:admin",
            IdentityKind::ConsumerUser { .. } => "user",
        },
        None => "aegis:operator",
    };
    let mut roles: Vec<String> = Vec::new();
    roles.push(role.to_owned());
    assert(text::views(roles@) =~= seq![role_of(identity::opt_identity(caller))]);
    roles
}

/// Whether a caller may change something of a scope. What is global is for operators
/// and administrators.
pub open spec fn may_change(scope: Scope, roles: Seq<Seq<char>>) -> bool {
    scope == Scope::Tenant || roles.contains("aegis:operator"@) || roles.contains("aegis:admin"@)
}

/// Whether a caller with the given roles may change something of a scope.
pub fn authorized(scope: Scope, roles: &Vec<String>) -> (r: bool)
    ensures
        r == may_change(scope, text::views(roles@)),
{
    if scope == Scope::Tenant {
        return true;
    }
    let ghost names = text::views(roles@);
    let mut i: usize = 0;
    while i < roles.len()
        invariant
            i <= roles@.len(),
            names == text::views(roles@),
            forall|k: int|
                0 <= k < i ==> #[trigger] names[k] != "aegis:operator"@ && names[k]
                    != "aegis:admin"@,
        decreases roles@.len() - i,
    {
        assert(names[i as int] == roles@[i as int]@);
        if text::str_eq(roles[i].as_str(), "aegis:operator") || text::str_eq(
            roles[i].as_str(),
            "aegis:admin",
        ) {
            return true;
        }
        i += 1;
    }
    false
}

/// Who asks for a change of scope.
pub struct ScopeChangeRequester {
    pub user_id: String,
    pub roles: Vec<String>,
    pub tenant_id: TenantId,
}

/// The name of one who asks for a change of scope; empty where there is no caller.
pub open spec fn requester_name(caller: Option<UserIdentityView>) -> Seq<char> {
    match caller {
        Some(i) => i.sub,
        None => Seq::empty(),
    }
}

/// Who asks for a change of scope: the caller, with its role, in the given tenant.
pub fn scope_requester(caller: Option<&UserIdentity>, tenant_id: TenantId) -> (r:
    ScopeChangeRequester)
    ensures
        r.user_id@ == requester_name(identity::opt_identity(caller)),
        text::views(r.roles@) == seq![role_of(identity::opt_identity(caller))],
        r.tenant_id == tenant_id,
{
    let user_id = match caller {
        Some(i) => i.sub.clone(),
        None => String::new(),
    };
    ScopeChangeRequester { user_id, roles: build_roles(caller), tenant_id }
}

/// Why a request to change a scope is refused before anything is looked up.
pub open spec fn target_refusal(body: JsonView) -> Option<Seq<char>> {
    match body.get_str("target_scope"@) {
        None => Some("missing 'target_scope' field"@),
        Some(name) => if Scope::named(name) is Some {
            None
        } else {
            Some("invalid scope: '"@ + name + "'. Valid values: global, tenant"@)
        },
    }
}

/// The scope that a request to change a scope asks for.
pub fn target_scope(body: &Json) -> (r: Result<Scope, Reply>)
    ensures
        match target_refusal(body@) {
            Some(message) => r matches Err(reply) && reply@ == http::error_reply(400, message),
            None => r matches Ok(scope) && Scope::named(body@.get_str("target_scope"@)->Some_0)
                == Some(scope),
        },
{
    match body.get_str("target_scope") {
        None => Err(Reply::error(400, "missing 'target_scope' field")),
        Some(name) => if text::str_eq(name, "global") {
            Ok(Scope::Global)
        } else if text::str_eq(name, "tenant") {
            Ok(Scope::Tenant)
        } else {
            let message = "invalid scope: '".to_owned().concat(name).concat(
                "'. Valid values: global, tenant",
            );
            Err(Reply::error(400, message.as_str()))
        },
    }
}

/// Which items a request lists.
#[derive(Clone, Copy, PartialEq, Eq, Structural, Debug)]
pub enum Listing {
    /// Those that are global.
    Global,
    /// Those that the tenant sees.
    Visible,
    /// Those that the tenant owns.
    Owned,
}

/// Which items a request lists, where it is told what is listed by default.
pub open spec fn listing_of(
    scope: Option<Seq<char>>,
    visible: Option<bool>,
    visible_by_default: bool,
) -> Listing {
    if scope == Some("global"@) {
        Listing::Global
    } else if (match visible {
        Some(v) => v,
        None => visible_by_default,
    }) {
        Listing::Visible
    } else {
        Listing::Owned
    }
}

/// Which items a request lists.
pub fn listing(scope: Option<&str>, visible: Option<bool>, visible_by_default: bool) -> (r: Listing)
    ensures
        r == listing_of(text::opt_str_view(scope), visible, visible_by_default),
{
    if text::opt_eq(scope, "global") {
        return Listing::Global;
    }
    let shown = match visible {
        Some(v) => v,
        None => visible_by_default,
    };
    if shown {
        Listing::Visible
    } else {
        Listing::Owned
    }
}

/// The status that a failed start is answered with, where input of a wrong shape is
/// told apart from all else.
pub open spec fn start_failure_status(message: Seq<char>, otherwise: u16) -> u16 {
    if text::occurs("InvalidExecutionInput"@, message) {
        422
    } else {
        otherwise
    }
}

/// The status that a failed start is answered with.
pub fn start_error_status(message: &str, otherwise: u16) -> (r: u16)
    ensures
        r == start_failure_status(message@, otherwise),
{
    if text::contains(message, "InvalidExecutionInput") {
        422
    } else {
        otherwise
    }
}

/// Whether a stream follows, and whether it tells everything, by its parameters.
pub open spec fn stream_options_of(
    follow: Option<Seq<char>>,
    verbose: Option<Seq<char>>,
    follow_by_default: bool,
) -> (bool, bool) {
    (
        match follow {
            Some(v) => v != "false"@,
            None => follow_by_default,
        },
        verbose == Some("true"@),
    )
}

/// Whether a stream follows, and whether it tells everything.
pub fn stream_options(follow: Option<&str>, verbose: Option<&str>, follow_by_default: bool) -> (r: (
    bool,
    bool,
))
    ensures
        r == stream_options_of(
            text::opt_str_view(follow),
            text::opt_str_view(verbose),
            follow_by_default,
        ),
{
    let follows = match follow {
        Some(v) => !text::str_eq(v, "false"),
        None => follow_by_default,
    };
    (follows, text::opt_eq(verbose, "true"))
}

/// A caller that is a consumer or a tenant's user cannot change what is global.
pub proof fn law_users_cannot_change_what_is_global(caller: UserIdentityView)
    requires
        caller.identity_kind is ConsumerUser || caller.identity_kind is TenantUser,
    ensures
        !may_change(Scope::Global, seq![role_of(Some(caller))]),
{
    reveal_strlit("aegis:operator");
    reveal_strlit("aegis:admin");
    reveal_strlit("tenant:admin");
    reveal_strlit("user");
    let roles = seq![role_of(Some(caller))];
    assert("aegis:operator"@[0] == 'a');
    assert("aegis:admin"@[0] == 'a');
    assert("tenant:admin"@[0] == 't');
    assert("user"@[0] == 'u');
    assert forall|i: int| 0 <= i < roles.len() implies roles[i] != "aegis:operator"@ && roles[i]
        != "aegis:admin"@ by {
        assert(roles[i] == role_of(Some(caller)));
    }
}

/// Only what is asked to be global is global, and then it is the system's; all else is
/// the tenant's own.
pub proof fn law_only_what_is_asked_for_is_global(asked: Option<Seq<char>>, tenant: Seq<char>)
    ensures
        deploy_scope(asked) == Scope::Global <==> asked == Some("global"@),
        asked != Some("global"@) ==> deploy_tenant(deploy_scope(asked), tenant) == tenant,
        asked == Some("global"@) ==> deploy_tenant(deploy_scope(asked), tenant)
            == "aegis-system"@,
{
}

/// What a list holds goes by what is asked for: `global` before all else, then whether
/// what is visible is wanted, and only then the habit.
pub proof fn law_lists_follow_what_is_asked(
    scope: Option<Seq<char>>,
    visible: Option<bool>,
    habit: bool,
)
    ensures
        listing_of(scope, visible, habit) == Listing::Global <==> scope == Some("global"@),
        scope != Some("global"@) && visible == Some(true) ==> listing_of(scope, visible, habit)
            == Listing::Visible,
        scope != Some("global"@) && visible == Some(false) ==> listing_of(scope, visible, habit)
            == Listing::Owned,
        visible is Some ==> listing_of(scope, visible, true) == listing_of(scope, visible, false),
        visible is None ==> listing_of(scope, visible, habit) == listing_of(
            scope,
            Some(habit),
            !habit,
        ),
{
}

/// Operators and administrators may change everything, everybody may change what is a
/// tenant's, and a caller without an identity is an operator.
pub proof fn law_changes_are_for_the_entitled(scope: Scope, roles: Seq<Seq<char>>, i: int)
    ensures
        may_change(Scope::Tenant, roles),
        0 <= i < roles.len() && (roles[i] == "aegis:operator"@ || roles[i] == "aegis:admin"@)
            ==> may_change(scope, roles),
        may_change(Scope::Global, seq![role_of(None)]),
        (forall|k: int|
            0 <= k < roles.len() ==> (#[trigger] roles[k]) != "aegis:operator"@ && roles[k]
                != "aegis:admin"@) ==> !may_change(Scope::Global, roles),
{
    assert(seq![role_of(None)][0] == "aegis:operator"@);
    assert(seq![role_of(None)].contains("aegis:operator"@));
}

/// A request to change a scope is refused exactly where it names no scope, and the scope
/// that it names is the one that is meant.
pub proof fn law_a_change_names_its_scope(body: JsonView)
    ensures
        target_refusal(body) is None <==> (body.get("target_scope"@) == Some(
            JsonView::Str("global"@),
        ) || body.get("target_scope"@) == Some(JsonView::Str("tenant"@))),
        Scope::named("global"@) == Some(Scope::Global),
        Scope::named("tenant"@) == Some(Scope::Tenant),
{
    reveal_strlit("global");
    reveal_strlit("tenant");
    assert("global"@[0] == 'g');
    assert("tenant"@[0] == 't');
}

/// A stream follows unless it is told not to, and where it is told nothing as is usual;
/// it tells everything only where that is asked for.
pub proof fn law_streams_do_as_they_are_told(
    follow: Option<Seq<char>>,
    verbose: Option<Seq<char>>,
    usual: bool,
)
    ensures
        stream_options_of(follow, verbose, usual).0 <==> (follow is None && usual) || (follow is Some
            && follow != Some("false"@)),
        stream_options_of(follow, verbose, usual).1 <==> verbose == Some("true"@),
{
}

/// A start that fails for the shape of its input is answered 422, every other failure as
/// it is otherwise.
pub proof fn law_wrong_input_is_told_apart(before: Seq<char>, after: Seq<char>, otherwise: u16)
    ensures
        start_failure_status(before + "InvalidExecutionInput"@ + after, otherwise) == 422,
        !text::occurs("InvalidExecutionInput"@, before) ==> start_failure_status(before, otherwise)
            == otherwise,
{
    let whole = before + "InvalidExecutionInput"@ + after;
    let n = "InvalidExecutionInput"@.len();
    assert(whole.subrange(before.len() as int, (before.len() + n) as int)
        =~= "InvalidExecutionInput"@);
    assert(text::occurs_at("InvalidExecutionInput"@, whole, before.len() as int));
}

} // verus!
