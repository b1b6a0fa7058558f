//! Agents: how they are deployed, run, listed and changed.

use crate::handlers;
use crate::handlers::scope;
use crate::handlers::scope::{Listing, Scope};
use crate::http;
use crate::http::Reply;
use crate::identity;
use crate::identity::{TenantId, UserIdentity};
use crate::json::{Json, JsonView};
use crate::operator_read_models;
use crate::operator_read_models::Moment;
use crate::text;
use vstd::prelude::*;

verus! {

/// The scope and the tenant under which an agent is deployed.
pub fn deploy_target(
    asked: Option<&str>,
    caller: Option<&UserIdentity>,
    delegation: Option<&str>,
    default_tenant: &TenantId,
) -> (r: (TenantId, Scope))
    ensures
        r.1 == scope::deploy_scope(text::opt_str_view(asked)),
        r.0@ == scope::deploy_tenant(
            r.1,
            handlers::tenant_of_request(
                identity::opt_identity(caller),
                text::opt_str_view(delegation),
                default_tenant@,
            ),
        ),
{
    let wanted = scope::requested_scope(asked);
    let tenant = handlers::tenant_id_from_request(caller, delegation, default_tenant);
    (scope::effective_tenant(wanted, tenant), wanted)
}

/// The answer to a deployment.
pub fn deploy_agent_reply(outcome: Result<String, String>) -> (r: Reply)
    ensures
        r@ == (match outcome {
            Ok(id) => http::json_reply(
                200,
                JsonView::object().with("agent_id"@, JsonView::Str(id@)),
            ),
            Err(e) => http::error_reply(500, e@),
        }),
{
    match outcome {
        Ok(id) => Reply::json(200, Json::object().with("agent_id", Json::Str(id))),
        Err(e) => Reply::error(500, e.as_str()),
    }
}

/// Holds the version that a request asks for against the one that the agent has, or
/// says why the agent could not be looked up. A request that asks for no version is
/// not held back.
pub fn check_version(requested: Option<&str>, found: Result<&str, &str>) -> (r: Option<Reply>)
    ensures
        match (text::opt_str_view(requested), found) {
            (None, _) => r is None,
            (Some(wanted), Ok(version)) => if version@ == wanted {
                r is None
            } else {
                r matches Some(reply) && reply@ == http::error_reply(
                    409,
                    "Version mismatch: requested '"@ + wanted + "' but agent has '"@ + version@
                        + "'"@,
                )
            },
            (Some(_), Err(e)) => r matches Some(reply) && reply@ == http::error_reply(404, e@),
        },
{
    match requested {
        None => None,
        Some(wanted) => match found {
            Ok(version) => if text::str_eq(version, wanted) {
                None
            } else {
                let message = "Version mismatch: requested '".to_owned().concat(wanted).concat(
                    "' but agent has '",
                ).concat(version).concat("'");
                Some(Reply::error(409, message.as_str()))
            },
            Err(e) => Some(Reply::error(404, e)),
        },
    }
}

/// What an agent is started with.
pub struct ExecutionStart {
    pub intent: Option<String>,
    pub input: Json,
    pub security_context_name: String,
}

/// The input that an agent is started with.
pub open spec fn start_input(
    input: JsonView,
    context_overrides: Option<Json>,
    tenant_id: Seq<char>,
) -> JsonView {
    JsonView::object().with("input"@, input).with(
        "context_overrides"@,
        match context_overrides {
            Some(c) => c@,
            None => JsonView::Null,
        },
    ).with("tenant_id"@, JsonView::Str(tenant_id))
}

/// The security context that an agent is started in: the caller's, or the operator's
/// where there is no caller.
pub open spec fn start_context(security_context_name: Option<Seq<char>>) -> Seq<char> {
    match security_context_name {
        Some(name) => name,
        None => "aegis-system-operator"@,
    }
}

/// What an agent is started with. The caller's security context is missing where
/// there is no caller.
pub fn execute_agent(
    input: Json,
    intent: Option<String>,
    context_overrides: Option<Json>,
    tenant_id: &TenantId,
    security_context_name: Option<String>,
) -> (r: ExecutionStart)
    ensures
        r.intent == intent,
        r.input@ == start_input(input@, context_overrides, tenant_id@),
        r.security_context_name@ == start_context(text::opt_view(security_context_name)),
{
    let overrides = match context_overrides {
        Some(c) => c,
        None => Json::Null,
    };
    let name = match security_context_name {
        Some(n) => n,
        None => "aegis-system-operator".to_owned(),
    };
    ExecutionStart {
        intent,
        input: Json::object().with("input", input).with("context_overrides", overrides).with(
            "tenant_id",
            Json::text(tenant_id.as_str()),
        ),
        security_context_name: name,
    }
}

/// The answer to a start.
pub open spec fn started_answer(outcome: Result<String, String>) -> http::ReplyView {
    match outcome {
        Ok(id) => http::json_reply(
            200,
            JsonView::object().with("execution_id"@, JsonView::Str(id@)),
        ),
        Err(e) => http::error_reply(scope::start_failure_status(e@, 500), e@),
    }
}

/// The answer to a start.
pub fn execute_agent_reply(outcome: Result<String, String>) -> (r: Reply)
    ensures
        r@ == started_answer(outcome),
{
    match outcome {
        Ok(id) => Reply::json(200, Json::object().with("execution_id", Json::Str(id))),
        Err(e) => Reply::error(scope::start_error_status(e.as_str(), 500), e.as_str()),
    }
}

/// A request to run an agent.
pub struct ExecuteAgentRequest {
    pub version: Option<String>,
    pub input: Json,
    pub intent: Option<String>,
    pub context_overrides: Option<Json>,
    pub tenant_id: TenantId,
    /// The caller's security context; missing where there is no caller.
    pub security_context_name: Option<String>,
}

/// What was learnt of a request to run an agent.
pub enum ExecuteEvent {
    Begun,
    /// The version of the agent, or why it could not be looked up.
    VersionFound(Result<String, String>),
    /// The execution that was started.
    Started(Result<String, String>),
}

/// What is done next with a request to run an agent.
pub enum ExecuteAction {
    FindVersion,
    Start(ExecutionStart),
    Answer(Reply),
}

/// The mathematical content of what is done next with a request to run an agent.
pub enum ExecuteActionView {
    FindVersion,
    Start { intent: Option<Seq<char>>, input: JsonView, security_context_name: Seq<char> },
    Answer(http::ReplyView),
}

impl View for ExecuteAction {
    type V = ExecuteActionView;

    open spec fn view(&self) -> ExecuteActionView {
        match *self {
            ExecuteAction::FindVersion => ExecuteActionView::FindVersion,
            ExecuteAction::Start(start) => ExecuteActionView::Start {
                intent: text::opt_view(start.intent),
                input: start.input@,
                security_context_name: start.security_context_name@,
            },
            ExecuteAction::Answer(reply) => ExecuteActionView::Answer(reply@),
        }
    }
}

impl ExecuteAgentRequest {
    /// The start that the request leads to.
    pub open spec fn start(self) -> ExecuteActionView {
        ExecuteActionView::Start {
            intent: text::opt_view(self.intent),
            input: start_input(self.input@, self.context_overrides, self.tenant_id@),
            security_context_name: start_context(text::opt_view(self.security_context_name)),
        }
    }

    /// What follows from what was learnt: a version that is asked for must be the one
    /// that the agent has.
    pub open spec fn next(self, event: ExecuteEvent) -> ExecuteActionView {
        match event {
            ExecuteEvent::Begun => if self.version is Some {
                ExecuteActionView::FindVersion
            } else {
                self.start()
            },
            ExecuteEvent::VersionFound(found) => match (text::opt_view(self.version), found) {
                (None, _) => self.start(),
                (Some(wanted), Ok(version)) => if version@ == wanted {
                    self.start()
                } else {
                    ExecuteActionView::Answer(
                        http::error_reply(
                            409,
                            "Version mismatch: requested '"@ + wanted + "' but agent has '"@
                                + version@ + "'"@,
                        ),
                    )
                },
                (Some(_), Err(e)) => ExecuteActionView::Answer(http::error_reply(404, e@)),
            },
            ExecuteEvent::Started(outcome) => ExecuteActionView::Answer(started_answer(outcome)),
        }
    }

    fn order(&self) -> (r: ExecuteAction)
        ensures
            r@ == self.start(),
    {
        let overrides = match &self.context_overrides {
            Some(c) => Some(c.copy()),
            None => None,
        };
        ExecuteAction::Start(
            execute_agent(
                self.input.copy(),
                self.intent.clone(),
                overrides,
                &self.tenant_id,
                self.security_context_name.clone(),
            ),
        )
    }

    /// One step of a request: takes what was learnt and says what to do next.
    pub fn step(&self, event: ExecuteEvent) -> (action: ExecuteAction)
        ensures
            action@ == self.next(event),
    {
        match event {
            ExecuteEvent::Begun => if self.version.is_some() {
                ExecuteAction::FindVersion
            } else {
                self.order()
            },
            ExecuteEvent::VersionFound(found) => {
                let requested = match &self.version {
                    Some(v) => Some(v.as_str()),
                    None => None,
                };
                let held = match &found {
                    Ok(version) => check_version(requested, Ok(version.as_str())),
                    Err(e) => check_version(requested, Err(e.as_str())),
                };
                match held {
                    Some(reply) => ExecuteAction::Answer(reply),
                    None => self.order(),
                }
            },
            ExecuteEvent::Started(outcome) => ExecuteAction::Answer(execute_agent_reply(outcome)),
        }
    }
}

/// An agent of another version than the one asked for is not started.
pub proof fn law_only_the_version_asked_for_runs(request: ExecuteAgentRequest, found: String)
    requires
        request.version is Some,
        found@ != request.version->Some_0@,
    ensures
        request.next(ExecuteEvent::Begun) == ExecuteActionView::FindVersion,
        request.next(ExecuteEvent::VersionFound(Ok(found))) is Answer,
{
}

/// Whether a stream of an agent's events follows, and whether it tells everything.
pub fn agent_stream_options(follow: Option<&str>, verbose: Option<&str>) -> (r: (bool, bool))
    ensures
        r == scope::stream_options_of(
            text::opt_str_view(follow),
            text::opt_str_view(verbose),
            false,
        ),
{
    scope::stream_options(follow, verbose, false)
}

/// Which agents a request lists, and of which tenant: those that the tenant sees,
/// unless the request says otherwise. Global ones are those of the system's tenant.
pub fn list_agents(
    asked: Option<&str>,
    visible: Option<bool>,
    caller: Option<&UserIdentity>,
    delegation: Option<&str>,
    default_tenant: &TenantId,
) -> (r: (Listing, TenantId))
    ensures
        r.0 == scope::listing_of(text::opt_str_view(asked), visible, true),
        r.1@ == (if r.0 == Listing::Global {
            "aegis-system"@
        } else {
            handlers::tenant_of_request(
                identity::opt_identity(caller),
                text::opt_str_view(delegation),
                default_tenant@,
            )
        }),
{
    let listing = scope::listing(asked, visible, true);
    let tenant = match listing {
        Listing::Global => TenantId::system(),
        _ => handlers::tenant_id_from_request(caller, delegation, default_tenant),
    };
    (listing, tenant)
}

/// What is shown of an agent.
pub struct AgentRow {
    pub id: String,
    pub name: String,
    pub version: String,
    pub description: Option<String>,
    pub status: String,
    pub labels: Json,
    pub scope: Scope,
    pub created_at: Moment,
    pub updated_at: Moment,
    pub tenant_id: TenantId,
    pub input_schema: Option<Json>,
}

impl AgentRow {
    /// The description that is shown; nothing where there is none.
    pub open spec fn shown_description(&self) -> Seq<char> {
        match self.description {
            Some(d) => d@,
            None => ""@,
        }
    }

    /// What every account of the agent shows.
    pub open spec fn base(&self) -> JsonView {
        JsonView::object().with("id"@, JsonView::Str(self.id@)).with(
            "name"@,
            JsonView::Str(self.name@),
        ).with("version"@, JsonView::Str(self.version@)).with(
            "description"@,
            JsonView::Str(self.shown_description()),
        ).with("status"@, JsonView::Str(text::lowered(self.status@))).with(
            "labels"@,
            self.labels@,
        ).with("scope"@, JsonView::Str(self.scope.name())).with(
            "created_at"@,
            operator_read_models::stamp_shown(self.created_at),
        ).with("updated_at"@, operator_read_models::stamp_shown(self.updated_at)).with(
            "tenant_id"@,
            JsonView::Str(self.tenant_id@),
        )
    }

    /// An account with the schema of the agent's input, where it has one.
    pub open spec fn with_schema(&self, account: JsonView) -> JsonView {
        match self.input_schema {
            Some(schema) => account.with("input_schema"@, schema@),
            None => account,
        }
    }

    /// What is shown of the agent in a list.
    pub open spec fn listed(&self, execution_count: int) -> JsonView {
        self.with_schema(
            self.base().with("execution_count"@, JsonView::Int(execution_count)),
        )
    }

    /// What is shown of the agent alone.
    pub open spec fn detailed(&self, manifest: JsonView, manifest_yaml: Seq<char>) -> JsonView {
        self.with_schema(
            self.base().with("manifest"@, manifest).with(
                "manifest_yaml"@,
                JsonView::Str(manifest_yaml),
            ),
        )
    }

    fn account(&self) -> (r: Json)
        ensures
            r@ == self.base(),
    {
        let description = match &self.description {
            Some(d) => d.as_str(),
            None => "",
        };
        let status = text::ascii_lower(self.status.as_str());
        Json::object().with("id", Json::text(self.id.as_str())).with(
            "name",
            Json::text(self.name.as_str()),
        ).with("version", Json::text(self.version.as_str())).with(
            "description",
            Json::text(description),
        ).with("status", Json::Str(status)).with("labels", self.labels.copy()).with(
            "scope",
            Json::text(self.scope.as_str()),
        ).with("created_at", operator_read_models::show_stamp(self.created_at)).with(
            "updated_at",
            operator_read_models::show_stamp(self.updated_at),
        ).with("tenant_id", Json::text(self.tenant_id.as_str()))
    }

    fn add_schema(&self, account: Json) -> (r: Json)
        ensures
            r@ == self.with_schema(account@),
    {
        match &self.input_schema {
            Some(schema) => account.with("input_schema", schema.copy()),
            None => account,
        }
    }

    /// What is shown of the agent in a list.
    pub fn list_entry(&self, execution_count: i64) -> (r: Json)
        ensures
            r@ == self.listed(execution_count as int),
    {
        self.add_schema(
            self.account().with("execution_count", Json::Int(execution_count as i128)),
        )
    }

    /// What is shown of the agent alone.
    pub fn details(&self, manifest: Json, manifest_yaml: &str) -> (r: Json)
        ensures
            r@ == self.detailed(manifest@, manifest_yaml@),
    {
        self.add_schema(
            self.account().with("manifest", manifest).with(
                "manifest_yaml",
                Json::text(manifest_yaml),
            ),
        )
    }
}

/// The answer that lists agents, each with the number of its executions.
pub fn list_agents_reply(outcome: Result<Vec<(AgentRow, Option<i64>)>, String>) -> (r: Reply)
    ensures
        r@ == (match outcome {
            Ok(agents) => http::json_reply(
                200,
                JsonView::Arr(
                    agents@.map_values(
                        |a: (AgentRow, Option<i64>)|
                            a.0.listed(handlers::workflows::shown_count(a.1)),
                    ),
                ),
            ),
            Err(e) => http::error_reply(200, e@),
        }),
{
    match outcome {
        Ok(agents) => {
            let mut items: Vec<Json> = Vec::new();
            let mut i: usize = 0;
            while i < agents.len()
                invariant
                    i <= agents@.len(),
                    items@.len() == i,
                    forall|k: int|
                        0 <= k < i ==> #[trigger] items@[k]@ == agents@[k].0.listed(
                            handlers::workflows::shown_count(agents@[k].1),
                        ),
                decreases agents@.len() - i,
            {
                let count: i64 = match agents[i].1 {
                    Some(n) => n,
                    None => 0,
                };
                items.push(agents[i].0.list_entry(count));
                i += 1;
            }
            assert(crate::json::json_views(items@) =~= agents@.map_values(
                |a: (AgentRow, Option<i64>)| a.0.listed(handlers::workflows::shown_count(a.1)),
            ));
            Reply::json(200, Json::array(items))
        },
        Err(e) => Reply::error(200, e.as_str()),
    }
}

/// The answer about one agent, with its manifest.
pub fn get_agent_reply(outcome: Result<(AgentRow, Json, String), String>) -> (r: Reply)
    ensures
        r@ == (match outcome {
            Ok((agent, manifest, yaml)) => http::json_reply(
                200,
                agent.detailed(manifest@, yaml@),
            ),
            Err(e) => http::error_reply(200, e@),
        }),
{
    match outcome {
        Ok((agent, manifest, yaml)) => Reply::json(200, agent.details(manifest, yaml.as_str())),
        Err(e) => Reply::error(200, e.as_str()),
    }
}

/// The answer that lists the versions of an agent.
pub fn list_agent_versions_reply(outcome: Result<Json, String>) -> (r: Reply)
    ensures
        r@ == (match outcome {
            Ok(versions) => http::json_reply(200, versions@),
            Err(e) => http::error_reply(200, e@),
        }),
{
    match outcome {
        Ok(versions) => Reply::json(200, versions),
        Err(e) => Reply::error(200, e.as_str()),
    }
}

/// The answer to a lookup by name.
pub fn lookup_agent_reply(outcome: Result<Option<String>, String>) -> (r: Reply)
    ensures
        r@ == (match outcome {
            Ok(Some(id)) => http::json_reply(
                200,
                JsonView::object().with("id"@, JsonView::Str(id@)),
            ),
            Ok(None) => http::error_reply(404, "Agent not found"@),
            Err(e) => http::error_reply(500, e@),
        }),
{
    match outcome {
        Ok(Some(id)) => Reply::json(200, Json::object().with("id", Json::Str(id))),
        Ok(None) => Reply::error(404, "Agent not found"),
        Err(e) => Reply::error(500, e.as_str()),
    }
}

/// What a caller wants to do with an agent.
#[derive(Clone, Copy, PartialEq, Eq, Structural, Debug)]
pub enum AgentChange {
    Update,
    Delete,
}

/// The message that refuses a change of an agent.
pub open spec fn refusal_message(change: AgentChange) -> Seq<char> {
    match change {
        AgentChange::Update => "Unauthorized: insufficient permissions to update this agent"@,
        AgentChange::Delete => "Unauthorized: insufficient permissions to delete this agent"@,
    }
}

/// Decides whether a caller may change an agent, by the scope of the agent, which is
/// missing where the agent was not found.
pub fn authorize_change(
    change: AgentChange,
    agent_scope: Option<Scope>,
    caller: Option<&UserIdentity>,
) -> (r: Result<(), Reply>)
    ensures
        match agent_scope {
            None => r matches Err(reply) && reply@ == http::error_reply(404, "Agent not found"@),
            Some(s) => if scope::may_change(
                s,
                seq![scope::role_of(identity::opt_identity(caller))],
            ) {
                r is Ok
            } else {
                r matches Err(reply) && reply@ == http::error_reply(403, refusal_message(change))
            },
        },
{
    match agent_scope {
        None => Err(Reply::error(404, "Agent not found")),
        Some(s) => {
            let roles = scope::build_roles(caller);
            if scope::authorized(s, &roles) {
                Ok(())
            } else {
                match change {
                    AgentChange::Update => Err(
                        Reply::error(
                            403,
                            "Unauthorized: insufficient permissions to update this agent",
                        ),
                    ),
                    AgentChange::Delete => Err(
                        Reply::error(
                            403,
                            "Unauthorized: insufficient permissions to delete this agent",
                        ),
                    ),
                }
            }
        },
    }
}

/// The answer to a change of an agent; the failure is missing where it was made.
pub fn change_reply(failure: Option<&str>) -> (r: Reply)
    ensures
        r@ == (match text::opt_str_view(failure) {
            Some(e) => http::error_reply(500, e),
            None => handlers::volumes::success(),
        }),
{
    match failure {
        Some(e) => Reply::error(500, e),
        None => handlers::volumes::success_reply(),
    }
}

/// What was learnt of a request to change an agent.
pub enum ChangeEvent {
    Begun,
    /// The scope of the agent; missing where the agent was not found.
    AgentFound(Option<Scope>),
    /// The change was made, or why not.
    Made(Result<(), String>),
}

/// What is done next with a request to change an agent.
pub enum ChangeAction {
    FindAgent,
    Make,
    Answer(Reply),
}

/// The mathematical content of what is done next with a request to change an agent.
pub enum ChangeActionView {
    FindAgent,
    Make,
    Answer(http::ReplyView),
}

impl View for ChangeAction {
    type V = ChangeActionView;

    open spec fn view(&self) -> ChangeActionView {
        match *self {
            ChangeAction::FindAgent => ChangeActionView::FindAgent,
            ChangeAction::Make => ChangeActionView::Make,
            ChangeAction::Answer(reply) => ChangeActionView::Answer(reply@),
        }
    }
}

/// What follows from what was learnt of a request to change an agent: it is found
/// first, then the caller's role is held against its scope, and only then it is
/// changed.
pub open spec fn change_next(
    change: AgentChange,
    caller: Option<identity::UserIdentityView>,
    event: ChangeEvent,
) -> ChangeActionView {
    match event {
        ChangeEvent::Begun => ChangeActionView::FindAgent,
        ChangeEvent::AgentFound(found) => match found {
            None => ChangeActionView::Answer(http::error_reply(404, "Agent not found"@)),
            Some(s) => if scope::may_change(s, seq![scope::role_of(caller)]) {
                ChangeActionView::Make
            } else {
                ChangeActionView::Answer(http::error_reply(403, refusal_message(change)))
            },
        },
        ChangeEvent::Made(outcome) => ChangeActionView::Answer(
            match outcome {
                Ok(_) => handlers::volumes::success(),
                Err(e) => http::error_reply(500, e@),
            },
        ),
    }
}

/// One step of a request to change an agent: takes what was learnt and says what to do
/// next.
pub fn change_agent_step(change: AgentChange, caller: Option<&UserIdentity>, event: ChangeEvent) ->
    (action: ChangeAction)
    ensures
        action@ == change_next(change, identity::opt_identity(caller), event),
{
    match event {
        ChangeEvent::Begun => ChangeAction::FindAgent,
        ChangeEvent::AgentFound(found) => match authorize_change(change, found, caller) {
            Ok(_) => ChangeAction::Make,
            Err(reply) => ChangeAction::Answer(reply),
        },
        ChangeEvent::Made(outcome) => match outcome {
            Ok(_) => ChangeAction::Answer(change_reply(None)),
            Err(e) => ChangeAction::Answer(change_reply(Some(e.as_str()))),
        },
    }
}

/// A global agent is neither updated nor deleted for a consumer or a tenant's user.
pub proof fn law_users_leave_global_agents_alone(
    change: AgentChange,
    caller: identity::UserIdentityView,
)
    requires
        caller.identity_kind is ConsumerUser || caller.identity_kind is TenantUser,
    ensures
        change_next(change, Some(caller), ChangeEvent::AgentFound(Some(Scope::Global)))
            == ChangeActionView::Answer(http::error_reply(403, refusal_message(change))),
{
    scope::law_users_cannot_change_what_is_global(caller);
}

/// What a request to change the scope of an agent asks for, and who asks.
pub fn update_agent_scope(
    body: &Json,
    caller: Option<&UserIdentity>,
    delegation: Option<&str>,
    default_tenant: &TenantId,
) -> (r: Result<(Scope, scope::ScopeChangeRequester), Reply>)
    ensures
        match scope::target_refusal(body@) {
            Some(message) => r matches Err(reply) && reply@ == http::error_reply(400, message),
            None => {
                &&& r matches Ok((wanted, requester))
                &&& Scope::named(body@.get_str("target_scope"@)->Some_0) == Some(wanted)
                &&& requester.user_id@ == scope::requester_name(identity::opt_identity(caller))
                &&& text::views(requester.roles@) == seq![
                    scope::role_of(identity::opt_identity(caller)),
                ]
                &&& requester.tenant_id@ == handlers::tenant_of_request(
                    identity::opt_identity(caller),
                    text::opt_str_view(delegation),
                    default_tenant@,
                )
            },
        },
{
    match scope::target_scope(body) {
        Ok(wanted) => {
            let tenant = handlers::tenant_id_from_request(caller, delegation, default_tenant);
            Ok((wanted, scope::scope_requester(caller, tenant)))
        },
        Err(reply) => Err(reply),
    }
}

/// What came of a change of an agent's scope.
pub enum AgentScopeOutcome {
    Changed,
    NotFound,
    Unauthorized { reason: String },
    InvalidTransition { from: String, to: String },
    NameCollision { name: String },
    Failed { message: String },
}

/// How a change of an agent's scope is answered.
pub open spec fn agent_scope_answer(wanted: Scope, outcome: AgentScopeOutcome) -> http::ReplyView {
    match outcome {
        AgentScopeOutcome::Changed => http::json_reply(
            200,
            JsonView::object().with("success"@, JsonView::Bool(true)).with(
                "new_scope"@,
                JsonView::Str(wanted.name()),
            ),
        ),
        AgentScopeOutcome::NotFound => http::error_reply(404, "agent not found"@),
        AgentScopeOutcome::Unauthorized { reason } => http::error_reply(403, reason@),
        AgentScopeOutcome::InvalidTransition { from, to } => http::error_reply(
            400,
            "invalid transition from '"@ + from@ + "' to '"@ + to@
                + "': must traverse through Tenant"@,
        ),
        AgentScopeOutcome::NameCollision { name } => http::error_reply(
            409,
            "name collision: agent '"@ + name@ + "' already exists at target scope"@,
        ),
        AgentScopeOutcome::Failed { message } => http::error_reply(500, message@),
    }
}

/// The answer to a change of an agent's scope.
pub fn update_agent_scope_reply(wanted: Scope, outcome: AgentScopeOutcome) -> (r: Reply)
    ensures
        r@ == agent_scope_answer(wanted, outcome),
{
    match outcome {
        AgentScopeOutcome::Changed => Reply::json(
            200,
            Json::object().with("success", Json::Bool(true)).with(
                "new_scope",
                Json::text(wanted.as_str()),
            ),
        ),
        AgentScopeOutcome::NotFound => Reply::error(404, "agent not found"),
        AgentScopeOutcome::Unauthorized { reason } => Reply::error(403, reason.as_str()),
        AgentScopeOutcome::InvalidTransition { from, to } => {
            let message = "invalid transition from '".to_owned().concat(from.as_str()).concat(
                "' to '",
            ).concat(to.as_str()).concat("': must traverse through Tenant");
            Reply::error(400, message.as_str())
        },
        AgentScopeOutcome::NameCollision { name } => {
            let message = "name collision: agent '".to_owned().concat(name.as_str()).concat(
                "' already exists at target scope",
            );
            Reply::error(409, message.as_str())
        },
        AgentScopeOutcome::Failed { message } => Reply::error(500, message.as_str()),
    }
}

/// What an agent is started with holds the input of the request, the overrides of its
/// context where the request has some and nothing in their place where it has none, and
/// the tenant of the request.
pub proof fn law_an_agent_is_started_as_asked(request: ExecuteAgentRequest)
    requires
        request.version is None,
    ensures
        ({
            &&& request.next(ExecuteEvent::Begun) matches ExecuteActionView::Start {
                intent,
                input,
                security_context_name,
            }
            &&& intent == text::opt_view(request.intent)
            &&& input.get("input"@) == Some(request.input@)
            &&& (request.context_overrides matches Some(c) ==> input.get("context_overrides"@)
                == Some(c@))
            &&& (request.context_overrides is None ==> input.get("context_overrides"@) == Some(
                JsonView::Null,
            ))
            &&& input.get("tenant_id"@) == Some(JsonView::Str(request.tenant_id@))
            &&& (request.security_context_name matches Some(name) ==> security_context_name
                == name@)
            &&& (request.security_context_name is None ==> security_context_name
                == "aegis-system-operator"@)
        }),
{
    broadcast use crate::json::lemma_get_with;

    reveal_strlit("input");
    reveal_strlit("context_overrides");
    reveal_strlit("tenant_id");
    assert("input"@.len() == 5 && "context_overrides"@.len() == 17 && "tenant_id"@.len() == 9);
}

/// The input that an agent is started with is told apart by each of its parts: two
/// starts with the same input had the same input, overrides and tenant.
pub proof fn law_start_inputs_are_told_apart(
    input: JsonView,
    overrides: Option<Json>,
    tenant: Seq<char>,
)
    ensures
        start_input(input, overrides, tenant).get("input"@) == Some(input),
        start_input(input, overrides, tenant).get("tenant_id"@) == Some(JsonView::Str(tenant)),
        overrides matches Some(c) ==> start_input(input, overrides, tenant).get(
            "context_overrides"@,
        ) == Some(c@),
        overrides is None ==> start_input(input, overrides, tenant).get("context_overrides"@)
            == Some(JsonView::Null),
{
    broadcast use crate::json::lemma_get_with;

    reveal_strlit("input");
    reveal_strlit("context_overrides");
    reveal_strlit("tenant_id");
    assert("input"@.len() == 5 && "context_overrides"@.len() == 17 && "tenant_id"@.len() == 9);
}

/// An agent of the version that is asked for is started, with what a request without a
/// version would start it with; a start is answered with the execution that came of it.
pub proof fn law_the_version_asked_for_is_started(
    request: ExecuteAgentRequest,
    found: String,
    id: String,
)
    ensures
        request.version matches Some(wanted) && wanted@ == found@ ==> request.next(
            ExecuteEvent::VersionFound(Ok(found)),
        ) == request.start(),
        request.version is None ==> request.next(ExecuteEvent::Begun) == request.start(),
        ({
            &&& request.next(ExecuteEvent::Started(Ok(id))) matches ExecuteActionView::Answer(reply)
            &&& reply.status == 200
            &&& reply.body matches Some(body)
            &&& body.get_str("execution_id"@) == Some(id@)
        }),
{
    broadcast use crate::json::lemma_get_with;

}

/// What every account of the agent shows: each part is found under its own name, as it
/// is.
pub proof fn law_agent_row_base_holds_its_parts(
    row: AgentRow,
)
    ensures
        row.base().get("id"@) == Some(JsonView::Str(row.id@)),
        row.base().get("name"@) == Some(JsonView::Str(row.name@)),
        row.base().get("version"@) == Some(JsonView::Str(row.version@)),
        row.base().get("description"@) == Some(JsonView::Str(row.shown_description())),
        row.base().get("status"@) == Some(JsonView::Str(text::lowered(row.status@))),
        row.base().get("labels"@) == Some(row.labels@),
        row.base().get("scope"@) == Some(JsonView::Str(row.scope.name())),
        row.base().get("created_at"@) == Some(operator_read_models::stamp_shown(row.created_at)),
        row.base().get("updated_at"@) == Some(operator_read_models::stamp_shown(row.updated_at)),
        row.base().get("tenant_id"@) == Some(JsonView::Str(row.tenant_id@)),
{
    broadcast use crate::json::lemma_get_with;

    reveal_strlit("id");
    reveal_strlit("name");
    reveal_strlit("version");
    reveal_strlit("description");
    reveal_strlit("status");
    reveal_strlit("labels");
    reveal_strlit("scope");
    reveal_strlit("created_at");
    reveal_strlit("updated_at");
    reveal_strlit("tenant_id");
    assert("id"@.len() == 2 && "name"@.len() == 4 && "version"@.len() == 7 && "description"@.len() == 11 && "status"@.len() == 6 && "labels"@.len() == 6 && "scope"@.len() == 5 && "created_at"@.len() == 10 && "updated_at"@.len() == 10 && "tenant_id"@.len() == 9 && "labels"@[0] == 'l' && "status"@[0] == 's' && "updated_at"@[0] == 'u' && "created_at"@[0] == 'c');
}

/// An agent is listed with its number of executions and shown with its manifest, beside all
/// that is always told of it, and with its schema where it has one.
pub proof fn law_agents_are_shown_with_what_is_asked(
    agent: AgentRow,
    count: int,
    manifest: JsonView,
    yaml: Seq<char>,
    key: Seq<char>,
)
    requires
        key == "id"@ || key == "name"@ || key == "version"@ || key == "description"@ || key
            == "status"@ || key == "scope"@ || key == "tenant_id"@,
    ensures
        agent.listed(count).get("execution_count"@) == Some(JsonView::Int(count)),
        agent.detailed(manifest, yaml).get("manifest"@) == Some(manifest),
        agent.detailed(manifest, yaml).get("manifest_yaml"@) == Some(JsonView::Str(yaml)),
        agent.input_schema matches Some(schema) ==> agent.listed(count).get("input_schema"@)
            == Some(schema@) && agent.detailed(manifest, yaml).get("input_schema"@) == Some(
            schema@,
        ),
        agent.input_schema is None ==> agent.listed(count).get("input_schema"@) is None
            && agent.detailed(manifest, yaml).get("input_schema"@) is None,
        agent.listed(count).get(key) == agent.base().get(key),
        agent.detailed(manifest, yaml).get(key) == agent.base().get(key),
        agent.description matches Some(d) ==> agent.shown_description() == d@,
        agent.description is None ==> agent.shown_description().len() == 0,
{
    broadcast use crate::json::lemma_get_with;

    reveal_strlit("id");
    reveal_strlit("name");
    reveal_strlit("version");
    reveal_strlit("description");
    reveal_strlit("status");
    reveal_strlit("labels");
    reveal_strlit("scope");
    reveal_strlit("created_at");
    reveal_strlit("updated_at");
    reveal_strlit("tenant_id");
    reveal_strlit("execution_count");
    reveal_strlit("manifest");
    reveal_strlit("manifest_yaml");
    reveal_strlit("input_schema");
    assert("id"@.len() == 2 && "name"@.len() == 4 && "version"@.len() == 7 && "description"@.len() == 11 && "status"@.len() == 6 && "labels"@.len() == 6 && "scope"@.len() == 5 && "created_at"@.len() == 10 && "updated_at"@.len() == 10 && "tenant_id"@.len() == 9 && "execution_count"@.len() == 15 && "manifest"@.len() == 8 && "manifest_yaml"@.len() == 13 && "input_schema"@.len() == 12 && "labels"@[0] == 'l' && "status"@[0] == 's' && "updated_at"@[0] == 'u' && "created_at"@[0] == 'c');
    reveal_strlit("");
}

/// A change to an agent is made by those who may change its scope; it is told who may not,
/// and what came of it.
pub proof fn law_changes_are_made_by_those_who_may(
    change: AgentChange,
    caller: Option<identity::UserIdentityView>,
    s: Scope,
    e: String,
)
    ensures
        change_next(change, caller, ChangeEvent::Begun) == ChangeActionView::FindAgent,
        change_next(change, caller, ChangeEvent::AgentFound(Some(s))) == ChangeActionView::Make
            <==> scope::may_change(s, seq![scope::role_of(caller)]),
        !scope::may_change(s, seq![scope::role_of(caller)]) ==> (change_next(
            change,
            caller,
            ChangeEvent::AgentFound(Some(s)),
        ) matches ChangeActionView::Answer(reply) && reply.status == 403),
        change_next(change, caller, ChangeEvent::AgentFound(None)) matches ChangeActionView::Answer(
            reply,
        ) && reply.status == 404,
        change_next(change, caller, ChangeEvent::Made(Ok(()))) matches ChangeActionView::Answer(
            reply,
        ) && reply.status == 200,
        change_next(change, caller, ChangeEvent::Made(Err(e))) matches ChangeActionView::Answer(
            reply,
        ) && reply.status == 500,
        refusal_message(AgentChange::Update) != refusal_message(AgentChange::Delete),
{
    let a = "Unauthorized: insufficient permissions to update this agent"@;
    let b = "Unauthorized: insufficient permissions to delete this agent"@;
    reveal_strlit("Unauthorized: insufficient permissions to update this agent");
    reveal_strlit("Unauthorized: insufficient permissions to delete this agent");
    assert(a[42] != b[42]);
}

/// What came of a change of scope is answered by its kind.
pub proof fn law_agent_scopes_are_answered(wanted: Scope, outcome: AgentScopeOutcome)
    ensures
        agent_scope_answer(wanted, outcome).status == 200 <==> outcome is Changed,
        agent_scope_answer(wanted, outcome).status == 404 <==> outcome is NotFound,
        agent_scope_answer(wanted, outcome).status == 403 <==> outcome is Unauthorized,
        agent_scope_answer(wanted, outcome).status == 400 <==> outcome is InvalidTransition,
        agent_scope_answer(wanted, outcome).status == 409 <==> outcome is NameCollision,
        agent_scope_answer(wanted, outcome).status == 500 <==> outcome is Failed,
        outcome is Changed ==> (agent_scope_answer(wanted, outcome).body matches Some(body)
            && body.get("new_scope"@) == Some(JsonView::Str(wanted.name())) && body.get(
            "success"@,
        ) == Some(JsonView::Bool(true))),
{
    broadcast use crate::json::lemma_get_with;

    reveal_strlit("success");
    reveal_strlit("new_scope");
    assert("success"@.len() == 7 && "new_scope"@.len() == 9);
}

/// An agent that was started is answered with its execution.
pub proof fn law_a_started_agent_is_told(request: ExecuteAgentRequest, id: String)
    ensures
        ({
            &&& request.next(ExecuteEvent::Started(Ok(id))) matches ExecuteActionView::Answer(
                reply,
            )
            &&& reply.status == 200
            &&& reply.body matches Some(body)
            &&& body.get("execution_id"@) == Some(JsonView::Str(id@))
        }),
{
    broadcast use crate::json::lemma_get_with;

}

} // verus!
