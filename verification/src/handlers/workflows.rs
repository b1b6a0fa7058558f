//! Workflows: how they are registered, run, listed and promoted.

use crate::handlers::scope;
use crate::handlers::scope::{Listing, Scope};
use crate::handlers;
use crate::http;
use crate::http::Reply;
use crate::identity;
use crate::identity::{TenantId, UserIdentity};
use crate::json::{Json, JsonView};
use crate::operator_read_models::Moment;
use crate::{operator_read_models, primitives, text};
use vstd::prelude::*;

verus! {

/// The scope and the tenant under which a workflow is registered.
pub fn register_target(
    asked: Option<&str>,
    caller: Option<&UserIdentity>,
    default_tenant: &TenantId,
) -> (r: (TenantId, Scope))
    ensures
        r.1 == scope::deploy_scope(text::opt_str_view(asked)),
        r.0@ == scope::deploy_tenant(
            r.1,
            handlers::tenant_of_identity(identity::opt_identity(caller), default_tenant@),
        ),
{
    let wanted = scope::requested_scope(asked);
    let tenant = handlers::tenant_id_from_identity(caller, default_tenant);
    (scope::effective_tenant(wanted, tenant), wanted)
}

/// The answer to a registration.
pub fn register_reply(outcome: Result<Json, String>) -> (r: Reply)
    ensures
        r@ == (match outcome {
            Ok(body) => http::json_reply(200, body@),
            Err(e) => http::error_reply(400, "Failed to register workflow: "@ + e@),
        }),
{
    match outcome {
        Ok(body) => Reply::json(200, body),
        Err(e) => {
            let message = "Failed to register workflow: ".to_owned().concat(e.as_str());
            Reply::error(400, message.as_str())
        },
    }
}

/// A request to start a workflow.
pub struct StartWorkflowExecutionRequest {
    pub workflow_id: String,
    pub input: Json,
    pub blackboard: Option<Json>,
    pub version: Option<String>,
    pub tenant_id: Option<TenantId>,
    pub security_context_name: Option<String>,
    pub intent: Option<String>,
}

/// The tenant in which a workflow is started: the one that the request names, or the
/// caller's.
pub fn execution_tenant(
    request: &StartWorkflowExecutionRequest,
    caller: Option<&UserIdentity>,
    default_tenant: &TenantId,
) -> (r: TenantId)
    ensures
        r@ == (match request.tenant_id {
            Some(t) => t@,
            None => handlers::tenant_of_identity(identity::opt_identity(caller), default_tenant@),
        }),
{
    match &request.tenant_id {
        Some(t) => t.clone(),
        None => handlers::tenant_id_from_identity(caller, default_tenant),
    }
}

/// The answer to a start.
pub fn start_reply(outcome: Result<Json, String>) -> (r: Reply)
    ensures
        r@ == (match outcome {
            Ok(body) => http::json_reply(200, body@),
            Err(e) => http::error_reply(
                scope::start_failure_status(e@, 400),
                "Failed to start workflow execution: "@ + e@,
            ),
        }),
{
    match outcome {
        Ok(body) => Reply::json(200, body),
        Err(e) => {
            let status = scope::start_error_status(e.as_str(), 400);
            let message = "Failed to start workflow execution: ".to_owned().concat(e.as_str());
            Reply::error(status, message.as_str())
        },
    }
}

/// The start that a request to run a workflow by its name leads to. It runs in the
/// caller's tenant and security context.
pub fn run_workflow_legacy(
    name: String,
    version: Option<String>,
    input: Json,
    blackboard: Option<Json>,
    intent: Option<String>,
    caller: Option<&UserIdentity>,
    security_context_name: Option<String>,
    default_tenant: &TenantId,
) -> (r: StartWorkflowExecutionRequest)
    ensures
        r.workflow_id == name,
        r.input == input,
        r.blackboard == blackboard,
        r.version == version,
        r.security_context_name == security_context_name,
        r.intent == intent,
        identity::opt_tenant(r.tenant_id) == Some(
            handlers::tenant_of_identity(identity::opt_identity(caller), default_tenant@),
        ),
{
    StartWorkflowExecutionRequest {
        workflow_id: name,
        input,
        blackboard,
        version,
        tenant_id: Some(handlers::tenant_id_from_identity(caller, default_tenant)),
        security_context_name,
        intent,
    }
}

/// Which workflows a request lists: those of the tenant, unless more is asked for.
pub fn list_workflows(asked: Option<&str>, visible: Option<bool>) -> (r: Listing)
    ensures
        r == scope::listing_of(text::opt_str_view(asked), visible, false),
{
    scope::listing(asked, visible, false)
}

/// What is shown of a workflow.
pub struct WorkflowRow {
    pub id: String,
    pub name: String,
    pub version: Json,
    pub description: Json,
    pub scope: Scope,
    pub labels: Json,
    pub created_at: Moment,
    pub updated_at: Option<Moment>,
    pub tenant_id: TenantId,
    pub input_schema: Json,
}

impl WorkflowRow {
    /// What is shown of the workflow in a list.
    pub open spec fn listed(&self, execution_count: int) -> JsonView {
        JsonView::object().with("id"@, JsonView::Str(self.id@)).with(
            "name"@,
            JsonView::Str(self.name@),
        ).with("version"@, self.version@).with("description"@, self.description@).with(
            "scope"@,
            JsonView::Str(self.scope.name()),
        ).with("status"@, JsonView::Str("active"@)).with("labels"@, self.labels@).with(
            "created_at"@,
            operator_read_models::stamp_shown(self.created_at),
        ).with("updated_at"@, operator_read_models::opt_stamp_shown(self.updated_at)).with(
            "tenant_id"@,
            JsonView::Str(self.tenant_id@),
        ).with("input_schema"@, self.input_schema@).with(
            "execution_count"@,
            JsonView::Int(execution_count),
        )
    }

    /// What is shown of the workflow alone.
    pub open spec fn detailed(&self, manifest_yaml: Seq<char>) -> JsonView {
        JsonView::object().with("id"@, JsonView::Str(self.id@)).with(
            "name"@,
            JsonView::Str(self.name@),
        ).with("version"@, self.version@).with("description"@, self.description@).with(
            "scope"@,
            JsonView::Str(self.scope.name()),
        ).with("labels"@, self.labels@).with("created_at"@, operator_read_models::stamp_shown(self.created_at)).with(
            "updated_at"@,
            operator_read_models::opt_stamp_shown(self.updated_at),
        ).with("tenant_id"@, JsonView::Str(self.tenant_id@)).with(
            "input_schema"@,
            self.input_schema@,
        ).with("manifest_yaml"@, JsonView::Str(manifest_yaml))
    }

    /// What is shown of the workflow among its versions.
    pub open spec fn as_version(&self) -> JsonView {
        JsonView::object().with("id"@, JsonView::Str(self.id@)).with(
            "name"@,
            JsonView::Str(self.name@),
        ).with("version"@, self.version@).with("description"@, self.description@).with(
            "scope"@,
            JsonView::Str(self.scope.name()),
        ).with("created_at"@, operator_read_models::stamp_shown(self.created_at)).with(
            "tenant_id"@,
            JsonView::Str(self.tenant_id@),
        )
    }

    /// What is shown of the workflow in a list.
    pub fn list_entry(&self, execution_count: i64) -> (r: Json)
        ensures
            r@ == self.listed(execution_count as int),
    {
        Json::object().with("id", Json::text(self.id.as_str())).with(
            "name",
            Json::text(self.name.as_str()),
        ).with("version", self.version.copy()).with("description", self.description.copy()).with(
            "scope",
            Json::text(self.scope.as_str()),
        ).with("status", Json::text("active")).with("labels", self.labels.copy()).with(
            "created_at",
            operator_read_models::show_stamp(self.created_at),
        ).with("updated_at", operator_read_models::show_opt_stamp(self.updated_at)).with(
            "tenant_id",
            Json::text(self.tenant_id.as_str()),
        ).with("input_schema", self.input_schema.copy()).with(
            "execution_count",
            Json::Int(execution_count as i128),
        )
    }

    /// What is shown of the workflow alone.
    pub fn details(&self, manifest_yaml: &str) -> (r: Json)
        ensures
            r@ == self.detailed(manifest_yaml@),
    {
        Json::object().with("id", Json::text(self.id.as_str())).with(
            "name",
            Json::text(self.name.as_str()),
        ).with("version", self.version.copy()).with("description", self.description.copy()).with(
            "scope",
            Json::text(self.scope.as_str()),
        ).with("labels", self.labels.copy()).with(
            "created_at",
            operator_read_models::show_stamp(self.created_at),
        ).with("updated_at", operator_read_models::show_opt_stamp(self.updated_at)).with(
            "tenant_id",
            Json::text(self.tenant_id.as_str()),
        ).with("input_schema", self.input_schema.copy()).with(
            "manifest_yaml",
            Json::text(manifest_yaml),
        )
    }

    /// What is shown of the workflow among its versions.
    pub fn version_entry(&self) -> (r: Json)
        ensures
            r@ == self.as_version(),
    {
        Json::object().with("id", Json::text(self.id.as_str())).with(
            "name",
            Json::text(self.name.as_str()),
        ).with("version", self.version.copy()).with("description", self.description.copy()).with(
            "scope",
            Json::text(self.scope.as_str()),
        ).with("created_at", operator_read_models::show_stamp(self.created_at)).with(
            "tenant_id",
            Json::text(self.tenant_id.as_str()),
        )
    }
}

/// The number of executions that is shown; 0 where it could not be found out.
pub open spec fn shown_count(count: Option<i64>) -> int {
    match count {
        Some(n) => n as int,
        None => 0,
    }
}

/// The answer that lists workflows, each with the number of its executions.
pub fn list_workflows_reply(workflows: &Vec<(WorkflowRow, Option<i64>)>) -> (r: Reply)
    ensures
        r@ == http::json_reply(
            200,
            JsonView::Arr(
                workflows@.map_values(
                    |w: (WorkflowRow, Option<i64>)| w.0.listed(shown_count(w.1)),
                ),
            ),
        ),
{
    let mut items: Vec<Json> = Vec::new();
    let mut i: usize = 0;
    while i < workflows.len()
        invariant
            i <= workflows@.len(),
            items@.len() == i,
            forall|k: int|
                0 <= k < i ==> #[trigger] items@[k]@ == workflows@[k].0.listed(
                    shown_count(workflows@[k].1),
                ),
        decreases workflows@.len() - i,
    {
        let count: i64 = match workflows[i].1 {
            Some(n) => n,
            None => 0,
        };
        items.push(workflows[i].0.list_entry(count));
        i += 1;
    }
    assert(crate::json::json_views(items@) =~= workflows@.map_values(
        |w: (WorkflowRow, Option<i64>)| w.0.listed(shown_count(w.1)),
    ));
    Reply::json(200, Json::array(items))
}

/// The answer about one workflow. Its manifest is left empty where it cannot be
/// written down.
pub fn get_workflow_reply(name: &str, found: Option<(&WorkflowRow, Option<&str>)>) -> (r: Reply)
    ensures
        r@ == (match found {
            Some((workflow, yaml)) => http::json_reply(
                200,
                workflow.detailed(
                    match yaml {
                        Some(y) => y@,
                        None => ""@,
                    },
                ),
            ),
            None => http::error_reply(404, "Workflow '"@ + name@ + "' not found"@),
        }),
{
    match found {
        Some((workflow, yaml)) => {
            let manifest_yaml = match yaml {
                Some(y) => y,
                None => "",
            };
            Reply::json(200, workflow.details(manifest_yaml))
        },
        None => {
            let message = "Workflow '".to_owned().concat(name).concat("' not found");
            Reply::error(404, message.as_str())
        },
    }
}

/// What a request to delete a workflow meets.
pub enum DeleteEvent {
    /// It was taken up.
    Begun,
    /// The workflow was sought by its name: its identifier and the name that it has,
    /// or nothing where it was not found or could not be sought.
    Found(Option<(u128, String)>),
    /// The workflow with the given identifier and name was to be deleted.
    Deleted { workflow_id: u128, workflow_name: String, failure: Option<String> },
}

/// What a request to delete a workflow leads to.
pub enum DeleteAction {
    FindWorkflow,
    Delete { workflow_id: u128, workflow_name: String },
    /// The request is answered, and the removal of the workflow published.
    Publish { workflow_id: u128, workflow_name: String, reply: Reply },
    Answer(Reply),
}

/// The mathematical content of what a request to delete a workflow leads to.
pub enum DeleteActionView {
    FindWorkflow,
    Delete { workflow_id: u128, workflow_name: Seq<char> },
    Publish { workflow_id: u128, workflow_name: Seq<char>, reply: http::ReplyView },
    Answer(http::ReplyView),
}

impl View for DeleteAction {
    type V = DeleteActionView;

    open spec fn view(&self) -> DeleteActionView {
        match self {
            DeleteAction::FindWorkflow => DeleteActionView::FindWorkflow,
            DeleteAction::Delete { workflow_id, workflow_name } => DeleteActionView::Delete {
                workflow_id: *workflow_id,
                workflow_name: workflow_name@,
            },
            DeleteAction::Publish { workflow_id, workflow_name, reply } =>
                DeleteActionView::Publish {
                workflow_id: *workflow_id,
                workflow_name: workflow_name@,
                reply: reply@,
            },
            DeleteAction::Answer(reply) => DeleteActionView::Answer(reply@),
        }
    }
}

/// What a request to delete a workflow leads to: the removal is published only once
/// it was done.
pub open spec fn delete_next(event: DeleteEvent) -> DeleteActionView {
    match event {
        DeleteEvent::Begun => DeleteActionView::FindWorkflow,
        DeleteEvent::Found(Some((workflow_id, name))) => DeleteActionView::Delete {
            workflow_id,
            workflow_name: name@,
        },
        DeleteEvent::Found(None) => DeleteActionView::Answer(
            http::error_reply(404, "not found"@),
        ),
        DeleteEvent::Deleted { workflow_id, workflow_name, failure } => match failure {
            Some(e) => DeleteActionView::Answer(http::error_reply(500, e@)),
            None => DeleteActionView::Publish {
                workflow_id,
                workflow_name: workflow_name@,
                reply: handlers::volumes::success(),
            },
        },
    }
}

/// What a request to delete a workflow leads to.
pub fn delete_workflow_step(event: DeleteEvent) -> (action: DeleteAction)
    ensures
        action@ == delete_next(event),
{
    match event {
        DeleteEvent::Begun => DeleteAction::FindWorkflow,
        DeleteEvent::Found(Some((workflow_id, workflow_name))) => DeleteAction::Delete {
            workflow_id,
            workflow_name,
        },
        DeleteEvent::Found(None) => DeleteAction::Answer(Reply::error(404, "not found")),
        DeleteEvent::Deleted { workflow_id, workflow_name, failure } => match failure {
            Some(e) => DeleteAction::Answer(Reply::error(500, e.as_str())),
            None => DeleteAction::Publish {
                workflow_id,
                workflow_name,
                reply: handlers::volumes::success_reply(),
            },
        },
    }
}

/// The answer that lists the versions of a workflow.
pub fn list_workflow_versions_reply(outcome: Result<Vec<WorkflowRow>, String>) -> (r: Reply)
    ensures
        r@ == (match outcome {
            Ok(versions) => http::json_reply(
                200,
                JsonView::Arr(versions@.map_values(|w: WorkflowRow| w.as_version())),
            ),
            Err(e) => http::error_reply(500, e@),
        }),
{
    match outcome {
        Ok(versions) => {
            let mut items: Vec<Json> = Vec::new();
            let mut i: usize = 0;
            while i < versions.len()
                invariant
                    i <= versions@.len(),
                    items@.len() == i,
                    forall|k: int|
                        0 <= k < i ==> #[trigger] items@[k]@ == versions@[k].as_version(),
                decreases versions@.len() - i,
            {
                items.push(versions[i].version_entry());
                i += 1;
            }
            assert(crate::json::json_views(items@) =~= versions@.map_values(
                |w: WorkflowRow| w.as_version(),
            ));
            Reply::json(200, Json::array(items))
        },
        Err(e) => Reply::error(500, e.as_str()),
    }
}

/// What names a workflow.
pub enum WorkflowRef {
    Id(u128),
    Name(String),
}

/// The mathematical content of what names a workflow.
pub enum WorkflowRefView {
    Id(u128),
    Name(Seq<char>),
}

impl View for WorkflowRef {
    type V = WorkflowRefView;

    open spec fn view(&self) -> WorkflowRefView {
        match *self {
            WorkflowRef::Id(id) => WorkflowRefView::Id(id),
            WorkflowRef::Name(name) => WorkflowRefView::Name(name@),
        }
    }
}

/// What names a workflow, given the identifier that the text denotes.
pub open spec fn ref_of(id_or_name: Seq<char>, id: Option<u128>) -> WorkflowRefView {
    match id {
        Some(n) => WorkflowRefView::Id(n),
        None => WorkflowRefView::Name(id_or_name),
    }
}

/// What names a workflow, given the identifier that the text denotes.
pub fn workflow_ref_of(id_or_name: &str, id: Option<u128>) -> (r: WorkflowRef)
    ensures
        r@ == ref_of(id_or_name@, id),
{
    match id {
        Some(n) => WorkflowRef::Id(n),
        None => WorkflowRef::Name(id_or_name.to_owned()),
    }
}

/// What names a workflow: an identifier, or else a name.
pub fn workflow_ref(id_or_name: &str) -> (r: WorkflowRef)
    ensures
        r@ == ref_of(id_or_name@, primitives::parsed_uuid(id_or_name@)),
{
    workflow_ref_of(id_or_name, primitives::parse_uuid(id_or_name))
}

/// What is to be looked up to change the scope of a workflow: the scope that is
/// asked for, and the workflow. A request for no valid scope is refused before
/// anything is looked up.
pub fn update_workflow_scope(body: &Json, id_or_name: &str) -> (r: Result<
    (Scope, WorkflowRef),
    Reply,
>)
    ensures
        match scope::target_refusal(body@) {
            Some(message) => r matches Err(reply) && reply@ == http::error_reply(400, message),
            None => r matches Ok((wanted, which)) && Scope::named(
                body@.get_str("target_scope"@)->Some_0,
            ) == Some(wanted) && which@ == ref_of(
                id_or_name@,
                primitives::parsed_uuid(id_or_name@),
            ),
        },
{
    match scope::target_scope(body) {
        Ok(wanted) => Ok((wanted, workflow_ref(id_or_name))),
        Err(reply) => Err(reply),
    }
}

/// The answer where the workflow whose scope is to change was not found, or could not
/// be looked up.
pub fn scope_lookup_reply(id_or_name: &str, failure: Option<&str>) -> (r: Reply)
    ensures
        r@ == scope_lookup_answer(id_or_name@, text::opt_str_view(failure)),
{
    match failure {
        Some(e) => Reply::error(500, e),
        None => {
            let message = "workflow '".to_owned().concat(id_or_name).concat("' not found");
            Reply::error(404, message.as_str())
        },
    }
}

/// What came of a change of scope.
pub enum ScopeChangeOutcome {
    Changed,
    NameCollision { existing_id: String, name: String, version: String },
    Unauthorized { reason: String },
    Failed { message: String },
}

/// How a change of scope is answered.
pub open spec fn scope_answer(
    workflow_id: Seq<char>,
    previous: Scope,
    wanted: Scope,
    outcome: ScopeChangeOutcome,
) -> http::ReplyView {
    match outcome {
        ScopeChangeOutcome::Changed => http::json_reply(
            200,
            JsonView::object().with("workflow_id"@, JsonView::Str(workflow_id)).with(
                "previous_scope"@,
                JsonView::Str(previous.name()),
            ).with("new_scope"@, JsonView::Str(wanted.name())),
        ),
        ScopeChangeOutcome::NameCollision { existing_id, name, version } => http::json_reply(
            409,
            JsonView::object().with(
                "error"@,
                JsonView::Str(
                    "Name collision: workflow '"@ + name@ + "' v"@ + version@
                        + " already exists at target scope"@,
                ),
            ).with("existing_id"@, JsonView::Str(existing_id@)),
        ),
        ScopeChangeOutcome::Unauthorized { reason } => http::error_reply(403, reason@),
        ScopeChangeOutcome::Failed { message } => http::error_reply(400, message@),
    }
}

/// The answer to a change of scope.
pub fn update_workflow_scope_reply(
    workflow_id: &str,
    previous: Scope,
    wanted: Scope,
    outcome: ScopeChangeOutcome,
) -> (r: Reply)
    ensures
        r@ == scope_answer(workflow_id@, previous, wanted, outcome),
{
    match outcome {
        ScopeChangeOutcome::Changed => Reply::json(
            200,
            Json::object().with("workflow_id", Json::text(workflow_id)).with(
                "previous_scope",
                Json::text(previous.as_str()),
            ).with("new_scope", Json::text(wanted.as_str())),
        ),
        ScopeChangeOutcome::NameCollision { existing_id, name, version } => {
            let message = "Name collision: workflow '".to_owned().concat(name.as_str()).concat(
                "' v",
            ).concat(version.as_str()).concat(" already exists at target scope");
            Reply::json(
                409,
                Json::object().with("error", Json::Str(message)).with(
                    "existing_id",
                    Json::Str(existing_id),
                ),
            )
        },
        ScopeChangeOutcome::Unauthorized { reason } => Reply::error(403, reason.as_str()),
        ScopeChangeOutcome::Failed { message } => Reply::error(400, message.as_str()),
    }
}

/// A request to change the scope of a workflow, and the workflow once it is known: its
/// identifier and the scope that it had.
pub struct WorkflowScopeRequest {
    pub wanted: Scope,
    pub id_or_name: String,
    pub which: WorkflowRef,
    pub workflow: Option<(String, Scope)>,
}

/// What was learnt of a request to change the scope of a workflow.
pub enum WorkflowScopeEvent {
    Begun,
    /// The workflow, by its identifier, and its scope.
    WorkflowFound(Result<Option<(String, Scope)>, String>),
    Changed(ScopeChangeOutcome),
}

/// What is done next with a request to change the scope of a workflow.
pub enum WorkflowScopeAction {
    FindWorkflow,
    /// Have the scope of the workflow with this identifier changed.
    ChangeScope { workflow_id: String, wanted: Scope },
    Answer(Reply),
}

/// The mathematical content of what is done next with a request to change the scope of
/// a workflow.
pub enum WorkflowScopeActionView {
    FindWorkflow,
    ChangeScope { workflow_id: Seq<char>, wanted: Scope },
    Answer(http::ReplyView),
}

impl View for WorkflowScopeAction {
    type V = WorkflowScopeActionView;

    open spec fn view(&self) -> WorkflowScopeActionView {
        match *self {
            WorkflowScopeAction::FindWorkflow => WorkflowScopeActionView::FindWorkflow,
            WorkflowScopeAction::ChangeScope { workflow_id, wanted } => {
                WorkflowScopeActionView::ChangeScope { workflow_id: workflow_id@, wanted }
            },
            WorkflowScopeAction::Answer(reply) => WorkflowScopeActionView::Answer(reply@),
        }
    }
}

/// The answer where the workflow whose scope is to change was not found, or could not
/// be looked up.
pub open spec fn scope_lookup_answer(id_or_name: Seq<char>, failure: Option<Seq<char>>) ->
    http::ReplyView {
    match failure {
        Some(e) => http::error_reply(500, e),
        None => http::error_reply(404, "workflow '"@ + id_or_name + "' not found"@),
    }
}

impl WorkflowScopeRequest {
    /// What a request asks for, or the answer that refuses it before anything is looked
    /// up.
    pub fn start(body: &Json, id_or_name: String) -> (r: Result<Self, Reply>)
        ensures
            match scope::target_refusal(body@) {
                Some(message) => r matches Err(reply) && reply@ == http::error_reply(400, message),
                None => {
                    &&& r matches Ok(request)
                    &&& Scope::named(body@.get_str("target_scope"@)->Some_0) == Some(request.wanted)
                    &&& request.id_or_name == id_or_name
                    &&& request.which@ == ref_of(
                        id_or_name@,
                        primitives::parsed_uuid(id_or_name@),
                    )
                    &&& request.workflow is None
                },
            },
    {
        match update_workflow_scope(body, id_or_name.as_str()) {
            Ok((wanted, which)) => Ok(
                WorkflowScopeRequest { wanted, id_or_name, which, workflow: None },
            ),
            Err(reply) => Err(reply),
        }
    }

    /// What follows from what was learnt. A change of a workflow that is not known yet
    /// begins anew.
    pub open spec fn next(self, event: WorkflowScopeEvent) -> WorkflowScopeActionView {
        match event {
            WorkflowScopeEvent::Begun => WorkflowScopeActionView::FindWorkflow,
            WorkflowScopeEvent::WorkflowFound(found) => match found {
                Ok(Some((id, _))) => WorkflowScopeActionView::ChangeScope {
                    workflow_id: id@,
                    wanted: self.wanted,
                },
                Ok(None) => WorkflowScopeActionView::Answer(
                    scope_lookup_answer(self.id_or_name@, None),
                ),
                Err(e) => WorkflowScopeActionView::Answer(
                    scope_lookup_answer(self.id_or_name@, Some(e@)),
                ),
            },
            WorkflowScopeEvent::Changed(outcome) => match self.workflow {
                Some((id, previous)) => WorkflowScopeActionView::Answer(
                    scope_answer(id@, previous, self.wanted, outcome),
                ),
                None => WorkflowScopeActionView::FindWorkflow,
            },
        }
    }

    /// One step of a request: takes what was learnt and says what to do next.
    pub fn step(&mut self, event: WorkflowScopeEvent) -> (action: WorkflowScopeAction)
        ensures
            action@ == old(self).next(event),
            final(self).wanted == old(self).wanted,
            final(self).id_or_name == old(self).id_or_name,
            final(self).which == old(self).which,
            final(self).workflow == (match event {
                WorkflowScopeEvent::WorkflowFound(Ok(found)) => found,
                _ => old(self).workflow,
            }),
    {
        match event {
            WorkflowScopeEvent::Begun => WorkflowScopeAction::FindWorkflow,
            WorkflowScopeEvent::WorkflowFound(found) => match found {
                Ok(workflow) => {
                    self.workflow = workflow;
                    match &self.workflow {
                        Some((id, _)) => WorkflowScopeAction::ChangeScope {
                            workflow_id: id.clone(),
                            wanted: self.wanted,
                        },
                        None => WorkflowScopeAction::Answer(
                            scope_lookup_reply(self.id_or_name.as_str(), None),
                        ),
                    }
                },
                Err(e) => WorkflowScopeAction::Answer(
                    scope_lookup_reply(self.id_or_name.as_str(), Some(e.as_str())),
                ),
            },
            WorkflowScopeEvent::Changed(outcome) => match &self.workflow {
                Some((id, previous)) => WorkflowScopeAction::Answer(
                    update_workflow_scope_reply(id.as_str(), *previous, self.wanted, outcome),
                ),
                None => WorkflowScopeAction::FindWorkflow,
            },
        }
    }
}

/// A change of scope that was made is answered with the scope that the workflow had
/// and the one that was asked for.
pub proof fn law_a_change_of_scope_names_both_scopes(
    request: WorkflowScopeRequest,
    id: String,
    previous: Scope,
)
    requires
        request.workflow == Some((id, previous)),
    ensures
        ({
            &&& request.next(WorkflowScopeEvent::Changed(ScopeChangeOutcome::Changed))
                matches WorkflowScopeActionView::Answer(reply)
            &&& reply.status == 200
            &&& reply.body matches Some(body)
            &&& body.get("workflow_id"@) == Some(JsonView::Str(id@))
            &&& body.get("previous_scope"@) == Some(JsonView::Str(previous.name()))
            &&& body.get("new_scope"@) == Some(JsonView::Str(request.wanted.name()))
        }),
{
    reveal_strlit("workflow_id");
    reveal_strlit("previous_scope");
    reveal_strlit("new_scope");
    assert("workflow_id"@[0] == 'w' && "previous_scope"@[0] == 'p' && "new_scope"@[0] == 'n');
    let a = JsonView::object().with("workflow_id"@, JsonView::Str(id@));
    let b = a.with("previous_scope"@, JsonView::Str(previous.name()));
    crate::json::law_get_after_with(
        JsonView::object(),
        "workflow_id"@,
        JsonView::Str(id@),
        "workflow_id"@,
    );
    crate::json::law_get_after_with(
        a,
        "previous_scope"@,
        JsonView::Str(previous.name()),
        "workflow_id"@,
    );
    crate::json::law_get_after_with(
        b,
        "new_scope"@,
        JsonView::Str(request.wanted.name()),
        "workflow_id"@,
    );
    crate::json::law_get_after_with(
        JsonView::object(),
        "workflow_id"@,
        JsonView::Str(id@),
        "previous_scope"@,
    );
    crate::json::law_get_after_with(
        a,
        "previous_scope"@,
        JsonView::Str(previous.name()),
        "previous_scope"@,
    );
    crate::json::law_get_after_with(
        b,
        "new_scope"@,
        JsonView::Str(request.wanted.name()),
        "previous_scope"@,
    );
    crate::json::law_get_after_with(
        JsonView::object(),
        "workflow_id"@,
        JsonView::Str(id@),
        "new_scope"@,
    );
    crate::json::law_get_after_with(
        a,
        "previous_scope"@,
        JsonView::Str(previous.name()),
        "new_scope"@,
    );
    crate::json::law_get_after_with(
        b,
        "new_scope"@,
        JsonView::Str(request.wanted.name()),
        "new_scope"@,
    );
}

/// What is shown of the workflow in a list: each part is found under its own name, as
/// it is.
pub proof fn law_workflow_row_listed_holds_its_parts(
    row: WorkflowRow,
    execution_count: int,
)
    ensures
        row.listed(execution_count).get("id"@) == Some(JsonView::Str(row.id@)),
        row.listed(execution_count).get("name"@) == Some(JsonView::Str(row.name@)),
        row.listed(execution_count).get("version"@) == Some(row.version@),
        row.listed(execution_count).get("description"@) == Some(row.description@),
        row.listed(execution_count).get("scope"@) == Some(JsonView::Str(row.scope.name())),
        row.listed(execution_count).get("status"@) == Some(JsonView::Str("active"@)),
        row.listed(execution_count).get("labels"@) == Some(row.labels@),
        row.listed(execution_count).get("created_at"@) == Some(operator_read_models::stamp_shown(row.created_at)),
        row.listed(execution_count).get("updated_at"@) == Some(operator_read_models::opt_stamp_shown(row.updated_at)),
        row.listed(execution_count).get("tenant_id"@) == Some(JsonView::Str(row.tenant_id@)),
        row.listed(execution_count).get("input_schema"@) == Some(row.input_schema@),
        row.listed(execution_count).get("execution_count"@) == Some(JsonView::Int(execution_count)),
{
    broadcast use crate::json::lemma_get_with;

    reveal_strlit("id");
    reveal_strlit("name");
    reveal_strlit("version");
    reveal_strlit("description");
    reveal_strlit("scope");
    reveal_strlit("status");
    reveal_strlit("labels");
    reveal_strlit("created_at");
    reveal_strlit("updated_at");
    reveal_strlit("tenant_id");
    reveal_strlit("input_schema");
    reveal_strlit("execution_count");
    assert("id"@.len() == 2 && "name"@.len() == 4 && "version"@.len() == 7 && "description"@.len() == 11 && "scope"@.len() == 5 && "status"@.len() == 6 && "labels"@.len() == 6 && "created_at"@.len() == 10 && "updated_at"@.len() == 10 && "tenant_id"@.len() == 9 && "input_schema"@.len() == 12 && "execution_count"@.len() == 15 && "labels"@[0] == 'l' && "status"@[0] == 's' && "updated_at"@[0] == 'u' && "created_at"@[0] == 'c');
}

/// What is shown of the workflow alone: each part is found under its own name, as it
/// is.
pub proof fn law_workflow_row_detailed_holds_its_parts(
    row: WorkflowRow,
    manifest_yaml: Seq<char>,
)
    ensures
        row.detailed(manifest_yaml).get("id"@) == Some(JsonView::Str(row.id@)),
        row.detailed(manifest_yaml).get("name"@) == Some(JsonView::Str(row.name@)),
        row.detailed(manifest_yaml).get("version"@) == Some(row.version@),
        row.detailed(manifest_yaml).get("description"@) == Some(row.description@),
        row.detailed(manifest_yaml).get("scope"@) == Some(JsonView::Str(row.scope.name())),
        row.detailed(manifest_yaml).get("labels"@) == Some(row.labels@),
        row.detailed(manifest_yaml).get("created_at"@) == Some(operator_read_models::stamp_shown(row.created_at)),
        row.detailed(manifest_yaml).get("updated_at"@) == Some(operator_read_models::opt_stamp_shown(row.updated_at)),
        row.detailed(manifest_yaml).get("tenant_id"@) == Some(JsonView::Str(row.tenant_id@)),
        row.detailed(manifest_yaml).get("input_schema"@) == Some(row.input_schema@),
        row.detailed(manifest_yaml).get("manifest_yaml"@) == Some(JsonView::Str(manifest_yaml)),
{
    broadcast use crate::json::lemma_get_with;

    reveal_strlit("id");
    reveal_strlit("name");
    reveal_strlit("version");
    reveal_strlit("description");
    reveal_strlit("scope");
    reveal_strlit("labels");
    reveal_strlit("created_at");
    reveal_strlit("updated_at");
    reveal_strlit("tenant_id");
    reveal_strlit("input_schema");
    reveal_strlit("manifest_yaml");
    assert("id"@.len() == 2 && "name"@.len() == 4 && "version"@.len() == 7 && "description"@.len() == 11 && "scope"@.len() == 5 && "labels"@.len() == 6 && "created_at"@.len() == 10 && "updated_at"@.len() == 10 && "tenant_id"@.len() == 9 && "input_schema"@.len() == 12 && "manifest_yaml"@.len() == 13 && "updated_at"@[0] == 'u' && "created_at"@[0] == 'c');
}

/// What is shown of the workflow among its versions: each part is found under its own
/// name, as it is.
pub proof fn law_workflow_row_as_version_holds_its_parts(
    row: WorkflowRow,
)
    ensures
        row.as_version().get("id"@) == Some(JsonView::Str(row.id@)),
        row.as_version().get("name"@) == Some(JsonView::Str(row.name@)),
        row.as_version().get("version"@) == Some(row.version@),
        row.as_version().get("description"@) == Some(row.description@),
        row.as_version().get("scope"@) == Some(JsonView::Str(row.scope.name())),
        row.as_version().get("created_at"@) == Some(operator_read_models::stamp_shown(row.created_at)),
        row.as_version().get("tenant_id"@) == Some(JsonView::Str(row.tenant_id@)),
{
    broadcast use crate::json::lemma_get_with;

    reveal_strlit("id");
    reveal_strlit("name");
    reveal_strlit("version");
    reveal_strlit("description");
    reveal_strlit("scope");
    reveal_strlit("created_at");
    reveal_strlit("tenant_id");
    assert("id"@.len() == 2 && "name"@.len() == 4 && "version"@.len() == 7 && "description"@.len() == 11 && "scope"@.len() == 5 && "created_at"@.len() == 10 && "tenant_id"@.len() == 9);
}

/// A workflow that is found is deleted and its end made known; one that is not is told.
pub proof fn law_a_workflow_is_deleted_and_made_known(id: u128, name: String, e: String)
    ensures
        delete_next(DeleteEvent::Begun) == DeleteActionView::FindWorkflow,
        delete_next(DeleteEvent::Found(Some((id, name)))) == (DeleteActionView::Delete {
            workflow_id: id,
            workflow_name: name@,
        }),
        delete_next(DeleteEvent::Found(None)) matches DeleteActionView::Answer(reply)
            && reply.status == 404,
        delete_next(
            DeleteEvent::Deleted { workflow_id: id, workflow_name: name, failure: None },
        ) matches DeleteActionView::Publish { workflow_id, workflow_name, reply } && workflow_id
            == id && workflow_name == name@ && reply.status == 200,
        delete_next(
            DeleteEvent::Deleted { workflow_id: id, workflow_name: name, failure: Some(e) },
        ) matches DeleteActionView::Answer(reply) && reply.status == 500,
{
}

/// A workflow is asked for by its identifier where there is one, and else by its name.
pub proof fn law_workflows_are_asked_for(name: Seq<char>, id: u128, n: i64)
    ensures
        ref_of(name, Some(id)) == WorkflowRefView::Id(id),
        ref_of(name, None) == WorkflowRefView::Name(name),
        shown_count(Some(n)) == n,
        shown_count(None) == 0,
{
}

/// The scope that is wanted is asked for the workflow that was found, and the answer tells
/// what came of it.
pub proof fn law_a_change_of_scope_is_made_and_told(
    request: WorkflowScopeRequest,
    id: String,
    previous: Scope,
    outcome: ScopeChangeOutcome,
    e: String,
)
    requires
        request.workflow == Some((id, previous)),
    ensures
        request.next(WorkflowScopeEvent::Begun) is FindWorkflow,
        request.next(WorkflowScopeEvent::WorkflowFound(Ok(Some((id, previous))))) == (
        WorkflowScopeActionView::ChangeScope { workflow_id: id@, wanted: request.wanted }),
        request.next(
            WorkflowScopeEvent::WorkflowFound(Ok(None)),
        ) matches WorkflowScopeActionView::Answer(reply) && reply.status == 404,
        request.next(
            WorkflowScopeEvent::WorkflowFound(Err(e)),
        ) matches WorkflowScopeActionView::Answer(reply) && reply.status == 500,
        ({
            &&& request.next(
                WorkflowScopeEvent::Changed(outcome),
            ) matches WorkflowScopeActionView::Answer(reply)
            &&& outcome is Changed ==> reply.status == 200 && (reply.body matches Some(body)
                && body.get("workflow_id"@) == Some(JsonView::Str(id@)) && body.get(
                "previous_scope"@,
            ) == Some(JsonView::Str(previous.name())) && body.get("new_scope"@) == Some(
                JsonView::Str(request.wanted.name()),
            ))
            &&& outcome matches ScopeChangeOutcome::NameCollision { existing_id, .. }
                ==> reply.status == 409 && (reply.body matches Some(body) && body.get(
                "existing_id"@,
            ) == Some(JsonView::Str(existing_id@)))
            &&& outcome is Unauthorized ==> reply.status == 403
            &&& outcome is Failed ==> reply.status == 400
        }),
{
    broadcast use crate::json::lemma_get_with;

    reveal_strlit("workflow_id");
    reveal_strlit("previous_scope");
    reveal_strlit("new_scope");
    reveal_strlit("error");
    reveal_strlit("existing_id");
    assert("workflow_id"@.len() == 11 && "previous_scope"@.len() == 14 && "new_scope"@.len() == 9 && "error"@.len() == 5 && "existing_id"@.len() == 11 && "existing_id"@[0] == 'e' && "workflow_id"@[0] == 'w');
}

} // verus!
