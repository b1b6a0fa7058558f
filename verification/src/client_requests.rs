//! The requests that the client sends: how, to where, with what, and what is said where
//! one fails.

use crate::client;
use crate::client::DaemonClient;
use crate::json::{Json, JsonView};
use crate::{json_value, primitives, text};
use vstd::prelude::*;

verus! {

/// How a request is sent.
#[derive(Clone, Copy, PartialEq, Eq, Structural, Debug)]
pub enum Method {
    Get,
    Post,
    Delete,
}

/// What a request carries.
#[derive(PartialEq, Eq, Debug)]
pub enum RequestBody {
    Nothing,
    Json(Json),
    Yaml(String),
}

/// The mathematical content of what a request carries.
pub enum RequestBodyView {
    Nothing,
    Json(JsonView),
    Yaml(Seq<char>),
}

impl View for RequestBody {
    type V = RequestBodyView;

    open spec fn view(&self) -> RequestBodyView {
        match self {
            RequestBody::Nothing => RequestBodyView::Nothing,
            RequestBody::Json(body) => RequestBodyView::Json(body@),
            RequestBody::Yaml(body) => RequestBodyView::Yaml(body@),
        }
    }
}

/// A request to the daemon, with what is said where it cannot be sent, and where the
/// daemon refuses it.
pub struct ClientRequest {
    pub method: Method,
    pub url: String,
    pub body: RequestBody,
    pub not_sent: &'static str,
    pub failed: &'static str,
}

/// The mathematical content of a request.
pub struct ClientRequestView {
    pub method: Method,
    pub url: Seq<char>,
    pub body: RequestBodyView,
    pub not_sent: Seq<char>,
    pub failed: Seq<char>,
}

impl View for ClientRequest {
    type V = ClientRequestView;

    open spec fn view(&self) -> ClientRequestView {
        ClientRequestView {
            method: self.method,
            url: self.url@,
            body: self.body@,
            not_sent: self.not_sent@,
            failed: self.failed@,
        }
    }
}

/// A request of which the same is said wherever it fails.
pub open spec fn request_of(
    method: Method,
    url: Seq<char>,
    body: RequestBodyView,
    failed: Seq<char>,
) -> ClientRequestView {
    ClientRequestView { method, url, body, not_sent: failed, failed }
}

/// A request for a stream.
pub open spec fn stream_of(url: Seq<char>, not_sent: Seq<char>, failed: Seq<char>) ->
    ClientRequestView {
    ClientRequestView {
        method: Method::Get,
        url,
        body: RequestBodyView::Nothing,
        not_sent,
        failed,
    }
}

fn request(method: Method, url: String, body: RequestBody, failed: &'static str) -> (r:
    ClientRequest)
    ensures
        r@ == request_of(method, url@, body@, failed@),
{
    ClientRequest { method, url, body, not_sent: failed, failed }
}

fn stream(url: String, not_sent: &'static str, failed: &'static str) -> (r: ClientRequest)
    ensures
        r@ == stream_of(url@, not_sent@, failed@),
{
    ClientRequest { method: Method::Get, url, body: RequestBody::Nothing, not_sent, failed }
}

/// What starts something: its input, and something more where it is given.
pub open spec fn start_body(input: JsonView, name: Seq<char>, more: Option<JsonView>) -> JsonView {
    match more {
        Some(value) => JsonView::object().with("input"@, input).with(name, value),
        None => JsonView::object().with("input"@, input),
    }
}

fn starting(input: Json, name: &str, more: Option<Json>) -> (r: RequestBody)
    ensures
        r@ == RequestBodyView::Json(start_body(input@, name@, json_value::opt_content(more))),
{
    let body = Json::object().with("input", input);
    RequestBody::Json(
        match more {
            Some(value) => body.with(name, value),
            None => body,
        },
    )
}

/// The text of an identifier that may be missing.
pub open spec fn opt_id(id: Option<u128>) -> Option<Seq<char>> {
    match id {
        Some(n) => Some(primitives::uuid_chars(n)),
        None => None,
    }
}

impl DaemonClient {
    /// The address of something with an identifier under a path.
    pub open spec fn item_of(&self, path: Seq<char>, id: u128, rest: Seq<char>) -> Seq<char> {
        self.base_url@ + path + primitives::uuid_chars(id) + rest
    }

    fn item(&self, path: &str, id: u128, rest: &str) -> (r: String)
        ensures
            r@ == self.item_of(path@, id, rest@),
    {
        self.item_url(path, primitives::uuid_text(id).as_str(), rest)
    }

    /// Deploys an agent.
    pub fn deploy_agent(&self, manifest: Json, force: bool) -> (r: ClientRequest)
        ensures
            r@ == request_of(
                Method::Post,
                self.base_url@ + (if force {
                    "/v1/agents?force=true"@
                } else {
                    "/v1/agents"@
                }),
                RequestBodyView::Json(manifest@),
                "Failed to deploy agent"@,
            ),
    {
        request(
            Method::Post,
            self.deploy_agent_url(force),
            RequestBody::Json(manifest),
            "Failed to deploy agent",
        )
    }

    /// Executes an agent.
    pub fn execute_agent(&self, agent_id: u128, input: Json, context_overrides: Option<Json>, version: Option<&str>) -> (r: ClientRequest)
        ensures
            r@ == request_of(
                Method::Post,
                self.item_of("/v1/agents/"@, agent_id, "/execute"@) + client::query_of(
                    client::opt_param("version="@, text::opt_str_view(version)),
                ),
                RequestBodyView::Json(
                    start_body(input@, "context_overrides"@, json_value::opt_content(context_overrides)),
                ),
                "Failed to execute agent"@,
            ),
    {
        let id = primitives::uuid_text(agent_id);
        request(
            Method::Post,
            self.execute_agent_url(id.as_str(), version),
            starting(input, "context_overrides", context_overrides),
            "Failed to execute agent",
        )
    }

    /// Asks for an execution.
    pub fn get_execution(&self, execution_id: u128) -> (r: ClientRequest)
        ensures
            r@ == request_of(
                Method::Get,
                self.item_of("/v1/executions/"@, execution_id, ""@),
                RequestBodyView::Nothing,
                "Failed to get execution"@,
            ),
    {
        request(
            Method::Get,
            self.item("/v1/executions/", execution_id, ""),
            RequestBody::Nothing,
            "Failed to get execution",
        )
    }

    /// Cancels an execution.
    pub fn cancel_execution(&self, execution_id: u128) -> (r: ClientRequest)
        ensures
            r@ == request_of(
                Method::Post,
                self.item_of("/v1/executions/"@, execution_id, "/cancel"@),
                RequestBodyView::Nothing,
                "Failed to cancel execution"@,
            ),
    {
        request(
            Method::Post,
            self.item("/v1/executions/", execution_id, "/cancel"),
            RequestBody::Nothing,
            "Failed to cancel execution",
        )
    }

    /// Lists executions.
    pub fn list_executions(&self, agent_id: Option<u128>, limit: usize) -> (r: ClientRequest)
        ensures
            r@ == request_of(
                Method::Get,
                self.base_url@ + "/v1/executions?limit="@ + text::decimal(limit as nat) + (match opt_id(
                    agent_id,
                ) {
                    Some(id) => "&agent_id="@ + id,
                    None => Seq::empty(),
                }),
                RequestBodyView::Nothing,
                "Failed to list executions"@,
            ),
    {
        let id = match agent_id {
            Some(n) => Some(primitives::uuid_text(n)),
            None => None,
        };
        let wanted = match &id {
            Some(t) => Some(t.as_str()),
            None => None,
        };
        request(
            Method::Get,
            self.list_executions_url(limit, wanted),
            RequestBody::Nothing,
            "Failed to list executions",
        )
    }

    /// Follows an execution.
    pub fn stream_logs(&self, execution_id: u128, follow: bool, verbose: bool) -> (r: ClientRequest)
        ensures
            r@ == stream_of(
                self.item_of("/v1/executions/"@, execution_id, "/events"@) + client::stream_query(
                    follow,
                    verbose,
                ),
                "Failed to connect to event stream"@,
                "Failed to stream logs"@,
            ),
    {
        let id = primitives::uuid_text(execution_id);
        stream(
            self.events_url("/v1/executions/", id.as_str(), follow, verbose),
            "Failed to connect to event stream",
            "Failed to stream logs",
        )
    }

    /// Follows an agent.
    pub fn stream_agent_logs(&self, agent_id: u128, follow: bool, verbose: bool) -> (r: ClientRequest)
        ensures
            r@ == stream_of(
                self.item_of("/v1/agents/"@, agent_id, "/events"@) + client::stream_query(
                    follow,
                    verbose,
                ),
                "Failed to connect to agent event stream"@,
                "Failed to stream agent logs"@,
            ),
    {
        let id = primitives::uuid_text(agent_id);
        stream(
            self.events_url("/v1/agents/", id.as_str(), follow, verbose),
            "Failed to connect to agent event stream",
            "Failed to stream agent logs",
        )
    }

    /// Deletes an execution.
    pub fn delete_execution(&self, execution_id: u128) -> (r: ClientRequest)
        ensures
            r@ == request_of(
                Method::Delete,
                self.item_of("/v1/executions/"@, execution_id, ""@),
                RequestBodyView::Nothing,
                "Failed to delete execution"@,
            ),
    {
        request(
            Method::Delete,
            self.item("/v1/executions/", execution_id, ""),
            RequestBody::Nothing,
            "Failed to delete execution",
        )
    }

    /// Lists the agents.
    pub fn list_agents(&self) -> (r: ClientRequest)
        ensures
            r@ == request_of(
                Method::Get,
                self.base_url@ + "/v1/agents"@,
                RequestBodyView::Nothing,
                "Failed to list agents"@,
            ),
    {
        request(
            Method::Get,
            self.url("/v1/agents"),
            RequestBody::Nothing,
            "Failed to list agents",
        )
    }

    /// Asks for an agent.
    pub fn get_agent(&self, agent_id: u128) -> (r: ClientRequest)
        ensures
            r@ == request_of(
                Method::Get,
                self.item_of("/v1/agents/"@, agent_id, ""@),
                RequestBodyView::Nothing,
                "Failed to get agent"@,
            ),
    {
        request(
            Method::Get,
            self.item("/v1/agents/", agent_id, ""),
            RequestBody::Nothing,
            "Failed to get agent",
        )
    }

    /// Deletes an agent.
    pub fn delete_agent(&self, agent_id: u128) -> (r: ClientRequest)
        ensures
            r@ == request_of(
                Method::Delete,
                self.item_of("/v1/agents/"@, agent_id, ""@),
                RequestBodyView::Nothing,
                "Failed to delete agent"@,
            ),
    {
        request(
            Method::Delete,
            self.item("/v1/agents/", agent_id, ""),
            RequestBody::Nothing,
            "Failed to delete agent",
        )
    }

    /// Looks up an agent by its name.
    pub fn lookup_agent(&self, name: &str) -> (r: ClientRequest)
        ensures
            r@ == request_of(
                Method::Get,
                self.base_url@ + "/v1/agents/lookup/"@ + name@ + ""@,
                RequestBodyView::Nothing,
                "Failed to lookup agent"@,
            ),
    {
        request(
            Method::Get,
            self.item_url("/v1/agents/lookup/", name, ""),
            RequestBody::Nothing,
            "Failed to lookup agent",
        )
    }

    /// Deploys a workflow.
    pub fn deploy_workflow_manifest_with_force_and_scope(&self, workflow_yaml: &str, force: bool, scope: Option<&str>) -> (r: ClientRequest)
        ensures
            r@ == request_of(
                Method::Post,
                self.base_url@ + "/v1/workflows"@ + client::query_of(
                    client::flag_param("force=true"@, force) + client::opt_param(
                        "scope="@,
                        text::opt_str_view(scope),
                    ),
                ),
                RequestBodyView::Yaml(workflow_yaml@),
                "Failed to deploy workflow"@,
            ),
    {
        request(
            Method::Post,
            self.deploy_workflow_url(force, scope),
            RequestBody::Yaml(workflow_yaml.to_owned()),
            "Failed to deploy workflow",
        )
    }

    /// Deploys a workflow for the caller alone.
    pub fn deploy_workflow_manifest_with_force(&self, workflow_yaml: &str, force: bool) -> (r: ClientRequest)
        ensures
            r@ == request_of(
                Method::Post,
                self.base_url@ + "/v1/workflows"@ + client::query_of(
                    client::flag_param("force=true"@, force) + client::opt_param(
                        "scope="@,
                        None,
                    ),
                ),
                RequestBodyView::Yaml(workflow_yaml@),
                "Failed to deploy workflow"@,
            ),
    {
        self.deploy_workflow_manifest_with_force_and_scope(workflow_yaml, force, None)
    }

    /// Runs a workflow.
    pub fn run_workflow(&self, name: &str, input: Json, blackboard: Option<Json>, version: Option<&str>) -> (r: ClientRequest)
        ensures
            r@ == request_of(
                Method::Post,
                self.base_url@ + "/v1/workflows/"@ + name@ + "/run"@ + client::query_of(
                    client::opt_param("version="@, text::opt_str_view(version)),
                ),
                RequestBodyView::Json(start_body(input@, "blackboard"@, json_value::opt_content(blackboard))),
                "Failed to run workflow"@,
            ),
    {
        request(
            Method::Post,
            self.run_workflow_url(name, version),
            starting(input, "blackboard", blackboard),
            "Failed to run workflow",
        )
    }

    /// Lists the workflows of the caller.
    pub fn list_workflows(&self) -> (r: ClientRequest)
        ensures
            r@ == request_of(
                Method::Get,
                self.base_url@ + "/v1/workflows"@,
                RequestBodyView::Nothing,
                "Failed to list workflows"@,
            ),
    {
        request(
            Method::Get,
            self.url("/v1/workflows"),
            RequestBody::Nothing,
            "Failed to list workflows",
        )
    }

    /// Lists workflows of a scope, or all that the caller can see.
    pub fn list_workflows_with_scope(&self, scope: Option<&str>, visible: bool) -> (r: ClientRequest)
        ensures
            r@ == request_of(
                Method::Get,
                self.base_url@ + "/v1/workflows"@ + client::query_of(
                    client::opt_param("scope="@, text::opt_str_view(scope)) + client::flag_param(
                        "visible=true"@,
                        visible,
                    ),
                ),
                RequestBodyView::Nothing,
                "Failed to list workflows"@,
            ),
    {
        request(
            Method::Get,
            self.list_workflows_url(scope, visible),
            RequestBody::Nothing,
            "Failed to list workflows",
        )
    }

    /// Moves a workflow to another scope.
    pub fn change_workflow_scope(&self, name_or_id: &str, target_scope: &str) -> (r: ClientRequest)
        ensures
            r@ == request_of(
                Method::Post,
                self.base_url@ + "/v1/workflows/"@ + name_or_id@ + "/scope"@,
                RequestBodyView::Json(
                    JsonView::object().with("target_scope"@, JsonView::Str(target_scope@)),
                ),
                "Failed to change workflow scope"@,
            ),
    {
        request(
            Method::Post,
            self.item_url("/v1/workflows/", name_or_id, "/scope"),
            RequestBody::Json(Json::object().with("target_scope", Json::text(target_scope))),
            "Failed to change workflow scope",
        )
    }

    /// Lists the executions of workflows.
    pub fn list_workflow_executions(&self, limit: usize, workflow_id: Option<u128>) -> (r: ClientRequest)
        ensures
            r@ == request_of(
                Method::Get,
                self.base_url@ + "/v1/workflows/executions?limit="@ + text::decimal(limit as nat) + (match opt_id(
                    workflow_id,
                ) {
                    Some(id) => "&workflow_id="@ + id,
                    None => Seq::empty(),
                }),
                RequestBodyView::Nothing,
                "Failed to list workflow executions"@,
            ),
    {
        let id = match workflow_id {
            Some(n) => Some(primitives::uuid_text(n)),
            None => None,
        };
        let wanted = match &id {
            Some(t) => Some(t.as_str()),
            None => None,
        };
        request(
            Method::Get,
            self.list_workflow_executions_url(limit, wanted),
            RequestBody::Nothing,
            "Failed to list workflow executions",
        )
    }

    /// Asks for a workflow.
    pub fn describe_workflow(&self, name: &str) -> (r: ClientRequest)
        ensures
            r@ == request_of(
                Method::Get,
                self.base_url@ + "/v1/workflows/"@ + name@ + ""@,
                RequestBodyView::Nothing,
                "Failed to describe workflow"@,
            ),
    {
        request(
            Method::Get,
            self.item_url("/v1/workflows/", name, ""),
            RequestBody::Nothing,
            "Failed to describe workflow",
        )
    }

    /// Deletes a workflow.
    pub fn delete_workflow(&self, name: &str) -> (r: ClientRequest)
        ensures
            r@ == request_of(
                Method::Delete,
                self.base_url@ + "/v1/workflows/"@ + name@ + ""@,
                RequestBodyView::Nothing,
                "Failed to delete workflow"@,
            ),
    {
        request(
            Method::Delete,
            self.item_url("/v1/workflows/", name, ""),
            RequestBody::Nothing,
            "Failed to delete workflow",
        )
    }

    /// Asks for the execution of a workflow.
    pub fn get_workflow_execution(&self, execution_id: u128) -> (r: ClientRequest)
        ensures
            r@ == request_of(
                Method::Get,
                self.item_of("/v1/workflows/executions/"@, execution_id, ""@),
                RequestBodyView::Nothing,
                "Failed to get workflow execution"@,
            ),
    {
        request(
            Method::Get,
            self.item("/v1/workflows/executions/", execution_id, ""),
            RequestBody::Nothing,
            "Failed to get workflow execution",
        )
    }

    /// Answers the execution of a workflow that waits for a human.
    pub fn signal_workflow_execution(&self, execution_id: u128, response_text: &str) -> (r: ClientRequest)
        ensures
            r@ == request_of(
                Method::Post,
                self.item_of("/v1/workflows/executions/"@, execution_id, "/signal"@),
                RequestBodyView::Json(
                    JsonView::object().with("response"@, JsonView::Str(response_text@)),
                ),
                "Failed to signal workflow execution"@,
            ),
    {
        request(
            Method::Post,
            self.item("/v1/workflows/executions/", execution_id, "/signal"),
            RequestBody::Json(Json::object().with("response", Json::text(response_text))),
            "Failed to signal workflow execution",
        )
    }

    /// Cancels the execution of a workflow.
    pub fn cancel_workflow_execution(&self, execution_id: u128) -> (r: ClientRequest)
        ensures
            r@ == request_of(
                Method::Post,
                self.item_of("/v1/workflows/executions/"@, execution_id, "/cancel"@),
                RequestBodyView::Nothing,
                "Failed to cancel workflow execution"@,
            ),
    {
        request(
            Method::Post,
            self.item("/v1/workflows/executions/", execution_id, "/cancel"),
            RequestBody::Nothing,
            "Failed to cancel workflow execution",
        )
    }

    /// Removes the execution of a workflow.
    pub fn remove_workflow_execution(&self, execution_id: u128) -> (r: ClientRequest)
        ensures
            r@ == request_of(
                Method::Delete,
                self.item_of("/v1/workflows/executions/"@, execution_id, ""@),
                RequestBodyView::Nothing,
                "Failed to remove workflow execution"@,
            ),
    {
        request(
            Method::Delete,
            self.item("/v1/workflows/executions/", execution_id, ""),
            RequestBody::Nothing,
            "Failed to remove workflow execution",
        )
    }

    /// Follows the log of the execution of a workflow.
    pub fn stream_workflow_logs(&self, execution_id: u128) -> (r: ClientRequest)
        ensures
            r@ == stream_of(
                self.item_of("/v1/workflows/executions/"@, execution_id, "/logs/stream"@),
                "Failed to connect to workflow log stream"@,
                "Failed to stream workflow logs"@,
            ),
    {
        stream(
            self.item("/v1/workflows/executions/", execution_id, "/logs/stream"),
            "Failed to connect to workflow log stream",
            "Failed to stream workflow logs",
        )
    }

    /// Asks for the log of the execution of a workflow.
    pub fn get_workflow_logs(&self, execution_id: u128) -> (r: ClientRequest)
        ensures
            r@ == request_of(
                Method::Get,
                self.item_of("/v1/workflows/executions/"@, execution_id, "/logs"@),
                RequestBodyView::Nothing,
                "Failed to get workflow logs"@,
            ),
    {
        request(
            Method::Get,
            self.item("/v1/workflows/executions/", execution_id, "/logs"),
            RequestBody::Nothing,
            "Failed to get workflow logs",
        )
    }
}

/// A start tells the input, and what is given beside it under its name.
pub proof fn law_starts_tell_the_input(
    input: JsonView,
    name: Seq<char>,
    value: JsonView,
    id: u128,
)
    requires
        name != "input"@,
    ensures
        start_body(input, name, Some(value)).get("input"@) == Some(input),
        start_body(input, name, Some(value)).get(name) == Some(value),
        start_body(input, name, None).get("input"@) == Some(input),
        start_body(input, name, None).get(name) is None,
        opt_id(Some(id)) == Some(primitives::uuid_chars(id)),
        opt_id(None) is None,
{
    broadcast use crate::json::lemma_get_with;

}

/// A request goes to its address by its method with its body, and a stream is read.
pub proof fn law_requests_are_what_is_asked(
    client: DaemonClient,
    method: Method,
    url: Seq<char>,
    body: RequestBodyView,
    failed: Seq<char>,
    not_sent: Seq<char>,
    path: Seq<char>,
    id: u128,
    rest: Seq<char>,
)
    ensures
        request_of(method, url, body, failed).method == method,
        request_of(method, url, body, failed).url == url,
        request_of(method, url, body, failed).body == body,
        request_of(method, url, body, failed).failed == failed,
        request_of(method, url, body, failed).not_sent == failed,
        stream_of(url, not_sent, failed).method == Method::Get,
        stream_of(url, not_sent, failed).url == url,
        stream_of(url, not_sent, failed).body == RequestBodyView::Nothing,
        stream_of(url, not_sent, failed).not_sent == not_sent,
        stream_of(url, not_sent, failed).failed == failed,
        client.item_of(path, id, rest) == client.base_url@ + path + primitives::uuid_chars(id)
            + rest,
{
}

} // verus!
