//! The client of the daemon's API: where each request goes, how an answer is read, and
//! how events are shown.

use crate::json::{Json, JsonView};
use crate::json_value::Details;
use crate::operator_read_models::Moment;
use crate::{json_value, operator_read_models, primitives, text};
use vstd::prelude::*;

verus! {

/// Where the daemon is reached.
pub struct DaemonClient {
    pub base_url: String,
}

/// The address of the daemon at a host and a port. A host that names no scheme is
/// reached by `http`.
pub open spec fn base_url_of(host: Seq<char>, port: u16) -> Seq<char> {
    if "http://"@.is_prefix_of(host) || "https://"@.is_prefix_of(host) {
        host + ":"@ + text::decimal(port as nat)
    } else {
        "http://"@ + host + ":"@ + text::decimal(port as nat)
    }
}

/// Query parameters after a question mark, with `&` between them; nothing where there
/// are none.
pub open spec fn query_of(params: Seq<Seq<char>>) -> Seq<char>
    decreases params.len(),
{
    if params.len() == 0 {
        Seq::empty()
    } else if params.len() == 1 {
        "?"@ + params[0]
    } else {
        query_of(params.drop_last()) + "&"@ + params.last()
    }
}

fn query_text(params: &Vec<String>) -> (r: String)
    ensures
        r@ == query_of(text::views(params@)),
{
    let ghost all = text::views(params@);
    let mut out = String::new();
    let mut i: usize = 0;
    while i < params.len()
        invariant
            i <= params@.len(),
            all == text::views(params@),
            out@ == query_of(all.take(i as int)),
        decreases params@.len() - i,
    {
        assert(all.take(i + 1).drop_last() =~= all.take(i as int));
        assert(all.take(i + 1).last() == params@[i as int]@);
        assert(all.take(i + 1)[0] == all[0]);
        if i == 0 {
            out = "?".to_owned().concat(params[i].as_str());
        } else {
            out = out.concat("&").concat(params[i].as_str());
        }
        i += 1;
    }
    assert(all.take(params@.len() as int) =~= all);
    out
}

/// An optional query parameter.
pub open spec fn opt_param(name: Seq<char>, value: Option<Seq<char>>) -> Seq<Seq<char>> {
    match value {
        Some(v) => seq![name + v],
        None => Seq::empty(),
    }
}

/// A query parameter that is there or not.
pub open spec fn flag_param(param: Seq<char>, set: bool) -> Seq<Seq<char>> {
    if set {
        seq![param]
    } else {
        Seq::empty()
    }
}

/// The parameters of a stream of events.
pub open spec fn stream_query(follow: bool, verbose: bool) -> Seq<char> {
    (if follow {
        "?follow=true"@
    } else {
        "?follow=false"@
    }) + (if verbose {
        "&verbose=true"@
    } else {
        Seq::empty()
    })
}

/// An address, with what follows where a value is given.
fn narrowed(url: String, name: &str, value: Option<&str>) -> (r: String)
    ensures
        r@ == url@ + (match text::opt_str_view(value) {
            Some(v) => name@ + v,
            None => Seq::empty(),
        }),
{
    match value {
        Some(v) => url.concat(name.to_owned().concat(v).as_str()),
        None => {
            assert(url@ + Seq::<char>::empty() =~= url@);
            url
        },
    }
}

/// An address, with the version that is asked for.
fn versioned(url: String, version: Option<&str>) -> (r: String)
    ensures
        r@ == url@ + query_of(opt_param("version="@, text::opt_str_view(version))),
{
    match version {
        Some(v) => {
            let param = "version=".to_owned().concat(v);
            url.concat("?".to_owned().concat(param.as_str()).as_str())
        },
        None => narrowed(url, "", None),
    }
}

impl DaemonClient {
    /// The client of the daemon at a host and a port.
    pub fn new(host: &str, port: u16) -> (r: DaemonClient)
        ensures
            r.base_url@ == base_url_of(host@, port),
    {
        let port_text = text::u64_text(port as u64);
        let base_url = if text::starts_with(host, "http://") || text::starts_with(
            host,
            "https://",
        ) {
            host.to_owned().concat(":").concat(port_text.as_str())
        } else {
            "http://".to_owned().concat(host).concat(":").concat(port_text.as_str())
        };
        DaemonClient { base_url }
    }

    /// The address of a path.
    pub fn url(&self, path: &str) -> (r: String)
        ensures
            r@ == self.base_url@ + path@,
    {
        self.base_url.clone().concat(path)
    }

    /// The address of something that is named under a path.
    pub fn item_url(&self, path: &str, name: &str, rest: &str) -> (r: String)
        ensures
            r@ == self.base_url@ + path@ + name@ + rest@,
    {
        self.base_url.clone().concat(path).concat(name).concat(rest)
    }

    /// Where an agent is deployed.
    pub fn deploy_agent_url(&self, force: bool) -> (r: String)
        ensures
            r@ == self.base_url@ + (if force {
                "/v1/agents?force=true"@
            } else {
                "/v1/agents"@
            }),
    {
        if force {
            self.url("/v1/agents?force=true")
        } else {
            self.url("/v1/agents")
        }
    }

    /// Where an agent is executed.
    pub fn execute_agent_url(&self, agent_id: &str, version: Option<&str>) -> (r: String)
        ensures
            r@ == self.base_url@ + "/v1/agents/"@ + agent_id@ + "/execute"@ + query_of(
                opt_param("version="@, text::opt_str_view(version)),
            ),
    {
        versioned(self.item_url("/v1/agents/", agent_id, "/execute"), version)
    }

    /// Where executions are listed.
    pub fn list_executions_url(&self, limit: usize, agent_id: Option<&str>) -> (r: String)
        ensures
            r@ == self.base_url@ + "/v1/executions?limit="@ + text::decimal(limit as nat) + (
            match text::opt_str_view(agent_id) {
                Some(id) => "&agent_id="@ + id,
                None => Seq::empty(),
            }),
    {
        let url = self.url("/v1/executions?limit=").concat(
            text::u64_text(limit as u64).as_str(),
        );
        narrowed(url, "&agent_id=", agent_id)
    }

    /// Where the executions of workflows are listed.
    pub fn list_workflow_executions_url(&self, limit: usize, workflow_id: Option<&str>) -> (r:
        String)
        ensures
            r@ == self.base_url@ + "/v1/workflows/executions?limit="@ + text::decimal(limit as nat)
                + (match text::opt_str_view(workflow_id) {
                Some(id) => "&workflow_id="@ + id,
                None => Seq::empty(),
            }),
    {
        let url = self.url("/v1/workflows/executions?limit=").concat(
            text::u64_text(limit as u64).as_str(),
        );
        narrowed(url, "&workflow_id=", workflow_id)
    }

    /// Where the events of an execution, or of an agent, are streamed from.
    pub fn events_url(&self, path: &str, id: &str, follow: bool, verbose: bool) -> (r: String)
        ensures
            r@ == self.base_url@ + path@ + id@ + "/events"@ + stream_query(follow, verbose),
    {
        let url = self.item_url(path, id, "/events");
        let query = if follow { "?follow=true" } else { "?follow=false" };
        let query = if verbose {
            query.to_owned().concat("&verbose=true")
        } else {
            assert(query@ + Seq::<char>::empty() =~= query@);
            query.to_owned()
        };
        url.concat(query.as_str())
    }

    /// Where a workflow is deployed.
    pub fn deploy_workflow_url(&self, force: bool, scope: Option<&str>) -> (r: String)
        ensures
            r@ == self.base_url@ + "/v1/workflows"@ + query_of(
                flag_param("force=true"@, force) + opt_param(
                    "scope="@,
                    text::opt_str_view(scope),
                ),
            ),
    {
        let mut params: Vec<String> = Vec::new();
        if force {
            params.push("force=true".to_owned());
        }
        assert(text::views(params@) =~= flag_param("force=true"@, force));
        if let Some(s) = scope {
            params.push("scope=".to_owned().concat(s));
        }
        assert(text::views(params@) =~= flag_param("force=true"@, force) + opt_param(
            "scope="@,
            text::opt_str_view(scope),
        ));
        self.url("/v1/workflows").concat(query_text(&params).as_str())
    }

    /// Where workflows are listed.
    pub fn list_workflows_url(&self, scope: Option<&str>, visible: bool) -> (r: String)
        ensures
            r@ == self.base_url@ + "/v1/workflows"@ + query_of(
                opt_param("scope="@, text::opt_str_view(scope)) + flag_param(
                    "visible=true"@,
                    visible,
                ),
            ),
    {
        let mut params: Vec<String> = Vec::new();
        if let Some(s) = scope {
            params.push("scope=".to_owned().concat(s));
        }
        assert(text::views(params@) =~= opt_param("scope="@, text::opt_str_view(scope)));
        if visible {
            params.push("visible=true".to_owned());
        }
        assert(text::views(params@) =~= opt_param("scope="@, text::opt_str_view(scope))
            + flag_param("visible=true"@, visible));
        self.url("/v1/workflows").concat(query_text(&params).as_str())
    }

    /// Where a workflow is run.
    pub fn run_workflow_url(&self, name: &str, version: Option<&str>) -> (r: String)
        ensures
            r@ == self.base_url@ + "/v1/workflows/"@ + name@ + "/run"@ + query_of(
                opt_param("version="@, text::opt_str_view(version)),
            ),
    {
        versioned(self.item_url("/v1/workflows/", name, "/run"), version)
    }
}

/// Reads the status of an answer: any but a success is an error that says what failed,
/// and what the daemon answered.
pub fn check_status(status: u16, failed: &str, body: &str) -> (r: Result<(), String>)
    ensures
        if 200 <= status <= 299 {
            r is Ok
        } else {
            r matches Err(e) && e@ == failed@ + ": "@ + body@
        },
{
    if 200 <= status && status <= 299 {
        Ok(())
    } else {
        Err(failed.to_owned().concat(": ").concat(body))
    }
}

/// Reads the status of an answer to a lookup, where what is not found is no error: it
/// says whether something was found.
pub fn check_lookup(status: u16, failed: &str, body: &str) -> (r: Result<bool, String>)
    ensures
        if status == 404 {
            r == Ok::<bool, String>(false)
        } else if 200 <= status <= 299 {
            r == Ok::<bool, String>(true)
        } else {
            r matches Err(e) && e@ == failed@ + ": "@ + body@
        },
{
    if status == 404 {
        return Ok(false);
    }
    match check_status(status, failed, body) {
        Ok(_) => Ok(true),
        Err(e) => Err(e),
    }
}

/// The answer to a request for workflows, in either of its forms.
pub enum WorkflowListResponse {
    Wrapped { workflows: Vec<Json> },
    Bare(Vec<Json>),
}

impl WorkflowListResponse {
    /// The workflows that the answer lists.
    pub open spec fn listed(&self) -> Seq<JsonView> {
        match self {
            WorkflowListResponse::Wrapped { workflows } => crate::json::json_views(workflows@),
            WorkflowListResponse::Bare(workflows) => crate::json::json_views(workflows@),
        }
    }

    /// Whether an answer is what a value says: an object with an array named
    /// `workflows`, or an array; none where the value is neither.
    pub open spec fn says(answer: Option<WorkflowListResponse>, value: JsonView) -> bool {
        match value.get("workflows"@) {
            Some(JsonView::Arr(items)) => answer matches Some(w) && w is Wrapped && w.listed()
                == items,
            _ => match value {
                JsonView::Arr(items) => answer matches Some(w) && w is Bare && w.listed()
                    == items,
                _ => answer is None,
            },
        }
    }

    /// The answer that came, where it is one.
    pub fn read(body: &[u8]) -> (r: Option<WorkflowListResponse>)
        ensures
            match json_value::bytes_hold(body@) {
                Some(value) => Self::says(r, value),
                None => r is None,
            },
    {
        match json_value::read_bytes(body) {
            Some(value) => Self::from_json(&value),
            None => None,
        }
    }

    /// The answer that a value is: an object with an array named `workflows`, or an
    /// array.
    pub fn from_json(value: &Json) -> (r: Option<WorkflowListResponse>)
        ensures
            Self::says(r, value@),
    {
        if let Some(member) = value.get("workflows") {
            if let Some(items) = member.as_array() {
                return Some(WorkflowListResponse::Wrapped { workflows: copy_all(items) });
            }
        }
        match value.as_array() {
            Some(items) => Some(WorkflowListResponse::Bare(copy_all(items))),
            None => None,
        }
    }

    /// The workflows that the answer lists.
    pub fn into_workflows(self) -> (r: Vec<Json>)
        ensures
            crate::json::json_views(r@) == self.listed(),
    {
        match self {
            WorkflowListResponse::Wrapped { workflows } => workflows,
            WorkflowListResponse::Bare(workflows) => workflows,
        }
    }
}

fn copy_all(items: &Vec<Json>) -> (r: Vec<Json>)
    ensures
        crate::json::json_views(r@) == crate::json::json_views(items@),
{
    let mut out: Vec<Json> = Vec::new();
    let mut i: usize = 0;
    while i < items.len()
        invariant
            i <= items@.len(),
            out@.len() == i,
            forall|k: int| 0 <= k < i ==> #[trigger] out@[k]@ == items@[k]@,
        decreases items@.len() - i,
    {
        out.push(items[i].copy());
        i += 1;
    }
    assert(crate::json::json_views(out@) =~= crate::json::json_views(items@));
    out
}

/// The text of a workflow's identifier, where the workflow has the given name.
pub open spec fn id_text_of(workflow: JsonView, name: Seq<char>) -> Option<Seq<char>> {
    if workflow.get_str("name"@) == Some(name) {
        workflow.get_str("id"@)
    } else {
        None
    }
}

/// The text of a workflow's identifier, where the workflow has the given name.
pub fn workflow_id_text<'a>(workflow: &'a Json, name: &str) -> (r: Option<&'a str>)
    ensures
        text::opt_str_view(r) == id_text_of(workflow@, name@),
{
    if text::opt_eq(workflow.get_str("name"), name) {
        workflow.get_str("id")
    } else {
        None
    }
}

/// The identifier of the first workflow that has the given name and an identifier.
pub open spec fn first_workflow_id(workflows: Seq<JsonView>, name: Seq<char>) -> Option<u128>
    decreases workflows.len(),
{
    if workflows.len() == 0 {
        None
    } else {
        let id = match id_text_of(workflows[0], name) {
            Some(t) => primitives::parsed_uuid(t),
            None => None,
        };
        if id is Some {
            id
        } else {
            first_workflow_id(workflows.skip(1), name)
        }
    }
}

/// The identifier of the first workflow that has the given name and an identifier.
pub fn lookup_workflow(workflows: &Vec<Json>, name: &str) -> (r: Option<u128>)
    ensures
        r == first_workflow_id(crate::json::json_views(workflows@), name@),
{
    let ghost all = crate::json::json_views(workflows@);
    let mut i: usize = 0;
    assert(all.skip(0) =~= all);
    while i < workflows.len()
        invariant
            i <= workflows@.len(),
            all == crate::json::json_views(workflows@),
            first_workflow_id(all, name@) == first_workflow_id(all.skip(i as int), name@),
        decreases workflows@.len() - i,
    {
        assert(all.skip(i as int)[0] == workflows@[i as int]@);
        assert(all.skip(i as int).skip(1) =~= all.skip(i + 1));
        if let Some(id_text) = workflow_id_text(&workflows[i], name) {
            if let Some(id) = primitives::parse_uuid(id_text) {
                return Some(id);
            }
        }
        i += 1;
    }
    None
}

/// The identifier that an answer of the daemon tells under a name.
pub open spec fn told_id_spec(answer: JsonView, name: Seq<char>) -> Option<u128> {
    match answer.get_str(name) {
        Some(t) => primitives::parsed_uuid(t),
        None => None,
    }
}

/// The identifier that an answer of the daemon tells under a name.
pub fn told_id(answer: &Json, name: &str) -> (r: Option<u128>)
    ensures
        r == told_id_spec(answer@, name@),
{
    match answer.get_str(name) {
        Some(t) => primitives::parse_uuid(t),
        None => None,
    }
}

/// The identifier that an answer tells under a name, as the answer came.
pub fn read_told_id(body: &[u8], name: &str) -> (r: Option<u128>)
    ensures
        r == (match json_value::bytes_hold(body@) {
            Some(answer) => told_id_spec(answer, name@),
            None => None,
        }),
{
    match json_value::read_bytes(body) {
        Some(answer) => told_id(&answer, name),
        None => None,
    }
}

/// The manifest that an answer tells, as the answer came.
pub fn read_manifest(body: &[u8]) -> (r: Option<Json>)
    ensures
        json_value::opt_content(r) == (match json_value::bytes_hold(body@) {
            Some(answer) => answer.get("manifest"@),
            None => None,
        }),
{
    match json_value::read_bytes(body) {
        Some(answer) => match answer.get("manifest") {
            Some(manifest) => Some(manifest.copy()),
            None => None,
        },
        None => None,
    }
}

/// What an execution of an agent is, as the daemon tells it.
pub struct ExecutionInfo {
    pub id: u128,
    pub agent_id: u128,
    pub status: String,
    pub started_at: Option<String>,
    pub ended_at: Option<String>,
}

/// What an agent is, as the daemon tells it.
pub struct AgentInfo {
    pub id: u128,
    pub name: String,
    pub version: String,
    pub description: String,
    pub status: String,
}

/// What an execution of a workflow is, as the daemon tells it.
pub struct WorkflowExecutionInfo {
    pub execution_id: u128,
    pub workflow_id: u128,
    pub workflow_name: Option<String>,
    pub status: String,
    pub current_state: Option<String>,
    pub started_at: Option<String>,
    pub last_transition_at: Option<String>,
    pub temporal_workflow_id: Option<String>,
    pub temporal_run_id: Option<String>,
    pub blackboard: Option<Json>,
    pub state_outputs: Option<Json>,
}

/// An entry in the log of a workflow's execution.
pub struct WorkflowLogEvent {
    pub execution_id: String,
    pub workflow_id: Option<String>,
    pub workflow_name: Option<String>,
    pub event_type: String,
    pub message: String,
    pub state_name: Option<String>,
    pub iteration_number: Option<u8>,
    pub timestamp: String,
    pub details: Details,
    pub temporal_workflow_id: Option<String>,
    pub temporal_run_id: Option<String>,
}

/// Which entries of a log are shown, and how much of each.
#[derive(Clone, Copy, PartialEq, Eq, Structural, Debug)]
pub struct WorkflowLogOptions {
    pub transitions_only: bool,
    pub errors_only: bool,
    pub verbose: bool,
}

/// An event, as the daemon tells it.
pub struct CorrelatedActivityEvent {
    pub event_type: String,
    pub category: String,
    pub timestamp: Moment,
    pub message: String,
    pub details: Details,
}

/// The payloads of a piece of a stream: what follows `data: ` in each line that begins
/// with it.
pub open spec fn payloads_of(lines: Seq<Seq<char>>) -> Seq<Seq<char>>
    decreases lines.len(),
{
    if lines.len() == 0 {
        Seq::empty()
    } else {
        let before = payloads_of(lines.drop_last());
        if "data: "@.is_prefix_of(lines.last()) {
            before.push(lines.last().skip("data: "@.len() as int))
        } else {
            before
        }
    }
}

/// The payloads of a piece of a stream, as it came.
pub fn data_payloads(chunk: &[u8]) -> (r: Vec<String>)
    ensures
        text::views(r@) == payloads_of(text::lines_of(json_value::lossy_chars(chunk@))),
{
    text_payloads(json_value::lossy_text(chunk).as_str())
}

/// The payloads of a piece of a stream, once it is taken for a text.
pub fn text_payloads(chunk: &str) -> (r: Vec<String>)
    ensures
        text::views(r@) == payloads_of(text::lines_of(chunk@)),
{
    let lines = text::lines(chunk);
    let ghost all = text::views(lines@);
    let mut out: Vec<String> = Vec::new();
    let mut i: usize = 0;
    assert(text::views(out@) =~= payloads_of(all.take(0)));
    while i < lines.len()
        invariant
            i <= lines@.len(),
            all == text::views(lines@),
            text::views(out@) == payloads_of(all.take(i as int)),
        decreases lines@.len() - i,
    {
        assert(all.take(i + 1).drop_last() =~= all.take(i as int));
        assert(all.take(i + 1).last() == lines@[i as int]@);
        if let Some(payload) = text::strip_prefix(lines[i].as_str(), "data: ") {
            let ghost before = out@;
            let ghost added = payload@;
            out.push(payload);
            assert(text::views(out@) =~= text::views(before).push(added));
        }
        i += 1;
    }
    assert(all.take(lines@.len() as int) =~= all);
    out
}

/// Whether a character is an ASCII capital letter.
pub open spec fn is_capital(c: char) -> bool {
    'A' <= c && c <= 'Z'
}

/// The form of a type of event in small letters and underscores: a capital letter
/// becomes small, and gets an underscore before it unless it comes first.
pub open spec fn canonical(event_type: Seq<char>) -> Seq<char>
    decreases event_type.len(),
{
    if event_type.len() == 0 {
        Seq::empty()
    } else {
        let before = canonical(event_type.drop_last());
        let c = event_type.last();
        if !is_capital(c) {
            before.push(c)
        } else if event_type.len() == 1 {
            before.push(text::lower_char(c))
        } else {
            before.push('_').push(text::lower_char(c))
        }
    }
}

/// The form of a type of event in small letters and underscores.
pub fn canonical_event_type(event_type: &str) -> (r: String)
    ensures
        r@ == canonical(event_type@),
{
    let v = text::chars_of(event_type);
    let mut out = String::new();
    let mut i: usize = 0;
    while i < v.len()
        invariant
            i <= v@.len(),
            out@ == canonical(v@.take(i as int)),
        decreases v@.len() - i,
    {
        let c = v[i];
        assert(v@.take(i + 1).drop_last() =~= v@.take(i as int));
        assert(v@.take(i + 1).last() == c);
        if 'A' <= c && c <= 'Z' {
            if i != 0 {
                out.push('_');
            }
            out.push(((c as u8) + 32) as char);
        } else {
            out.push(c);
        }
        i += 1;
    }
    assert(v@.take(v@.len() as int) =~= v@);
    out
}

/// Whether a canonical type tells that a workflow moved from state to state.
pub open spec fn is_transition(t: Seq<char>) -> bool {
    t == "workflow_execution_started"@ || t == "workflow_state_entered"@ || t
        == "workflow_state_exited"@ || t == "workflow_execution_completed"@ || t
        == "workflow_execution_failed"@ || t == "workflow_execution_cancelled"@
}

/// Whether an entry tells that a workflow moved from state to state.
pub fn is_transition_workflow_event(event: &WorkflowLogEvent) -> (r: bool)
    ensures
        r == is_transition(canonical(event.event_type@)),
{
    let t = canonical_event_type(event.event_type.as_str());
    let t = t.as_str();
    text::str_eq(t, "workflow_execution_started") || text::str_eq(t, "workflow_state_entered")
        || text::str_eq(t, "workflow_state_exited") || text::str_eq(
        t,
        "workflow_execution_completed",
    ) || text::str_eq(t, "workflow_execution_failed") || text::str_eq(
        t,
        "workflow_execution_cancelled",
    )
}

/// Whether a canonical type tells of a failure of a workflow.
pub open spec fn is_workflow_failure(t: Seq<char>) -> bool {
    t == "workflow_iteration_failed"@ || t == "workflow_execution_failed"@
}

/// Whether an entry tells of a failure.
pub fn is_error_workflow_event(event: &WorkflowLogEvent) -> (r: bool)
    ensures
        r == is_workflow_failure(canonical(event.event_type@)),
{
    let t = canonical_event_type(event.event_type.as_str());
    text::str_eq(t.as_str(), "workflow_iteration_failed") || text::str_eq(
        t.as_str(),
        "workflow_execution_failed",
    )
}

/// Whether an entry is left out.
pub open spec fn skipped(event: WorkflowLogEvent, options: WorkflowLogOptions) -> bool {
    (options.transitions_only && !is_transition(canonical(event.event_type@))) || (
    options.errors_only && !is_workflow_failure(canonical(event.event_type@)))
}

/// Whether an entry is left out.
pub fn should_skip_workflow_event(event: &WorkflowLogEvent, options: WorkflowLogOptions) -> (r:
    bool)
    ensures
        r == skipped(*event, options),
{
    (options.transitions_only && !is_transition_workflow_event(event)) || (options.errors_only
        && !is_error_workflow_event(event))
}

/// The entries of a log that are shown, in their order.
pub fn get_workflow_logs(events: Vec<WorkflowLogEvent>, options: WorkflowLogOptions) -> (r: Vec<
    WorkflowLogEvent,
>)
    ensures
        r@ == events@.filter(|e: WorkflowLogEvent| !skipped(e, options)),
{
    let ghost all = events@;
    let ghost keep = |e: WorkflowLogEvent| !skipped(e, options);
    let mut rest = events;
    let mut backwards: Vec<WorkflowLogEvent> = Vec::new();
    while rest.len() > 0
        invariant
            all =~= rest@ + backwards@.reverse(),
        decreases rest@.len(),
    {
        let ghost before = rest@;
        if let Some(last) = rest.pop() {
            backwards.push(last);
            assert(before =~= rest@.push(last));
        }
    }
    assert(all =~= backwards@.reverse());
    let mut out: Vec<WorkflowLogEvent> = Vec::new();
    let ghost mut taken: int = 0;
    assert(all.take(0).filter(keep) =~= Seq::empty()) by {
        reveal(Seq::filter);
    }
    while backwards.len() > 0
        invariant
            0 <= taken <= all.len(),
            keep == (|e: WorkflowLogEvent| !skipped(e, options)),
            all.skip(taken) =~= backwards@.reverse(),
            out@ == all.take(taken).filter(keep),
        decreases backwards@.len(),
    {
        let ghost before = backwards@;
        if let Some(event) = backwards.pop() {
            proof {
                assert(all.skip(taken).len() == before.reverse().len());
                assert(before.reverse()[0] == before.last());
                assert(all.skip(taken)[0] == event);
                assert(all.take(taken + 1).drop_last() =~= all.take(taken));
                assert(all.take(taken + 1).last() == event);
                assert(backwards@.reverse() =~= before.reverse().skip(1));
                assert(all.skip(taken).skip(1) =~= all.skip(taken + 1));
                reveal(Seq::filter);
            }
            if !should_skip_workflow_event(&event, options) {
                out.push(event);
            }
            proof {
                taken = taken + 1;
            }
        }
    }
    assert(all.take(taken) =~= all);
    out
}

/// A line that names something, where it is there.
pub open spec fn labelled(label: Seq<char>, value: Option<Seq<char>>) -> Seq<char> {
    match value {
        Some(v) => label + v + "\n"@,
        None => Seq::empty(),
    }
}

/// Lines, each set in by four blanks.
pub open spec fn indented(lines: Seq<Seq<char>>) -> Seq<char>
    decreases lines.len(),
{
    if lines.len() == 0 {
        Seq::empty()
    } else {
        indented(lines.drop_last()) + "    "@ + lines.last() + "\n"@
    }
}

/// The view of an optional small number, in decimal notation.
pub open spec fn opt_number(n: Option<u8>) -> Option<Seq<char>> {
    match n {
        Some(k) => Some(text::decimal(k as nat)),
        None => None,
    }
}

/// How an entry is shown, given how its details are laid out.
pub open spec fn entry_shown(
    event: WorkflowLogEvent,
    verbose: bool,
    rendered: Seq<char>,
) -> Seq<char> {
    let head = "["@ + event.timestamp@ + "] "@ + event.message@ + (
    match opt_number(event.iteration_number) {
        Some(n) => " (iteration "@ + n + ")"@,
        None => Seq::empty(),
    }) + "\n"@;
    if !verbose {
        head
    } else {
        head + labelled("  Workflow:   "@, text::opt_view(event.workflow_name)) + labelled(
            "  Workflow ID: "@,
            text::opt_view(event.workflow_id),
        ) + labelled("  Event:      "@, Some(canonical(event.event_type@))) + labelled(
            "  State:      "@,
            text::opt_view(event.state_name),
        ) + labelled("  Iteration:  "@, opt_number(event.iteration_number)) + labelled(
            "  Temporal workflow: "@,
            text::opt_view(event.temporal_workflow_id),
        ) + labelled("  Temporal run:      "@, text::opt_view(event.temporal_run_id)) + (
        if event.details@ is Null {
            Seq::empty()
        } else {
            "  Details:\n"@ + indented(text::lines_of(rendered))
        })
    }
}

fn label_line(label: &str, value: Option<&str>) -> (r: String)
    ensures
        r@ == labelled(label@, text::opt_str_view(value)),
{
    match value {
        Some(v) => label.to_owned().concat(v).concat("\n"),
        None => String::new(),
    }
}

fn as_opt_str(value: &Option<String>) -> (r: Option<&str>)
    ensures
        text::opt_str_view(r) == text::opt_view(*value),
{
    match value {
        Some(v) => Some(v.as_str()),
        None => None,
    }
}

fn indent_lines(text_block: &str) -> (r: String)
    ensures
        r@ == indented(text::lines_of(text_block@)),
{
    let lines = text::lines(text_block);
    let ghost all = text::views(lines@);
    let mut out = String::new();
    let mut i: usize = 0;
    while i < lines.len()
        invariant
            i <= lines@.len(),
            all == text::views(lines@),
            out@ == indented(all.take(i as int)),
        decreases lines@.len() - i,
    {
        assert(all.take(i + 1).drop_last() =~= all.take(i as int));
        assert(all.take(i + 1).last() == lines@[i as int]@);
        out = out.concat("    ").concat(lines[i].as_str()).concat("\n");
        i += 1;
    }
    assert(all.take(lines@.len() as int) =~= all);
    out
}

/// How an entry is shown, given how its details are laid out.
pub fn format_entry(event: &WorkflowLogEvent, verbose: bool, rendered: &str) -> (r: String)
    ensures
        r@ == entry_shown(*event, verbose, rendered@),
{
    let iteration = match event.iteration_number {
        Some(n) => Some(text::u64_text(n as u64)),
        None => None,
    };
    let suffix = match &iteration {
        Some(n) => " (iteration ".to_owned().concat(n.as_str()).concat(")"),
        None => String::new(),
    };
    let head = "[".to_owned().concat(event.timestamp.as_str()).concat("] ").concat(
        event.message.as_str(),
    ).concat(suffix.as_str()).concat("\n");
    if !verbose {
        return head;
    }
    let kind = canonical_event_type(event.event_type.as_str());
    let details = match event.details.held() {
        Json::Null => String::new(),
        _ => "  Details:\n".to_owned().concat(indent_lines(rendered).as_str()),
    };
    head.concat(label_line("  Workflow:   ", as_opt_str(&event.workflow_name)).as_str()).concat(
        label_line("  Workflow ID: ", as_opt_str(&event.workflow_id)).as_str(),
    ).concat(label_line("  Event:      ", Some(kind.as_str())).as_str()).concat(
        label_line("  State:      ", as_opt_str(&event.state_name)).as_str(),
    ).concat(label_line("  Iteration:  ", as_opt_str(&iteration)).as_str()).concat(
        label_line("  Temporal workflow: ", as_opt_str(&event.temporal_workflow_id)).as_str(),
    ).concat(label_line("  Temporal run:      ", as_opt_str(&event.temporal_run_id)).as_str()).concat(
        details.as_str(),
    )
}

/// How an entry is shown: with its own details, where everything is told.
pub fn format_workflow_log_event(event: &WorkflowLogEvent, verbose: bool) -> (r: String)
    ensures
        r@ == entry_shown(*event, verbose, json_value::pretty_json(event.details@)),
{
    format_entry(event, verbose, event.details.layout())
}

/// What is told of an entry while a stream is followed: how it is shown, without the
/// blanks and line ends behind it.
pub fn streamed_entry(event: &WorkflowLogEvent, verbose: bool) -> (r: String)
    ensures
        r@ == text::trimmed_end(
            entry_shown(*event, verbose, json_value::pretty_json(event.details@)),
        ),
{
    text::trim_end(format_workflow_log_event(event, verbose).as_str())
}

/// Whether a canonical type tells of a failure.
pub open spec fn is_failure(t: Seq<char>) -> bool {
    ||| t == "iteration_failed"@
    ||| t == "execution_failed"@
    ||| t == "execution_timed_out"@
    ||| t == "workflow_iteration_failed"@
    ||| t == "workflow_execution_failed"@
    ||| t == "volume_mount_failed"@
    ||| t == "volume_quota_exceeded"@
    ||| t == "filesystem_policy_violation"@
    ||| t == "path_traversal_blocked"@
    ||| t == "quota_exceeded"@
    ||| t == "unauthorized_volume_access"@
    ||| t == "policy_violation"@
    ||| t == "invocation_failed"@
    ||| t == "policy_violation_blocked"@
    ||| t == "server_failed"@
    ||| t == "server_unhealthy"@
    ||| t == "container_run_failed"@
    ||| t == "image_pull_failed"@
    ||| t == "classification_failed"@
    ||| t == "stimulus_rejected"@
    ||| t == "secret_access_denied"@
    ||| t == "token_validation_failed"@
    ||| t == "jwks_cache_refresh_failed"@
    ||| t == "agent_failed"@
}

/// Whether an event tells of a failure.
pub fn is_error_event(event: &CorrelatedActivityEvent) -> (r: bool)
    ensures
        r == is_failure(canonical(event.event_type@)),
{
    let t = canonical_event_type(event.event_type.as_str());
    let t = t.as_str();
    text::str_eq(t, "iteration_failed") || text::str_eq(t, "execution_failed") || text::str_eq(
        t,
        "execution_timed_out",
    ) || text::str_eq(t, "workflow_iteration_failed") || text::str_eq(
        t,
        "workflow_execution_failed",
    ) || text::str_eq(t, "volume_mount_failed") || text::str_eq(t, "volume_quota_exceeded")
        || text::str_eq(t, "filesystem_policy_violation") || text::str_eq(
        t,
        "path_traversal_blocked",
    ) || text::str_eq(t, "quota_exceeded") || text::str_eq(t, "unauthorized_volume_access")
        || text::str_eq(t, "policy_violation") || text::str_eq(t, "invocation_failed")
        || text::str_eq(t, "policy_violation_blocked") || text::str_eq(t, "server_failed")
        || text::str_eq(t, "server_unhealthy") || text::str_eq(t, "container_run_failed")
        || text::str_eq(t, "image_pull_failed") || text::str_eq(t, "classification_failed")
        || text::str_eq(t, "stimulus_rejected") || text::str_eq(t, "secret_access_denied")
        || text::str_eq(t, "token_validation_failed") || text::str_eq(
        t,
        "jwks_cache_refresh_failed",
    ) || text::str_eq(t, "agent_failed")
}

/// What is said of an iteration that failed: the message of its error, or the error, or
/// the reason, or the event's own message, whichever is there first.
pub open spec fn failure_message(details: JsonView, message: Seq<char>) -> Seq<char> {
    let error = details.get("error"@);
    let inner = match error {
        Some(e) => e.get_str("message"@),
        None => None,
    };
    let plain = details.get_str("error"@);
    let reason = details.get_str("reason"@);
    if inner is Some {
        inner->Some_0
    } else if plain is Some {
        plain->Some_0
    } else if reason is Some {
        reason->Some_0
    } else if message.len() > 0 {
        message
    } else {
        "Unknown error"@
    }
}

/// What is said of an iteration that failed.
pub fn extract_iteration_error_message(event: &CorrelatedActivityEvent) -> (r: String)
    ensures
        r@ == failure_message(event.details@, event.message@),
{
    let details = event.details.held();
    if let Some(error) = details.get("error") {
        if let Some(message) = error.get_str("message") {
            return message.to_owned();
        }
    }
    if let Some(message) = details.get_str("error") {
        return message.to_owned();
    }
    if let Some(message) = details.get_str("reason") {
        return message.to_owned();
    }
    if !event.message.as_str().is_empty() {
        return event.message.clone();
    }
    "Unknown error".to_owned()
}

/// How a piece of text is painted.
#[derive(Clone, Copy, PartialEq, Eq, Structural, Debug)]
pub enum Style {
    Plain,
    Dimmed,
    Red,
    RedBold,
    MagentaBold,
    Cyan,
    Purple,
    PurpleBold,
    GreenBold,
}

/// A piece of text, and how it is painted.
pub struct Span {
    pub style: Style,
    pub text: String,
}

/// The mathematical content of a piece of text.
pub struct SpanView {
    pub style: Style,
    pub text: Seq<char>,
}

impl View for Span {
    type V = SpanView;

    open spec fn view(&self) -> SpanView {
        SpanView { style: self.style, text: self.text@ }
    }
}

/// A piece of text, and how it is painted.
pub open spec fn span(style: Style, text: Seq<char>) -> SpanView {
    SpanView { style, text }
}

/// The views of pieces of text.
pub open spec fn span_views(spans: Seq<Span>) -> Seq<SpanView> {
    spans.map_values(|s: Span| s@)
}

/// A member of an event's details, or something else where there is no such text.
pub open spec fn detail_or(details: JsonView, key: Seq<char>, otherwise: Seq<char>) -> Seq<char> {
    match details.get_str(key) {
        Some(t) => t,
        None => otherwise,
    }
}

fn detail<'a>(details: &'a Json, key: &str, otherwise: &'a str) -> (r: &'a str)
    ensures
        r@ == detail_or(details@, key@, otherwise@),
{
    match details.get_str(key) {
        Some(t) => t,
        None => otherwise,
    }
}

/// How the details of an event are shown where everything is told, given how they are
/// laid out: not at all where there are none.
pub open spec fn details_shown(details: JsonView, pretty: Seq<char>) -> Seq<char> {
    if details is Null || (details matches JsonView::Obj(members) && members.len() == 0) {
        Seq::empty()
    } else {
        pretty
    }
}

/// How the details of an event are shown, given how they are laid out.
pub fn shown_details(details: &Json, pretty: &str) -> (r: String)
    ensures
        r@ == details_shown(details@, pretty@),
{
    let absent = match details {
        Json::Null => true,
        _ => match details.members() {
            Some(members) => members.len() == 0,
            None => false,
        },
    };
    if absent {
        String::new()
    } else {
        pretty.to_owned()
    }
}

/// How the details of an event are shown where everything is told.
pub fn format_details(details: &Details) -> (r: String)
    ensures
        r@ == details_shown(details@, json_value::pretty_json(details@)),
{
    shown_details(details.held(), details.layout())
}

/// The time of an event as it is shown; nothing where the calendar does not reach it.
pub open spec fn time_shown(at: Moment) -> Seq<char> {
    match operator_read_models::stamp_chars(at) {
        Some(t) => t,
        None => Seq::empty(),
    }
}

fn show_time(at: Moment) -> (r: String)
    ensures
        r@ == time_shown(at),
{
    match operator_read_models::stamp_text(at) {
        Some(t) => t,
        None => String::new(),
    }
}

/// The time and the category of an event, before what it says.
pub open spec fn heading(event: CorrelatedActivityEvent, time: Seq<char>) -> Seq<SpanView> {
    seq![
        span(Style::Dimmed, "["@ + time + "]"@),
        span(Style::Plain, " "@),
        span(Style::Dimmed, "["@ + event.category@ + "]"@),
        span(Style::Plain, " "@),
    ]
}

/// How an event is shown, given how its time is written and how its details are shown
/// where everything is told.
pub open spec fn event_shown(
    event: CorrelatedActivityEvent,
    verbose: bool,
    time: Seq<char>,
    pretty: Seq<char>,
) -> Seq<SpanView> {
    let t = canonical(event.event_type@);
    let details = event.details@;
    let model = " ["@ + detail_or(details, "model"@, "unknown"@) + "]"@;
    if t == "console_output"@ {
        let stream = detail_or(details, "stream"@, "stdout"@);
        let content = detail_or(details, "output"@, event.message@);
        seq![
            if stream == "stderr"@ {
                span(Style::Red, "[STDERR]"@)
            } else if stream == "judge"@ {
                span(Style::MagentaBold, "[JUDGE]"@)
            } else {
                span(Style::Cyan, "[STDOUT]"@)
            },
            span(Style::Plain, " "@ + text::trimmed_end(content)),
        ]
    } else if t == "llm_interaction"@ && verbose {
        heading(event, time) + seq![
            span(Style::PurpleBold, "LLM Interaction"@),
            span(Style::Plain, model + "\n"@),
            span(Style::Dimmed, "PROMPT:"@),
            span(Style::Plain, "\n"@ + detail_or(details, "prompt"@, ""@) + "\n"@),
            span(Style::Dimmed, "RESPONSE:"@),
            span(Style::Plain, "\n"@ + detail_or(details, "response"@, ""@) + "\n"@),
            span(Style::Dimmed, "----------------------------------------"@),
        ]
    } else if t == "llm_interaction"@ {
        heading(event, time) + seq![span(Style::Purple, "LLM"@), span(Style::Plain, model)]
    } else if t == "iteration_failed"@ {
        heading(event, time) + seq![
            span(
                Style::RedBold,
                "Iteration failed: "@ + failure_message(details, event.message@),
            ),
        ]
    } else if t == "execution_failed"@ || t == "execution_timed_out"@ {
        heading(event, time) + seq![span(Style::RedBold, event.message@)]
    } else if t == "execution_completed"@ && !verbose {
        heading(event, time) + seq![span(Style::GreenBold, "Execution completed"@)]
    } else if verbose && pretty.len() > 0 {
        heading(event, time) + seq![span(Style::Plain, event.message@ + "\n"@ + pretty)]
    } else {
        heading(event, time) + seq![span(Style::Plain, event.message@)]
    }
}

fn paint(spans: &mut Vec<Span>, style: Style, piece: String)
    ensures
        span_views(final(spans)@) == span_views(old(spans)@).push(span(style, piece@)),
{
    let ghost before = spans@;
    spans.push(Span { style, text: piece });
    assert(span_views(spans@) =~= span_views(before).push(span(style, piece@)));
}

/// How an event is shown, given how its time is written and how its details are shown
/// where everything is told.
pub fn event_spans(
    event: &CorrelatedActivityEvent,
    verbose: bool,
    time: &str,
    pretty: &str,
) -> (r: Vec<Span>)
    ensures
        span_views(r@) == event_shown(*event, verbose, time@, pretty@),
{
    let kind = canonical_event_type(event.event_type.as_str());
    let t = kind.as_str();
    let mut spans: Vec<Span> = Vec::new();
    if text::str_eq(t, "console_output") {
        let stream = detail(event.details.held(), "stream", "stdout");
        let content = detail(event.details.held(), "output", event.message.as_str());
        if text::str_eq(stream, "stderr") {
            paint(&mut spans, Style::Red, "[STDERR]".to_owned());
        } else if text::str_eq(stream, "judge") {
            paint(&mut spans, Style::MagentaBold, "[JUDGE]".to_owned());
        } else {
            paint(&mut spans, Style::Cyan, "[STDOUT]".to_owned());
        }
        let trimmed = text::trim_end(content);
        paint(&mut spans, Style::Plain, " ".to_owned().concat(trimmed.as_str()));
        assert(span_views(spans@) =~= event_shown(*event, verbose, time@, pretty@));
        return spans;
    }
    paint(
        &mut spans,
        Style::Dimmed,
        "[".to_owned().concat(time).concat("]"),
    );
    paint(&mut spans, Style::Plain, " ".to_owned());
    paint(
        &mut spans,
        Style::Dimmed,
        "[".to_owned().concat(event.category.as_str()).concat("]"),
    );
    paint(&mut spans, Style::Plain, " ".to_owned());
    assert(span_views(spans@) =~= heading(*event, time@));
    if text::str_eq(t, "llm_interaction") {
        let model = " [".to_owned().concat(detail(event.details.held(), "model", "unknown")).concat("]");
        if verbose {
            paint(&mut spans, Style::PurpleBold, "LLM Interaction".to_owned());
            paint(&mut spans, Style::Plain, model.concat("\n"));
            paint(&mut spans, Style::Dimmed, "PROMPT:".to_owned());
            paint(
                &mut spans,
                Style::Plain,
                "\n".to_owned().concat(detail(event.details.held(), "prompt", "")).concat("\n"),
            );
            paint(&mut spans, Style::Dimmed, "RESPONSE:".to_owned());
            paint(
                &mut spans,
                Style::Plain,
                "\n".to_owned().concat(detail(event.details.held(), "response", "")).concat("\n"),
            );
            paint(
                &mut spans,
                Style::Dimmed,
                "----------------------------------------".to_owned(),
            );
        } else {
            paint(&mut spans, Style::Purple, "LLM".to_owned());
            paint(&mut spans, Style::Plain, model);
        }
    } else if text::str_eq(t, "iteration_failed") {
        let error = extract_iteration_error_message(event);
        paint(
            &mut spans,
            Style::RedBold,
            "Iteration failed: ".to_owned().concat(error.as_str()),
        );
    } else if text::str_eq(t, "execution_failed") || text::str_eq(t, "execution_timed_out") {
        paint(&mut spans, Style::RedBold, event.message.clone());
    } else if text::str_eq(t, "execution_completed") && !verbose {
        paint(&mut spans, Style::GreenBold, "Execution completed".to_owned());
    } else if verbose && !pretty.is_empty() {
        paint(&mut spans, Style::Plain, event.message.clone().concat("\n").concat(pretty));
    } else {
        paint(&mut spans, Style::Plain, event.message.clone());
    }
    assert(span_views(spans@) =~= event_shown(*event, verbose, time@, pretty@));
    spans
}

/// How an event is shown.
pub fn format_event(event: &CorrelatedActivityEvent, verbose: bool) -> (r: Vec<Span>)
    ensures
        span_views(r@) == event_shown(
            *event,
            verbose,
            time_shown(event.timestamp),
            details_shown(event.details@, json_value::pretty_json(event.details@)),
        ),
{
    let pretty = format_details(&event.details);
    let time = show_time(event.timestamp);
    event_spans(event, verbose, time.as_str(), pretty.as_str())
}

/// Pieces of text, one after the other, without their paint.
pub open spec fn joined(spans: Seq<SpanView>) -> Seq<char>
    decreases spans.len(),
{
    if spans.len() == 0 {
        Seq::empty()
    } else {
        joined(spans.drop_last()) + spans.last().text
    }
}

/// Pieces of text, one after the other, without their paint.
pub fn plain_text(spans: &Vec<Span>) -> (r: String)
    ensures
        r@ == joined(span_views(spans@)),
{
    let ghost all = span_views(spans@);
    let mut out = String::new();
    let mut i: usize = 0;
    while i < spans.len()
        invariant
            i <= spans@.len(),
            all == span_views(spans@),
            out@ == joined(all.take(i as int)),
        decreases spans@.len() - i,
    {
        assert(all.take(i + 1).drop_last() =~= all.take(i as int));
        assert(all.take(i + 1).last() == spans@[i as int]@);
        out.append(spans[i].text.as_str());
        i += 1;
    }
    assert(all.take(spans@.len() as int) =~= all);
    out
}

/// Whether an event of a stream is shown.
pub fn shows_event(event: &CorrelatedActivityEvent, errors_only: bool) -> (r: bool)
    ensures
        r == (!errors_only || is_failure(canonical(event.event_type@))),
{
    !errors_only || is_error_event(event)
}

/// The canonical form of a type of event holds no capital letter.
pub proof fn law_canonical_form_has_no_capitals(s: Seq<char>)
    ensures
        forall|i: int| 0 <= i < canonical(s).len() ==> !is_capital(#[trigger] canonical(s)[i]),
    decreases s.len(),
{
    if s.len() > 0 {
        law_canonical_form_has_no_capitals(s.drop_last());
        let before = canonical(s.drop_last());
        let c = s.last();
        assert(is_capital(c) ==> !is_capital(text::lower_char(c)));
        assert(!is_capital('_'));
        assert forall|i: int| 0 <= i < canonical(s).len() implies !is_capital(
            #[trigger] canonical(s)[i],
        ) by {
            if i < before.len() {
                assert(canonical(s)[i] == before[i]);
            }
        }
    }
}

/// A type of event without capital letters is its own canonical form.
pub proof fn law_small_letters_stay(s: Seq<char>)
    requires
        forall|i: int| 0 <= i < s.len() ==> !is_capital(#[trigger] s[i]),
    ensures
        canonical(s) == s,
    decreases s.len(),
{
    if s.len() > 0 {
        assert forall|i: int| 0 <= i < s.drop_last().len() implies !is_capital(
            #[trigger] s.drop_last()[i],
        ) by {
            assert(s.drop_last()[i] == s[i]);
        }
        law_small_letters_stay(s.drop_last());
        assert(!is_capital(s[s.len() - 1]));
        assert(s =~= s.drop_last().push(s.last()));
    }
}

/// A type of event that is in its canonical form stays as it is.
pub proof fn law_canonical_form_is_stable(event_type: Seq<char>)
    ensures
        canonical(canonical(event_type)) == canonical(event_type),
{
    law_canonical_form_has_no_capitals(event_type);
    law_small_letters_stay(canonical(event_type));
}

/// Where only errors are asked for, every entry that is shown tells of one.
pub proof fn law_only_errors_are_shown(event: WorkflowLogEvent, options: WorkflowLogOptions)
    requires
        options.errors_only,
        !skipped(event, options),
    ensures
        is_workflow_failure(canonical(event.event_type@)),
        is_failure(canonical(event.event_type@)),
{
}

/// A daemon is reached at its host and port, over plain HTTP where the host names no scheme.
pub proof fn law_where_a_daemon_is_reached(host: Seq<char>, port: u16)
    ensures
        base_url_of("https://"@ + host, port) == "https://"@ + host + ":"@ + text::decimal(
            port as nat,
        ),
        base_url_of("http://"@ + host, port) == "http://"@ + host + ":"@ + text::decimal(
            port as nat,
        ),
        !"http://"@.is_prefix_of(host) && !"https://"@.is_prefix_of(host) ==> base_url_of(
            host,
            port,
        ) == "http://"@ + host + ":"@ + text::decimal(port as nat),
{
    assert("http://"@.is_prefix_of("http://"@ + host));
    assert("https://"@.is_prefix_of("https://"@ + host));
}

/// A query begins with a question mark, and each further parameter with an ampersand.
pub proof fn law_queries_hold_every_parameter(params: Seq<Seq<char>>, last: Seq<char>)
    ensures
        query_of(Seq::empty()).len() == 0,
        params.len() == 0 ==> query_of(params.push(last)) == "?"@ + last,
        params.len() > 0 ==> query_of(params.push(last)) == query_of(params) + "&"@ + last,
{
    assert(params.push(last).drop_last() =~= params);
}

/// A parameter that is given is its name and its value; one that is not is left out.
pub proof fn law_parameters_are_given_or_left_out(name: Seq<char>, value: Seq<char>)
    ensures
        opt_param(name, Some(value)) == seq![name + value],
        opt_param(name, None).len() == 0,
        flag_param(name, true) == seq![name],
        flag_param(name, false).len() == 0,
        stream_query(true, true) == "?follow=true"@ + "&verbose=true"@,
        stream_query(false, true) == "?follow=false"@ + "&verbose=true"@,
        stream_query(true, false) == "?follow=true"@,
        stream_query(false, false) == "?follow=false"@,
{
    assert(stream_query(true, false) =~= "?follow=true"@);
    assert(stream_query(false, false) =~= "?follow=false"@);
}

/// Workflows are listed under their member or bare; any other answer is none.
pub proof fn law_workflow_lists_are_read(
    answer: Option<WorkflowListResponse>,
    value: JsonView,
    items: Seq<JsonView>,
    i: int,
)
    requires
        WorkflowListResponse::says(answer, value),
        0 <= i < items.len(),
    ensures
        value.get("workflows"@) == Some(JsonView::Arr(items)) ==> (answer matches Some(w)
            && w.listed().len() == items.len() && w.listed()[i] == items[i]),
        value == JsonView::Arr(items) ==> (answer matches Some(w) && w.listed().len()
            == items.len() && w.listed()[i] == items[i]),
        value is Null || value is Str || value is Int || value is Bool ==> answer is None,
{
}

/// The identifier of a workflow is that of the first of its name that has a valid one.
pub proof fn law_the_first_workflow_of_a_name(
    workflows: Seq<JsonView>,
    name: Seq<char>,
    written: Seq<char>,
    id: u128,
    at: int,
)
    requires
        0 <= at < workflows.len(),
        workflows[at].get_str("name"@) == Some(name),
        workflows[at].get_str("id"@) == Some(written),
        primitives::parsed_uuid(written) == Some(id),
        forall|j: int|
            0 <= j < at ==> (#[trigger] workflows[j]).get_str("name"@) != Some(name),
    ensures
        first_workflow_id(workflows, name) == Some(id),
    decreases workflows.len(),
{
    if at > 0 {
        assert(workflows[0].get_str("name"@) != Some(name));
        let rest = workflows.skip(1);
        assert forall|j: int| 0 <= j < at - 1 implies (#[trigger] rest[j]).get_str("name"@)
            != Some(name) by {
            assert(rest[j] == workflows[j + 1]);
        }
        law_the_first_workflow_of_a_name(rest, name, written, id, at - 1);
    }
}

/// Where no workflow has the name there is no identifier.
pub proof fn law_no_workflow_is_made_up(workflows: Seq<JsonView>, name: Seq<char>)
    requires
        forall|j: int|
            0 <= j < workflows.len() ==> (#[trigger] workflows[j]).get_str("name"@) != Some(name),
    ensures
        first_workflow_id(workflows, name) is None,
    decreases workflows.len(),
{
    if workflows.len() > 0 {
        assert(workflows[0].get_str("name"@) != Some(name));
        let rest = workflows.skip(1);
        assert forall|j: int| 0 <= j < rest.len() implies (#[trigger] rest[j]).get_str("name"@)
            != Some(name) by {
            assert(rest[j] == workflows[j + 1]);
        }
        law_no_workflow_is_made_up(rest, name);
    }
}

/// An answer tells an identifier where its member is a text that denotes one.
pub proof fn law_identifiers_are_told(answer: JsonView, name: Seq<char>, written: Seq<char>)
    ensures
        answer.get(name) == Some(JsonView::Str(written)) ==> told_id_spec(answer, name)
            == primitives::parsed_uuid(written),
        answer.get(name) is None ==> told_id_spec(answer, name) is None,
{
}

/// The payloads of a stream are what follows `data: `, line by line; other lines hold none.
pub proof fn law_every_payload_is_read(
    lines: Seq<Seq<char>>,
    payload: Seq<char>,
    other: Seq<char>,
)
    ensures
        payloads_of(lines.push("data: "@ + payload)) == payloads_of(lines).push(payload),
        !"data: "@.is_prefix_of(other) ==> payloads_of(lines.push(other)) == payloads_of(lines),
        payloads_of(Seq::empty()).len() == 0,
{
    let line = "data: "@ + payload;
    assert(lines.push(line).drop_last() =~= lines);
    assert(lines.push(other).drop_last() =~= lines);
    assert("data: "@.is_prefix_of(line));
    assert(line.skip("data: "@.len() as int) =~= payload);
}

/// Every event is shown unless only transitions or only errors are wanted and it is none.
pub proof fn law_events_are_skipped_only_as_asked(
    event: WorkflowLogEvent,
    options: WorkflowLogOptions,
)
    ensures
        !options.transitions_only && !options.errors_only ==> !skipped(event, options),
        options.transitions_only && canonical(event.event_type@) != "workflow_execution_started"@
            && canonical(event.event_type@) != "workflow_state_entered"@ && canonical(
            event.event_type@,
        ) != "workflow_state_exited"@ && canonical(event.event_type@)
            != "workflow_execution_completed"@ && canonical(event.event_type@)
            != "workflow_execution_failed"@ && canonical(event.event_type@)
            != "workflow_execution_cancelled"@ ==> skipped(event, options),
        !options.errors_only && (canonical(event.event_type@) == "workflow_execution_started"@
            || canonical(event.event_type@) == "workflow_state_entered"@ || canonical(
            event.event_type@,
        ) == "workflow_state_exited"@ || canonical(event.event_type@)
            == "workflow_execution_completed"@ || canonical(event.event_type@)
            == "workflow_execution_failed"@ || canonical(event.event_type@)
            == "workflow_execution_cancelled"@) ==> !skipped(event, options),
        !options.transitions_only && (canonical(event.event_type@) == "workflow_iteration_failed"@
            || canonical(event.event_type@) == "workflow_execution_failed"@) ==> !skipped(
            event,
            options,
        ),
        options.errors_only && canonical(event.event_type@) != "workflow_iteration_failed"@
            && canonical(event.event_type@) != "workflow_execution_failed"@ ==> skipped(
            event,
            options,
        ),
{
}

/// The message of a failure is the one inside its error, or the error, or the reason, or
/// the message of the event, and never empty for want of one.
pub proof fn law_failures_have_a_message(
    details: JsonView,
    message: Seq<char>,
    error: JsonView,
    said: Seq<char>,
)
    ensures
        details.get("error"@) == Some(error) && error.get_str("message"@) == Some(said)
            ==> failure_message(details, message) == said,
        details.get("error"@) == Some(JsonView::Str(said)) ==> failure_message(details, message)
            == said,
        details.get("error"@) is None && details.get("reason"@) == Some(JsonView::Str(said))
            ==> failure_message(details, message) == said,
        details.get("error"@) is None && details.get("reason"@) is None && message.len() > 0
            ==> failure_message(details, message) == message,
        details.get("error"@) is None && details.get("reason"@) is None && message.len() == 0
            ==> failure_message(details, message) == "Unknown error"@,
{
}

/// Labelled values are lines of their own, and every line of the details is indented.
pub proof fn law_lines_are_labelled_and_indented(
    label: Seq<char>,
    value: Seq<char>,
    lines: Seq<Seq<char>>,
    last: Seq<char>,
    n: u8,
)
    ensures
        labelled(label, Some(value)) == label + value + "\n"@,
        labelled(label, None).len() == 0,
        indented(lines.push(last)) == indented(lines) + "    "@ + last + "\n"@,
        indented(Seq::empty()).len() == 0,
        opt_number(Some(n)) == Some(text::decimal(n as nat)),
        opt_number(None) is None,
{
    assert(lines.push(last).drop_last() =~= lines);
}

/// An entry begins with its time and its message; a short one ends there.
#[verifier::rlimit(40)]
pub proof fn law_entries_begin_with_time_and_message(
    event: WorkflowLogEvent,
    verbose: bool,
    rendered: Seq<char>,
)
    ensures
        ("["@ + event.timestamp@ + "] "@ + event.message@).is_prefix_of(
            entry_shown(event, verbose, rendered),
        ),
        event.iteration_number is None ==> entry_shown(event, false, rendered) == "["@
            + event.timestamp@ + "] "@ + event.message@ + "\n"@,
        event.iteration_number matches Some(n) ==> entry_shown(event, false, rendered) == "["@
            + event.timestamp@ + "] "@ + event.message@ + (" (iteration "@ + text::decimal(
            n as nat,
        ) + ")"@) + "\n"@,
        entry_shown(event, false, rendered).is_prefix_of(entry_shown(event, true, rendered)),
{
    let start = "["@ + event.timestamp@ + "] "@ + event.message@;
    let turn = match opt_number(event.iteration_number) {
        Some(n) => " (iteration "@ + n + ")"@,
        None => Seq::empty(),
    };
    let short = entry_shown(event, false, rendered);
    assert(short == start + turn + "\n"@);
    lemma_begins(start, turn);
    lemma_begins(start + turn, "\n"@);
    lemma_beginning(start, start + turn, short);
    if event.iteration_number is None {
        assert(start + turn =~= start);
    }
    let b = short + labelled("  Workflow:   "@, text::opt_view(event.workflow_name));
    let c = b + labelled("  Workflow ID: "@, text::opt_view(event.workflow_id));
    let d = c + labelled("  Event:      "@, Some(canonical(event.event_type@)));
    let e = d + labelled("  State:      "@, text::opt_view(event.state_name));
    let f = e + labelled("  Iteration:  "@, opt_number(event.iteration_number));
    let g = f + labelled("  Temporal workflow: "@, text::opt_view(event.temporal_workflow_id));
    let h = g + labelled("  Temporal run:      "@, text::opt_view(event.temporal_run_id));
    let rest = if event.details@ is Null {
        Seq::empty()
    } else {
        "  Details:\n"@ + indented(text::lines_of(rendered))
    };
    let whole = entry_shown(event, true, rendered);
    assert(whole == h + rest);
    lemma_begins(short, labelled("  Workflow:   "@, text::opt_view(event.workflow_name)));
    lemma_begins(b, labelled("  Workflow ID: "@, text::opt_view(event.workflow_id)));
    lemma_begins(c, labelled("  Event:      "@, Some(canonical(event.event_type@))));
    lemma_begins(d, labelled("  State:      "@, text::opt_view(event.state_name)));
    lemma_begins(e, labelled("  Iteration:  "@, opt_number(event.iteration_number)));
    lemma_begins(
        f,
        labelled("  Temporal workflow: "@, text::opt_view(event.temporal_workflow_id)),
    );
    lemma_begins(g, labelled("  Temporal run:      "@, text::opt_view(event.temporal_run_id)));
    lemma_begins(h, rest);
    lemma_beginning(short, b, c);
    lemma_beginning(short, c, d);
    lemma_beginning(short, d, e);
    lemma_beginning(short, e, f);
    lemma_beginning(short, f, g);
    lemma_beginning(short, g, h);
    lemma_beginning(short, h, whole);
    lemma_beginning(start, short, whole);
}

/// A text begins whatever is made longer from it.
proof fn lemma_begins(s: Seq<char>, more: Seq<char>)
    ensures
        s.is_prefix_of(s + more),
{
    assert((s + more).subrange(0, s.len() as int) =~= s);
}

/// A long entry tells the workflow, the canonical event, the state and the details that it
/// has.
#[verifier::rlimit(40)]
pub proof fn law_long_entries_tell_the_rest(event: WorkflowLogEvent, rendered: Seq<char>)
    ensures
        text::occurs(
            "  Event:      "@ + canonical(event.event_type@) + "\n"@,
            entry_shown(event, true, rendered),
        ),
        event.workflow_name matches Some(v) ==> text::occurs(
            "  Workflow:   "@ + v@ + "\n"@,
            entry_shown(event, true, rendered),
        ),
        event.workflow_id matches Some(v) ==> text::occurs(
            "  Workflow ID: "@ + v@ + "\n"@,
            entry_shown(event, true, rendered),
        ),
        event.state_name matches Some(v) ==> text::occurs(
            "  State:      "@ + v@ + "\n"@,
            entry_shown(event, true, rendered),
        ),
        event.temporal_workflow_id matches Some(v) ==> text::occurs(
            "  Temporal workflow: "@ + v@ + "\n"@,
            entry_shown(event, true, rendered),
        ),
        event.temporal_run_id matches Some(v) ==> text::occurs(
            "  Temporal run:      "@ + v@ + "\n"@,
            entry_shown(event, true, rendered),
        ),
        !(event.details@ is Null) ==> text::occurs(
            "  Details:\n"@ + indented(text::lines_of(rendered)),
            entry_shown(event, true, rendered),
        ),
{
    let a = entry_shown(event, false, rendered);
    let b = a + labelled("  Workflow:   "@, text::opt_view(event.workflow_name));
    let c = b + labelled("  Workflow ID: "@, text::opt_view(event.workflow_id));
    let d = c + labelled("  Event:      "@, Some(canonical(event.event_type@)));
    let e = d + labelled("  State:      "@, text::opt_view(event.state_name));
    let f = e + labelled("  Iteration:  "@, opt_number(event.iteration_number));
    let g = f + labelled("  Temporal workflow: "@, text::opt_view(event.temporal_workflow_id));
    let h = g + labelled("  Temporal run:      "@, text::opt_view(event.temporal_run_id));
    let rest = if event.details@ is Null {
        Seq::empty()
    } else {
        "  Details:\n"@ + indented(text::lines_of(rendered))
    };
    assert(entry_shown(event, true, rendered) == h + rest);
    lemma_begins(a, labelled("  Workflow:   "@, text::opt_view(event.workflow_name)));
    lemma_begins(b, labelled("  Workflow ID: "@, text::opt_view(event.workflow_id)));
    lemma_begins(c, labelled("  Event:      "@, Some(canonical(event.event_type@))));
    lemma_begins(d, labelled("  State:      "@, text::opt_view(event.state_name)));
    lemma_begins(e, labelled("  Iteration:  "@, opt_number(event.iteration_number)));
    lemma_begins(
        f,
        labelled("  Temporal workflow: "@, text::opt_view(event.temporal_workflow_id)),
    );
    lemma_begins(g, labelled("  Temporal run:      "@, text::opt_view(event.temporal_run_id)));
    lemma_begins(h, rest);
    lemma_beginning(g, h, h + rest);
    lemma_beginning(f, g, h + rest);
    lemma_beginning(e, f, h + rest);
    lemma_beginning(d, e, h + rest);
    lemma_beginning(c, d, h + rest);
    lemma_beginning(b, c, h + rest);
    lemma_last_part_occurs(a, labelled("  Workflow:   "@, text::opt_view(event.workflow_name)), h + rest);
    lemma_last_part_occurs(b, labelled("  Workflow ID: "@, text::opt_view(event.workflow_id)), h + rest);
    lemma_last_part_occurs(c, labelled("  Event:      "@, Some(canonical(event.event_type@))), h + rest);
    lemma_last_part_occurs(d, labelled("  State:      "@, text::opt_view(event.state_name)), h + rest);
    lemma_last_part_occurs(
        f,
        labelled("  Temporal workflow: "@, text::opt_view(event.temporal_workflow_id)),
        h + rest,
    );
    lemma_last_part_occurs(
        g,
        labelled("  Temporal run:      "@, text::opt_view(event.temporal_run_id)),
        h + rest,
    );
    lemma_last_part_occurs(h, rest, h + rest);
}

/// What begins the beginning of a text begins the text.
proof fn lemma_beginning(s: Seq<char>, longer: Seq<char>, whole: Seq<char>)
    requires
        s.is_prefix_of(longer),
        longer.is_prefix_of(whole),
    ensures
        s.is_prefix_of(whole),
{
    assert(whole.take(s.len() as int) =~= s) by {
        assert forall|k: int| 0 <= k < s.len() implies whole[k] == s[k] by {
            assert(longer.take(s.len() as int)[k] == longer[k]);
            assert(whole.take(longer.len() as int)[k] == whole[k]);
        }
    }
}

/// The last part of what begins a text occurs in the text.
proof fn lemma_last_part_occurs(before: Seq<char>, part: Seq<char>, whole: Seq<char>)
    requires
        (before + part).is_prefix_of(whole),
    ensures
        text::occurs(part, whole),
{
    let n = before.len() as int;
    let m = n + part.len();
    assert(whole.subrange(n, m) =~= part) by {
        assert forall|k: int| 0 <= k < part.len() implies whole[n + k] == part[k] by {
            assert(whole.take(m)[n + k] == whole[n + k]);
            assert((before + part)[n + k] == part[k]);
        }
    }
    assert(text::occurs_at(part, whole, n));
}

/// Details are shown as they are written, unless there are none.
pub proof fn law_details_are_shown(details: JsonView, pretty: Seq<char>)
    ensures
        details is Null ==> details_shown(details, pretty).len() == 0,
        details == JsonView::object() ==> details_shown(details, pretty).len() == 0,
        details is Str || details is Arr || details is Int || details is Bool ==> details_shown(
            details,
            pretty,
        ) == pretty,
        details matches JsonView::Obj(members) && members.len() > 0 ==> details_shown(
            details,
            pretty,
        ) == pretty,
{
}

/// A detail is its text, or what stands in for it where it is none.
pub proof fn law_details_or_what_stands_in(
    details: JsonView,
    key: Seq<char>,
    said: Seq<char>,
    otherwise: Seq<char>,
)
    ensures
        details.get(key) == Some(JsonView::Str(said)) ==> detail_or(details, key, otherwise)
            == said,
        details.get(key) is None ==> detail_or(details, key, otherwise) == otherwise,
{
}

/// Output is told by its stream: errors, the judge's, and all else as plain output.
pub proof fn law_output_is_told_by_its_stream(
    event: CorrelatedActivityEvent,
    verbose: bool,
    time: Seq<char>,
    pretty: Seq<char>,
)
    requires
        canonical(event.event_type@) == "console_output"@,
    ensures
        ({
            let shown = event_shown(event, verbose, time, pretty);
            let stream = detail_or(event.details@, "stream"@, "stdout"@);
            &&& shown.len() == 2
            &&& stream == "stderr"@ ==> shown[0].text == "[STDERR]"@ && shown[0].style
                == Style::Red
            &&& stream == "judge"@ ==> shown[0].text == "[JUDGE]"@
            &&& stream != "stderr"@ && stream != "judge"@ ==> shown[0].text == "[STDOUT]"@
            &&& shown[1].text == " "@ + text::trimmed_end(
                detail_or(event.details@, "output"@, event.message@),
            )
        }),
{
    reveal_strlit("stderr");
    reveal_strlit("judge");
    assert("stderr"@.len() == 6 && "judge"@.len() == 5);
}

/// Every other event begins with its time and its category, and a failure, a completion
/// and any event without a form of its own is told by its message.
pub proof fn law_events_are_told(
    event: CorrelatedActivityEvent,
    verbose: bool,
    time: Seq<char>,
    pretty: Seq<char>,
)
    requires
        canonical(event.event_type@) != "console_output"@,
    ensures
        ({
            let shown = event_shown(event, verbose, time, pretty);
            let t = canonical(event.event_type@);
            &&& shown.len() >= 5
            &&& shown[0].text == "["@ + time + "]"@
            &&& shown[2].text == "["@ + event.category@ + "]"@
            &&& t == "iteration_failed"@ ==> shown[4].text == "Iteration failed: "@
                + failure_message(event.details@, event.message@) && shown[4].style
                == Style::RedBold
            &&& t == "execution_failed"@ || t == "execution_timed_out"@ ==> shown[4].text
                == event.message@ && shown[4].style == Style::RedBold
            &&& t == "execution_completed"@ && !verbose ==> shown[4].text
                == "Execution completed"@
            &&& t == "llm_interaction"@ && !verbose ==> shown.len() == 6 && shown[4].text
                == "LLM"@ && shown[5].text == " ["@ + detail_or(
                event.details@,
                "model"@,
                "unknown"@,
            ) + "]"@
            &&& t == "llm_interaction"@ && verbose ==> shown.len() == 11 && shown[7].text
                == "\n"@ + detail_or(event.details@, "prompt"@, ""@) + "\n"@ && shown[9].text
                == "\n"@ + detail_or(event.details@, "response"@, ""@) + "\n"@
            &&& t == "agent_started"@ && !verbose ==> shown[4].text == event.message@
            &&& t == "agent_started"@ && verbose && pretty.len() > 0 ==> shown[4].text
                == event.message@ + "\n"@ + pretty
        }),
{
    reveal_strlit("console_output");
    reveal_strlit("llm_interaction");
    reveal_strlit("iteration_failed");
    reveal_strlit("execution_failed");
    reveal_strlit("execution_timed_out");
    reveal_strlit("execution_completed");
    reveal_strlit("agent_started");
    assert("console_output"@.len() == 14 && "llm_interaction"@.len() == 15 && "iteration_failed"@.len() == 16 && "execution_failed"@.len() == 16 && "execution_timed_out"@.len() == 19 && "execution_completed"@.len() == 19 && "agent_started"@.len() == 13 && "execution_failed"@[0] == 'e' && "iteration_failed"@[0] == 'i' && "execution_completed"@[10] == 'c' && "execution_timed_out"@[10] == 't');
}

/// Joined pieces are read one after the other.
pub proof fn law_pieces_are_joined(spans: Seq<SpanView>, last: SpanView)
    ensures
        joined(spans.push(last)) == joined(spans) + last.text,
        joined(Seq::empty()).len() == 0,
{
    assert(spans.push(last).drop_last() =~= spans);
}

/// An event is a failure by its name.
pub proof fn law_failures_go_by_their_names(t: Seq<char>)
    ensures
        t == "iteration_failed"@ || t == "execution_failed"@ || t == "execution_timed_out"@
            ==> is_failure(t),
        t == "workflow_iteration_failed"@ || t == "workflow_execution_failed"@ ==> is_failure(t)
            && is_workflow_failure(t),
        t == "volume_mount_failed"@ || t == "volume_quota_exceeded"@ || t
            == "filesystem_policy_violation"@ || t == "path_traversal_blocked"@ || t
            == "quota_exceeded"@ || t == "unauthorized_volume_access"@ ==> is_failure(t),
        t == "policy_violation"@ || t == "invocation_failed"@ || t == "policy_violation_blocked"@
            || t == "server_failed"@ || t == "server_unhealthy"@ ==> is_failure(t),
        t == "container_run_failed"@ || t == "image_pull_failed"@ || t
            == "classification_failed"@ || t == "stimulus_rejected"@ ==> is_failure(t),
        t == "secret_access_denied"@ || t == "token_validation_failed"@ || t
            == "jwks_cache_refresh_failed"@ || t == "agent_failed"@ ==> is_failure(t),
        is_workflow_failure(t) ==> is_failure(t),
        t == "execution_completed"@ ==> !is_failure(t),
        t == "execution_started"@ ==> !is_failure(t),
        t == "console_output"@ ==> !is_failure(t),
{
    if t == "execution_completed"@ || t == "execution_started"@ || t == "console_output"@ {
    reveal_strlit("iteration_failed");
    reveal_strlit("execution_failed");
    reveal_strlit("execution_timed_out");
    reveal_strlit("workflow_iteration_failed");
    reveal_strlit("workflow_execution_failed");
    reveal_strlit("volume_mount_failed");
    reveal_strlit("volume_quota_exceeded");
    reveal_strlit("filesystem_policy_violation");
    reveal_strlit("path_traversal_blocked");
    reveal_strlit("quota_exceeded");
    reveal_strlit("unauthorized_volume_access");
    reveal_strlit("policy_violation");
    reveal_strlit("invocation_failed");
    reveal_strlit("policy_violation_blocked");
    reveal_strlit("server_failed");
    reveal_strlit("server_unhealthy");
    reveal_strlit("container_run_failed");
    reveal_strlit("image_pull_failed");
    reveal_strlit("classification_failed");
    reveal_strlit("stimulus_rejected");
    reveal_strlit("secret_access_denied");
    reveal_strlit("token_validation_failed");
    reveal_strlit("jwks_cache_refresh_failed");
    reveal_strlit("agent_failed");
    reveal_strlit("execution_completed");
    reveal_strlit("execution_started");
    reveal_strlit("console_output");
    assert("iteration_failed"@.len() == 16 && "execution_failed"@.len() == 16 && "execution_timed_out"@.len() == 19 && "workflow_iteration_failed"@.len() == 25 && "workflow_execution_failed"@.len() == 25 && "volume_mount_failed"@.len() == 19 && "volume_quota_exceeded"@.len() == 21 && "filesystem_policy_violation"@.len() == 27 && "path_traversal_blocked"@.len() == 22 && "quota_exceeded"@.len() == 14 && "unauthorized_volume_access"@.len() == 26 && "policy_violation"@.len() == 16 && "invocation_failed"@.len() == 17 && "policy_violation_blocked"@.len() == 24 && "server_failed"@.len() == 13 && "server_unhealthy"@.len() == 16 && "container_run_failed"@.len() == 20 && "image_pull_failed"@.len() == 17 && "classification_failed"@.len() == 21 && "stimulus_rejected"@.len() == 17 && "secret_access_denied"@.len() == 20 && "token_validation_failed"@.len() == 23 && "jwks_cache_refresh_failed"@.len() == 25 && "agent_failed"@.len() == 12 && "execution_completed"@.len() == 19 && "execution_started"@.len() == 17 && "console_output"@.len() == 14 && "execution_failed"@[0] == 'e' && "iteration_failed"@[0] == 'i' && "workflow_execution_failed"@[9] == 'e' && "workflow_iteration_failed"@[9] == 'i' && "volume_mount_failed"@[0] == 'v' && "execution_timed_out"@[0] == 'e' && "policy_violation"@[0] == 'p' && "server_unhealthy"@[0] == 's' && "image_pull_failed"@[1] == 'm' && "invocation_failed"@[1] == 'n' && "classification_failed"@[0] == 'c' && "volume_quota_exceeded"@[0] == 'v' && "stimulus_rejected"@[0] == 's' && "invocation_failed"@[0] == 'i' && "image_pull_failed"@[0] == 'i' && "secret_access_denied"@[0] == 's' && "container_run_failed"@[0] == 'c' && "jwks_cache_refresh_failed"@[0] == 'j' && "workflow_iteration_failed"@[0] == 'w' && "workflow_execution_failed"@[0] == 'w' && "execution_completed"@[10] == 'c' && "execution_timed_out"@[10] == 't' && "execution_completed"@[0] == 'e' && "execution_started"@[0] == 'e' && "console_output"@[0] == 'c' && "quota_exceeded"@[0] == 'q');
    }
}

} // verus!
