//! Executions: how they are shown, listed and ended.

use crate::handlers;
use crate::handlers::scope;
use crate::http;
use crate::http::Reply;
use crate::json::{Json, JsonView};
use crate::text;
use vstd::prelude::*;

verus! {

/// What is shown of an execution.
pub struct ExecutionRow {
    pub id: String,
    pub agent_id: String,
    pub status: String,
    pub started_at: Json,
    pub ended_at: Json,
}

impl ExecutionRow {
    /// What is shown of the execution alone.
    pub open spec fn shown(&self) -> JsonView {
        JsonView::object().with("id"@, JsonView::Str(self.id@)).with(
            "agent_id"@,
            JsonView::Str(self.agent_id@),
        ).with("status"@, JsonView::Str(self.status@))
    }

    /// What is shown of the execution in a list.
    pub open spec fn listed(&self) -> JsonView {
        self.shown().with("started_at"@, self.started_at@).with("ended_at"@, self.ended_at@)
    }

    /// What is shown of the execution alone.
    pub fn show(&self) -> (r: Json)
        ensures
            r@ == self.shown(),
    {
        Json::object().with("id", Json::text(self.id.as_str())).with(
            "agent_id",
            Json::text(self.agent_id.as_str()),
        ).with("status", Json::text(self.status.as_str()))
    }

    /// What is shown of the execution in a list.
    pub fn list_entry(&self) -> (r: Json)
        ensures
            r@ == self.listed(),
    {
        self.show().with("started_at", self.started_at.copy()).with(
            "ended_at",
            self.ended_at.copy(),
        )
    }
}

/// The answer about one execution.
pub fn get_execution_reply(outcome: Result<ExecutionRow, String>) -> (r: Reply)
    ensures
        r@ == (match outcome {
            Ok(exec) => http::json_reply(200, exec.shown()),
            Err(e) => http::error_reply(200, e@),
        }),
{
    match outcome {
        Ok(exec) => Reply::json(200, exec.show()),
        Err(e) => Reply::error(200, e.as_str()),
    }
}

/// The answer to a request to cancel or delete an execution; the failure is missing
/// where it was done.
pub fn end_execution_reply(failure: Option<&str>) -> (r: Reply)
    ensures
        r@ == (match text::opt_str_view(failure) {
            Some(e) => http::error_reply(200, e),
            None => handlers::volumes::success(),
        }),
{
    match failure {
        Some(e) => Reply::error(200, e),
        None => handlers::volumes::success_reply(),
    }
}

/// Whether a stream of an execution's events follows, and whether it tells
/// everything.
pub fn execution_stream_options(follow: Option<&str>, verbose: Option<&str>) -> (r: (bool, bool))
    ensures
        r == scope::stream_options_of(
            text::opt_str_view(follow),
            text::opt_str_view(verbose),
            true,
        ),
{
    scope::stream_options(follow, verbose, true)
}

/// The number of executions that a list shows at most: what is asked for, or 20, and
/// never more than what is configured.
pub open spec fn page_size(asked: Option<usize>, configured: Option<usize>) -> usize {
    let most = match configured {
        Some(n) => n,
        None => handlers::DEFAULT_MAX_EXECUTION_LIST_LIMIT,
    };
    let wanted = match asked {
        Some(n) => n,
        None => 20,
    };
    if wanted < most {
        wanted
    } else {
        most
    }
}

/// The number of executions that a list shows at most.
pub fn list_executions_limit(asked: Option<usize>, configured: Option<usize>) -> (r: usize)
    ensures
        r == page_size(asked, configured),
{
    let most: usize = match configured {
        Some(n) => n,
        None => handlers::DEFAULT_MAX_EXECUTION_LIST_LIMIT,
    };
    let wanted: usize = match asked {
        Some(n) => n,
        None => 20,
    };
    if wanted < most {
        wanted
    } else {
        most
    }
}

/// A request to list executions: the workflow to which it narrows the list, if any,
/// and how many it shows at most.
pub struct ListExecutionsRequest {
    pub workflow_name: Option<String>,
    pub limit: usize,
}

/// What a request to list executions meets.
pub enum ListExecutionsEvent {
    /// It was taken up.
    Begun,
    /// The named workflow was sought.
    WorkflowFound(Result<Option<u128>, String>),
    /// The executions were listed.
    Listed(Result<Vec<ExecutionRow>, String>),
}

/// What a request to list executions leads to.
pub enum ListExecutionsAction {
    FindWorkflow { name: String },
    List { workflow: Option<u128>, limit: usize },
    Answer(Reply),
}

/// The mathematical content of what a request to list executions leads to.
pub enum ListExecutionsActionView {
    FindWorkflow { name: Seq<char> },
    List { workflow: Option<u128>, limit: usize },
    Answer(http::ReplyView),
}

impl View for ListExecutionsAction {
    type V = ListExecutionsActionView;

    open spec fn view(&self) -> ListExecutionsActionView {
        match self {
            ListExecutionsAction::FindWorkflow { name } => ListExecutionsActionView::FindWorkflow {
                name: name@,
            },
            ListExecutionsAction::List { workflow, limit } => ListExecutionsActionView::List {
                workflow: *workflow,
                limit: *limit,
            },
            ListExecutionsAction::Answer(reply) => ListExecutionsActionView::Answer(reply@),
        }
    }
}

/// The answer that lists executions.
pub open spec fn list_answer(outcome: Result<Vec<ExecutionRow>, String>) -> http::ReplyView {
    match outcome {
        Ok(executions) => http::json_reply(
            200,
            JsonView::Arr(executions@.map_values(|e: ExecutionRow| e.listed())),
        ),
        Err(e) => http::error_reply(200, e@),
    }
}

impl ListExecutionsRequest {
    /// The request, from what it asks for and what is configured.
    pub fn start(
        workflow_name: Option<String>,
        asked: Option<usize>,
        configured: Option<usize>,
    ) -> (r: Self)
        ensures
            r.workflow_name == workflow_name,
            r.limit == page_size(asked, configured),
    {
        ListExecutionsRequest { workflow_name, limit: list_executions_limit(asked, configured) }
    }

    /// What the request leads to: where it names a workflow, that one is sought before
    /// anything is listed, and has to be there.
    pub open spec fn next(&self, event: ListExecutionsEvent) -> ListExecutionsActionView {
        match (event, self.workflow_name) {
            (ListExecutionsEvent::Begun, None) => ListExecutionsActionView::List {
                workflow: None,
                limit: self.limit,
            },
            (ListExecutionsEvent::Begun, Some(name)) => ListExecutionsActionView::FindWorkflow {
                name: name@,
            },
            (ListExecutionsEvent::WorkflowFound(_), None) => ListExecutionsActionView::List {
                workflow: None,
                limit: self.limit,
            },
            (
                ListExecutionsEvent::WorkflowFound(Ok(Some(id))),
                Some(_),
            ) => ListExecutionsActionView::List { workflow: Some(id), limit: self.limit },
            (
                ListExecutionsEvent::WorkflowFound(Ok(None)),
                Some(name),
            ) => ListExecutionsActionView::Answer(
                http::error_reply(200, "Workflow '"@ + name@ + "' not found"@),
            ),
            (
                ListExecutionsEvent::WorkflowFound(Err(e)),
                Some(_),
            ) => ListExecutionsActionView::Answer(http::error_reply(200, e@)),
            (ListExecutionsEvent::Listed(outcome), _) => ListExecutionsActionView::Answer(
                list_answer(outcome),
            ),
        }
    }

    /// What the request leads to.
    pub fn step(&self, event: ListExecutionsEvent) -> (action: ListExecutionsAction)
        ensures
            action@ == self.next(event),
    {
        match event {
            ListExecutionsEvent::Begun => match &self.workflow_name {
                None => ListExecutionsAction::List { workflow: None, limit: self.limit },
                Some(name) => ListExecutionsAction::FindWorkflow { name: name.clone() },
            },
            ListExecutionsEvent::WorkflowFound(found) => match &self.workflow_name {
                None => ListExecutionsAction::List { workflow: None, limit: self.limit },
                Some(name) => match found {
                    Ok(Some(id)) => ListExecutionsAction::List {
                        workflow: Some(id),
                        limit: self.limit,
                    },
                    Ok(None) => {
                        let message = "Workflow '".to_owned().concat(name.as_str()).concat(
                            "' not found",
                        );
                        ListExecutionsAction::Answer(Reply::error(200, message.as_str()))
                    },
                    Err(e) => ListExecutionsAction::Answer(Reply::error(200, e.as_str())),
                },
            },
            ListExecutionsEvent::Listed(outcome) => ListExecutionsAction::Answer(
                list_executions_reply(outcome),
            ),
        }
    }
}

fn list_executions_reply(outcome: Result<Vec<ExecutionRow>, String>) -> (r: Reply)
    ensures
        r@ == list_answer(outcome),
{
    match outcome {
        Ok(executions) => {
            let mut items: Vec<Json> = Vec::new();
            let mut i: usize = 0;
            while i < executions.len()
                invariant
                    i <= executions@.len(),
                    items@.len() == i,
                    forall|k: int| 0 <= k < i ==> #[trigger] items@[k]@ == executions@[k].listed(),
                decreases executions@.len() - i,
            {
                items.push(executions[i].list_entry());
                i += 1;
            }
            assert(crate::json::json_views(items@) =~= executions@.map_values(
                |e: ExecutionRow| e.listed(),
            ));
            Reply::json(200, Json::array(items))
        },
        Err(e) => Reply::error(200, e.as_str()),
    }
}

/// A list never shows more executions than are configured, and never more than are
/// asked for.
pub proof fn law_page_size_bounds(asked: Option<usize>, configured: Option<usize>)
    ensures
        asked matches Some(n) ==> page_size(asked, configured) <= n,
        configured matches Some(n) ==> page_size(asked, configured) <= n,
        configured is None ==> page_size(asked, configured) <= 1000,
{
}

/// Where a workflow is named that is not there, no executions are listed.
pub proof fn law_unknown_workflows_list_nothing(request: ListExecutionsRequest)
    requires
        request.workflow_name is Some,
    ensures
        request.next(ListExecutionsEvent::Begun) is FindWorkflow,
        request.next(ListExecutionsEvent::WorkflowFound(Ok(None))) is Answer,
{
}

/// A list of executions answers with one entry for each execution that was found, in
/// their order: each entry tells the execution's own identifier, agent, status, start and
/// end.
pub proof fn law_every_execution_is_listed(
    request: ListExecutionsRequest,
    executions: Vec<ExecutionRow>,
    i: int,
)
    requires
        0 <= i < executions@.len(),
    ensures
        ({
            &&& request.next(
                ListExecutionsEvent::Listed(Ok(executions)),
            ) matches ListExecutionsActionView::Answer(reply)
            &&& reply.status == 200
            &&& reply.body matches Some(JsonView::Arr(entries))
            &&& entries.len() == executions@.len()
            &&& entries[i].get_str("id"@) == Some(executions@[i].id@)
            &&& entries[i].get_str("agent_id"@) == Some(executions@[i].agent_id@)
            &&& entries[i].get_str("status"@) == Some(executions@[i].status@)
            &&& entries[i].get("started_at"@) == Some(executions@[i].started_at@)
            &&& entries[i].get("ended_at"@) == Some(executions@[i].ended_at@)
        }),
{
    broadcast use crate::json::lemma_get_with;

    reveal_strlit("id");
    reveal_strlit("agent_id");
    reveal_strlit("status");
    reveal_strlit("started_at");
    reveal_strlit("ended_at");
    assert("id"@.len() == 2 && "agent_id"@.len() == 8 && "status"@.len() == 6 && "started_at"@.len() == 10 && "ended_at"@.len() == 8 && "ended_at"@[0] == 'e' && "agent_id"@[0] == 'a');
}

/// Where no execution was found the list is empty, and a failure is told as it is.
pub proof fn law_lists_of_executions_tell_failures(
    request: ListExecutionsRequest,
    executions: Vec<ExecutionRow>,
    e: String,
)
    ensures
        executions@.len() == 0 ==> request.next(ListExecutionsEvent::Listed(Ok(executions)))
            == ListExecutionsActionView::Answer(http::json_reply(200, JsonView::Arr(Seq::empty()))),
        request.next(ListExecutionsEvent::Listed(Err(e))) == ListExecutionsActionView::Answer(
            http::error_reply(200, e@),
        ),
{
    if executions@.len() == 0 {
        assert(executions@.map_values(|e: ExecutionRow| e.listed()) =~= Seq::empty());
    }
}

/// An execution that is shown alone tells its identifier, its agent and its status.
pub proof fn law_an_execution_shows_itself(execution: ExecutionRow)
    ensures
        execution.shown().get_str("id"@) == Some(execution.id@),
        execution.shown().get_str("agent_id"@) == Some(execution.agent_id@),
        execution.shown().get_str("status"@) == Some(execution.status@),
{
    broadcast use crate::json::lemma_get_with;

    reveal_strlit("id");
    reveal_strlit("agent_id");
    reveal_strlit("status");
    assert("id"@.len() == 2 && "agent_id"@.len() == 8 && "status"@.len() == 6);
}

/// A list shows as many executions as are asked for, or twenty, where no smaller number
/// is configured; and what is configured, or a thousand, where more is asked for.
pub proof fn law_page_size_is_what_is_asked_for(
    asked: Option<usize>,
    configured: Option<usize>,
    n: usize,
    most: usize,
)
    ensures
        n <= most ==> page_size(Some(n), Some(most)) == n,
        n > most ==> page_size(Some(n), Some(most)) == most,
        page_size(None, configured) == page_size(Some(20), configured),
        page_size(asked, None) == page_size(asked, Some(1000)),
{
}

/// Executions are listed of the workflow that was found under the name that is asked
/// for, of all workflows where none is named, and never more than the request allows.
pub proof fn law_lists_are_of_the_named_workflow(request: ListExecutionsRequest, id: u128)
    ensures
        request.workflow_name is None ==> request.next(ListExecutionsEvent::Begun) == (
        ListExecutionsActionView::List { workflow: None, limit: request.limit }),
        request.workflow_name matches Some(name) ==> request.next(ListExecutionsEvent::Begun) == (
        ListExecutionsActionView::FindWorkflow { name: name@ }) && request.next(
            ListExecutionsEvent::WorkflowFound(Ok(Some(id))),
        ) == (ListExecutionsActionView::List { workflow: Some(id), limit: request.limit }),
{
}

} // verus!
