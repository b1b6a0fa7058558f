//! What the daemon hands to the workflow engine on behalf of tools, and what tools are
//! shown of an agent's work.

use crate::json::{Json, JsonView};
use crate::operator_read_models::Moment;
use crate::{operator_read_models, primitives, text};
use vstd::prelude::*;

verus! {

/// The order to cancel the execution of a workflow.
pub struct CancelRequest {
    pub namespace: String,
    pub workflow_id: String,
    pub run_id: String,
    pub identity: String,
    pub request_id: u128,
    pub first_execution_run_id: String,
    pub reason: String,
}

/// The order to cancel an execution: whichever run it is in, on behalf of the daemon.
/// Each order has an identifier of its own.
pub fn cancel_workflow_execution(namespace: String, execution_id: String) -> (r: CancelRequest)
    ensures
        r.namespace == namespace,
        r.workflow_id == execution_id,
        r.run_id@.len() == 0,
        r.identity@ == "aegis-daemon"@,
        primitives::is_random_uuid(r.request_id),
        r.first_execution_run_id@.len() == 0,
        r.reason@ == "Cancelled via aegis.workflow.cancel tool"@,
{
    CancelRequest {
        namespace,
        workflow_id: execution_id,
        run_id: String::new(),
        identity: "aegis-daemon".to_owned(),
        request_id: primitives::random_uuid(),
        first_execution_run_id: String::new(),
        reason: "Cancelled via aegis.workflow.cancel tool".to_owned(),
    }
}

/// The failure of a signal that is sent before the workflow engine is connected, if it
/// is not.
pub fn signal_workflow_execution(connected: bool) -> (r: Result<(), String>)
    ensures
        if connected {
            r is Ok
        } else {
            r matches Err(e) && e@ == "Temporal client not yet connected"@
        },
{
    if connected {
        Ok(())
    } else {
        Err("Temporal client not yet connected".to_owned())
    }
}

/// The order to delete the execution of a workflow.
pub struct DeleteRequest {
    pub namespace: String,
    pub workflow_id: String,
    pub run_id: String,
}

/// The order to delete an execution, whichever run it is in.
pub fn remove_workflow_execution(namespace: String, execution_id: String) -> (r: DeleteRequest)
    ensures
        r.namespace == namespace,
        r.workflow_id == execution_id,
        r.run_id@.len() == 0,
{
    DeleteRequest { namespace, workflow_id: execution_id, run_id: String::new() }
}

/// What a tool is shown of an execution.
pub struct ActivityRow {
    pub execution_id: String,
    pub agent_id: String,
    pub status: String,
    pub started_at: Moment,
    pub ended_at: Option<Moment>,
    pub iteration_count: usize,
}

impl ActivityRow {
    /// The execution as it is shown.
    pub open spec fn shown(&self) -> JsonView {
        JsonView::object().with("execution_id"@, JsonView::Str(self.execution_id@)).with(
            "agent_id"@,
            JsonView::Str(self.agent_id@),
        ).with("status"@, JsonView::Str(text::lowered(self.status@))).with(
            "started_at"@,
            operator_read_models::moment_shown(self.started_at),
        ).with("ended_at"@, operator_read_models::opt_moment_shown(self.ended_at)).with(
            "iteration_count"@,
            JsonView::Int(self.iteration_count as int),
        )
    }

    /// The execution as it is shown.
    pub fn show(&self) -> (r: Json)
        ensures
            r@ == self.shown(),
    {
        let status = text::ascii_lower(self.status.as_str());
        Json::object().with("execution_id", Json::text(self.execution_id.as_str())).with(
            "agent_id",
            Json::text(self.agent_id.as_str()),
        ).with("status", Json::Str(status)).with(
            "started_at",
            operator_read_models::show_moment(self.started_at),
        ).with("ended_at", operator_read_models::show_opt_moment(self.ended_at)).with("iteration_count", Json::Int(self.iteration_count as i128))
    }
}

/// The number of executions that have to be looked up for a page of them.
pub fn activity_lookup_limit(limit: usize, offset: usize) -> (r: usize)
    requires
        limit + offset <= usize::MAX,
    ensures
        r == limit + offset,
{
    limit + offset
}

/// Where a page of executions ends.
pub open spec fn page_end(len: nat, limit: usize, offset: usize) -> int {
    if len < offset {
        len as int
    } else if len - offset < limit {
        len as int
    } else {
        offset + limit
    }
}

/// Where a page of executions starts.
pub open spec fn page_start(len: nat, offset: usize) -> int {
    if len < offset {
        len as int
    } else {
        offset as int
    }
}

/// What is shown of a page of executions: those after the first ones that are passed
/// over, up to a number.
pub open spec fn page_shown(rows: Seq<ActivityRow>, limit: usize, offset: usize) -> Seq<JsonView> {
    rows.subrange(
        page_start(rows.len(), offset),
        page_end(rows.len(), limit, offset),
    ).map_values(|r: ActivityRow| r.shown())
}

/// What a tool is shown of the executions of an agent.
pub fn agent_logs_snapshot(rows: &Vec<ActivityRow>, limit: usize, offset: usize) -> (r: Vec<Json>)
    ensures
        crate::json::json_views(r@) == page_shown(rows@, limit, offset),
{
    let len: usize = rows.len();
    let start: usize = if len < offset { len } else { offset };
    let end: usize = if len < offset {
        len
    } else if len - offset < limit {
        len
    } else {
        offset + limit
    };
    let mut out: Vec<Json> = Vec::new();
    let mut i: usize = start;
    while i < end
        invariant
            start <= i <= end <= rows@.len(),
            out@.len() == i - start,
            forall|k: int| 0 <= k < i - start ==> #[trigger] out@[k]@ == rows@[start + k].shown(),
        decreases end - i,
    {
        out.push(rows[i].show());
        i += 1;
    }
    assert(crate::json::json_views(out@) =~= page_shown(rows@, limit, offset));
    out
}

/// A page never shows more executions than it is to.
pub proof fn law_pages_are_bounded(rows: Seq<ActivityRow>, limit: usize, offset: usize)
    ensures
        page_shown(rows, limit, offset).len() <= limit,
{
}

/// A page shows the executions from its offset on, one after the other, as many as are
/// asked for or are left.
pub proof fn law_pages_show_what_they_are_of(
    rows: Seq<ActivityRow>,
    limit: usize,
    offset: usize,
    k: int,
)
    ensures
        offset + limit <= rows.len() ==> page_shown(rows, limit, offset).len() == limit,
        offset <= rows.len() < offset + limit ==> page_shown(rows, limit, offset).len()
            == rows.len() - offset,
        rows.len() < offset ==> page_shown(rows, limit, offset).len() == 0,
        0 <= k < page_shown(rows, limit, offset).len() ==> page_shown(rows, limit, offset)[k]
            == rows[offset + k].shown(),
{
}

/// The execution as it is shown: each part is found under its own name, as it is.
pub proof fn law_activity_row_shown_holds_its_parts(
    row: ActivityRow,
)
    ensures
        row.shown().get("execution_id"@) == Some(JsonView::Str(row.execution_id@)),
        row.shown().get("agent_id"@) == Some(JsonView::Str(row.agent_id@)),
        row.shown().get("status"@) == Some(JsonView::Str(text::lowered(row.status@))),
        row.shown().get("started_at"@) == Some(operator_read_models::moment_shown(row.started_at)),
        row.shown().get("ended_at"@) == Some(operator_read_models::opt_moment_shown(row.ended_at)),
        row.shown().get("iteration_count"@) == Some(JsonView::Int(row.iteration_count as int)),
{
    broadcast use crate::json::lemma_get_with;

    reveal_strlit("execution_id");
    reveal_strlit("agent_id");
    reveal_strlit("status");
    reveal_strlit("started_at");
    reveal_strlit("ended_at");
    reveal_strlit("iteration_count");
    assert("execution_id"@.len() == 12 && "agent_id"@.len() == 8 && "status"@.len() == 6 && "started_at"@.len() == 10 && "ended_at"@.len() == 8 && "iteration_count"@.len() == 15 && "ended_at"@[0] == 'e' && "agent_id"@[0] == 'a');
}

/// A page begins after what is passed over and shows as many as there are, up to its limit.
pub proof fn law_pages_follow_one_another(rows: Seq<ActivityRow>, limit: usize, offset: usize, i: int)
    ensures
        offset <= rows.len() && limit <= rows.len() - offset ==> page_shown(
            rows,
            limit,
            offset,
        ).len() == limit,
        offset <= rows.len() && limit > rows.len() - offset ==> page_shown(
            rows,
            limit,
            offset,
        ).len() == rows.len() - offset,
        offset > rows.len() ==> page_shown(rows, limit, offset).len() == 0,
        0 <= i < limit && offset + i < rows.len() ==> page_shown(rows, limit, offset)[i]
            == rows[offset + i].shown(),
{
}

} // verus!
