//! What operators are shown: stimuli, incidents, violations and a summary.

use crate::cluster_helpers::ClusterStatusView;
use crate::handlers::cluster;
use crate::http::Reply;
use crate::json::{Json, JsonView};
use crate::operator_read_models::{Moment, StorageEvent, StorageViolationView};
use crate::{http, json, operator_read_models};
use vstd::prelude::*;

verus! {

/// The answer about a stimulus that is not there.
pub fn stimulus_not_found_reply() -> (r: Reply)
    ensures
        r@ == http::error_reply(200, "stimulus not found"@),
{
    Reply::error(200, "stimulus not found")
}

/// The violations that operators are shown: the first of those that storage reports,
/// as many as are asked for.
fn list_storage_violations(events: &Vec<StorageEvent>, limit: Option<usize>) -> (r: Vec<
    StorageViolationView,
>)
    ensures
        r@.map_values(|v: StorageViolationView| v@) == events@.take(
            cluster::listed_len(limit, events@.len()) as int,
        ).map_values(|e: StorageEvent| operator_read_models::violation_model(e)),
{
    let mut views: Vec<StorageViolationView> = Vec::new();
    let mut i: usize = 0;
    while i < events.len()
        invariant
            i <= events@.len(),
            views@.len() == i,
            forall|k: int|
                0 <= k < i ==> #[trigger] views@[k]@ == operator_read_models::violation_model(
                    events@[k],
                ),
        decreases events@.len() - i,
    {
        views.push(operator_read_models::storage_violation_event_view(&events[i]));
        i += 1;
    }
    let shown = cluster::listed(views, limit);
    assert(shown@.map_values(|v: StorageViolationView| v@) =~= events@.take(
        cluster::listed_len(limit, events@.len()) as int,
    ).map_values(|e: StorageEvent| operator_read_models::violation_model(e)));
    shown
}

/// What a request for violations shows: some of them, and the failure, where they
/// could not be found.
pub struct ListedViolations {
    pub error: Option<String>,
    pub items: Vec<StorageViolationView>,
}

/// What a request for violations shows, once they were sought.
pub fn storage_violations(outcome: Result<Vec<StorageEvent>, String>, limit: Option<usize>) -> (r:
    ListedViolations)
    ensures
        match outcome {
            Ok(events) => {
                &&& r.error is None
                &&& r.items@.map_values(|v: StorageViolationView| v@) == events@.take(
                    cluster::listed_len(limit, events@.len()) as int,
                ).map_values(|e: StorageEvent| operator_read_models::violation_model(e))
            },
            Err(e) => r.error == Some(e) && r.items@.len() == 0,
        },
{
    match outcome {
        Ok(events) => ListedViolations {
            error: None,
            items: list_storage_violations(&events, limit),
        },
        Err(e) => ListedViolations { error: Some(e), items: Vec::new() },
    }
}

/// How many of the latest executions a summary counts at most.
pub const RECENT_COUNTED: usize = 25;

/// A summary of what the daemon does.
pub struct DashboardSummaryView {
    pub generated_at: Moment,
    pub uptime_seconds: u64,
    pub cluster: ClusterStatusView,
    pub swarm_count: usize,
    pub stimulus_count: usize,
    pub security_incident_count: usize,
    pub storage_violation_count: usize,
    pub recent_execution_count: usize,
    pub recent_workflow_execution_count: usize,
}

/// A number, or 0 where it could not be found out.
pub open spec fn count_or_zero(count: Option<usize>) -> usize {
    match count {
        Some(n) => n,
        None => 0,
    }
}

/// A number, or 0 where it could not be found out.
pub fn known_count(count: Option<usize>) -> (r: usize)
    ensures
        r == count_or_zero(count),
{
    match count {
        Some(n) => n,
        None => 0,
    }
}

/// The summary, from the numbers of what there is. The last three are missing where
/// the store could not be read.
pub fn dashboard_summary(
    generated_at: Moment,
    uptime_seconds: u64,
    cluster: ClusterStatusView,
    swarms: usize,
    stimuli: usize,
    incidents: usize,
    violations: Option<usize>,
    executions: Option<usize>,
    workflow_executions: Option<usize>,
) -> (r: DashboardSummaryView)
    ensures
        r == (DashboardSummaryView {
            generated_at,
            uptime_seconds,
            cluster,
            swarm_count: swarms,
            stimulus_count: stimuli,
            security_incident_count: incidents,
            storage_violation_count: count_or_zero(violations),
            recent_execution_count: count_or_zero(executions),
            recent_workflow_execution_count: count_or_zero(workflow_executions),
        }),
{
    DashboardSummaryView {
        generated_at,
        uptime_seconds,
        cluster,
        swarm_count: swarms,
        stimulus_count: stimuli,
        security_incident_count: incidents,
        storage_violation_count: known_count(violations),
        recent_execution_count: known_count(executions),
        recent_workflow_execution_count: known_count(workflow_executions),
    }
}

impl ListedViolations {
    /// The answer that shows the violations, and the failure, where there is one.
    pub open spec fn answer(self) -> http::ReplyView {
        let items = JsonView::Arr(
            self.items@.map_values(|v: StorageViolationView| v@.rendered()),
        );
        http::json_reply(
            200,
            match self.error {
                Some(e) => JsonView::object().with("error"@, JsonView::Str(e@)).with(
                    "items"@,
                    items,
                ),
                None => JsonView::object().with("items"@, items),
            },
        )
    }

    /// The answer that shows the violations, and the failure, where there is one.
    pub fn reply(&self) -> (r: Reply)
        ensures
            r@ == self.answer(),
    {
        let mut items: Vec<Json> = Vec::new();
        for i in 0..self.items.len()
            invariant
                items@.len() == i,
                forall|j: int| 0 <= j < i ==> #[trigger] items@[j]@ == self.items@[j]@.rendered(),
        {
            items.push(self.items[i].render());
        }
        assert(json::json_views(items@) =~= self.items@.map_values(
            |v: StorageViolationView| v@.rendered(),
        ));
        match &self.error {
            Some(e) => Reply::json(
                200,
                Json::object().with("error", Json::text(e.as_str())).with(
                    "items",
                    Json::array(items),
                ),
            ),
            None => Reply::items(items),
        }
    }
}

impl DashboardSummaryView {
    /// The JSON in which a summary is shown.
    pub open spec fn rendered(self) -> JsonView {
        JsonView::object().with(
            "generated_at"@,
            operator_read_models::moment_shown(self.generated_at),
        ).with(
            "uptime_seconds"@,
            JsonView::Int(self.uptime_seconds as int),
        ).with(
            "cluster"@,
            self.cluster.rendered(),
        ).with(
            "swarm_count"@,
            JsonView::Int(self.swarm_count as int),
        ).with(
            "stimulus_count"@,
            JsonView::Int(self.stimulus_count as int),
        ).with(
            "security_incident_count"@,
            JsonView::Int(self.security_incident_count as int),
        ).with(
            "storage_violation_count"@,
            JsonView::Int(self.storage_violation_count as int),
        ).with(
            "recent_execution_count"@,
            JsonView::Int(self.recent_execution_count as int),
        ).with(
            "recent_workflow_execution_count"@,
            JsonView::Int(self.recent_workflow_execution_count as int),
        )
    }

    /// The JSON in which a summary is shown.
    pub fn render(&self) -> (r: Json)
        ensures
            r@ == self.rendered(),
    {
        Json::object().with(
            "generated_at",
            operator_read_models::show_moment(self.generated_at),
        ).with(
            "uptime_seconds",
            Json::Int(self.uptime_seconds as i128),
        ).with(
            "cluster",
            self.cluster.render(),
        ).with(
            "swarm_count",
            Json::Int(self.swarm_count as i128),
        ).with(
            "stimulus_count",
            Json::Int(self.stimulus_count as i128),
        ).with(
            "security_incident_count",
            Json::Int(self.security_incident_count as i128),
        ).with(
            "storage_violation_count",
            Json::Int(self.storage_violation_count as i128),
        ).with(
            "recent_execution_count",
            Json::Int(self.recent_execution_count as i128),
        ).with(
            "recent_workflow_execution_count",
            Json::Int(self.recent_workflow_execution_count as i128),
        )
    }
}

/// The JSON in which a summary is shown: each part is found under its own name, as it
/// is.
pub proof fn law_dashboard_summary_view_rendered_holds_its_parts(
    row: DashboardSummaryView,
)
    ensures
        row.rendered().get("generated_at"@) == Some(operator_read_models::moment_shown(row.generated_at)),
        row.rendered().get("uptime_seconds"@) == Some(JsonView::Int(row.uptime_seconds as int)),
        row.rendered().get("cluster"@) == Some(row.cluster.rendered()),
        row.rendered().get("swarm_count"@) == Some(JsonView::Int(row.swarm_count as int)),
        row.rendered().get("stimulus_count"@) == Some(JsonView::Int(row.stimulus_count as int)),
        row.rendered().get("security_incident_count"@) == Some(JsonView::Int(row.security_incident_count as int)),
        row.rendered().get("storage_violation_count"@) == Some(JsonView::Int(row.storage_violation_count as int)),
        row.rendered().get("recent_execution_count"@) == Some(JsonView::Int(row.recent_execution_count as int)),
        row.rendered().get("recent_workflow_execution_count"@) == Some(JsonView::Int(row.recent_workflow_execution_count as int)),
{
    broadcast use crate::json::lemma_get_with;

    reveal_strlit("generated_at");
    reveal_strlit("uptime_seconds");
    reveal_strlit("cluster");
    reveal_strlit("swarm_count");
    reveal_strlit("stimulus_count");
    reveal_strlit("security_incident_count");
    reveal_strlit("storage_violation_count");
    reveal_strlit("recent_execution_count");
    reveal_strlit("recent_workflow_execution_count");
    assert("generated_at"@.len() == 12 && "uptime_seconds"@.len() == 14 && "cluster"@.len() == 7 && "swarm_count"@.len() == 11 && "stimulus_count"@.len() == 14 && "security_incident_count"@.len() == 23 && "storage_violation_count"@.len() == 23 && "recent_execution_count"@.len() == 22 && "recent_workflow_execution_count"@.len() == 31 && "stimulus_count"@[0] == 's' && "uptime_seconds"@[0] == 'u' && "storage_violation_count"@[1] == 't' && "security_incident_count"@[1] == 'e');
}

/// Every violation that was found is told, in its order, with the failure where there is
/// one; what could not be counted counts as nothing.
pub proof fn law_every_violation_is_told(listed: ListedViolations, n: usize, i: int)
    requires
        0 <= i < listed.items@.len(),
    ensures
        ({
            &&& listed.answer().status == 200
            &&& listed.answer().body matches Some(body)
            &&& body.get("items"@) matches Some(JsonView::Arr(items))
            &&& items.len() == listed.items@.len()
            &&& items[i] == listed.items@[i]@.rendered()
            &&& listed.error matches Some(e) ==> body.get("error"@) == Some(JsonView::Str(e@))
            &&& listed.error is None ==> body.get("error"@) is None
        }),
        count_or_zero(Some(n)) == n,
        count_or_zero(None) == 0,
{
    broadcast use crate::json::lemma_get_with;

    reveal_strlit("error");
    reveal_strlit("items");
    assert("error"@.len() == 5 && "items"@.len() == 5 && "items"@[0] == 'i' && "error"@[0] == 'e');
}

} // verus!
