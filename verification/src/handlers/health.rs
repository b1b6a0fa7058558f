//! Whether the daemon is up, and ready.

use crate::http;
use crate::http::Reply;
use crate::json::{Json, JsonView};
use vstd::prelude::*;

verus! {

/// The answer that says that the daemon is up.
pub fn health_reply(uptime_seconds: u64) -> (r: Reply)
    ensures
        r@ == http::json_reply(
            200,
            JsonView::object().with("status"@, JsonView::Str("healthy"@)).with(
                "mode"@,
                JsonView::Str("live"@),
            ).with("uptime_seconds"@, JsonView::Int(uptime_seconds as int)),
        ),
{
    Reply::json(
        200,
        Json::object().with("status", Json::text("healthy")).with("mode", Json::text("live")).with(
            "uptime_seconds",
            Json::Int(uptime_seconds as i128),
        ),
    )
}

/// What the daemon depends on, and what of it is there.
#[derive(Clone, Copy, PartialEq, Eq, Structural, Debug)]
pub struct Dependencies {
    pub temporal_configured: bool,
    pub temporal_connected: bool,
    pub database_configured: bool,
    pub has_registry: bool,
}

impl Dependencies {
    /// Whether the workflow engine is connected, or not asked for.
    pub open spec fn temporal_ready(self) -> bool {
        !self.temporal_configured || self.temporal_connected
    }

    /// Whether the registry of nodes is there, or no database is asked for.
    pub open spec fn database_ready(self) -> bool {
        !self.database_configured || self.has_registry
    }
}

/// The answer that says whether the daemon is ready.
pub fn readiness_reply(deps: Dependencies, uptime_seconds: u64) -> (r: Reply)
    ensures
        r@ == http::json_reply(
            200,
            JsonView::object().with(
                "status"@,
                JsonView::Str(
                    if deps.temporal_ready() && deps.database_ready() {
                        "ready"@
                    } else {
                        "degraded"@
                    },
                ),
            ).with("uptime_seconds"@, JsonView::Int(uptime_seconds as int)).with(
                "dependencies"@,
                JsonView::object().with("database"@, JsonView::Bool(deps.database_ready())).with(
                    "temporal"@,
                    JsonView::Bool(deps.temporal_ready()),
                ).with("cluster_repository"@, JsonView::Bool(deps.has_registry)),
            ),
        ),
{
    let temporal_ready = !deps.temporal_configured || deps.temporal_connected;
    let database_ready = !deps.database_configured || deps.has_registry;
    let status = if temporal_ready && database_ready { "ready" } else { "degraded" };
    Reply::json(
        200,
        Json::object().with("status", Json::text(status)).with(
            "uptime_seconds",
            Json::Int(uptime_seconds as i128),
        ).with(
            "dependencies",
            Json::object().with("database", Json::Bool(database_ready)).with(
                "temporal",
                Json::Bool(temporal_ready),
            ).with("cluster_repository", Json::Bool(deps.has_registry)),
        ),
    )
}

/// A node is ready where all that it is set up for is there.
pub proof fn law_what_is_set_up_must_be_there(d: Dependencies)
    ensures
        !d.temporal_configured ==> d.temporal_ready(),
        d.temporal_configured ==> (d.temporal_ready() <==> d.temporal_connected),
        !d.database_configured ==> d.database_ready(),
        d.database_configured ==> (d.database_ready() <==> d.has_registry),
{
}

} // verus!
