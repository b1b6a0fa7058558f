//! Requests that wait for a person's approval.

use crate::http;
use crate::http::Reply;
use crate::json::{Json, JsonView};
use crate::{primitives, text};
use vstd::prelude::*;

verus! {

/// What a person decided.
#[derive(Clone, Copy, PartialEq, Eq, Structural, Debug)]
pub enum Decision {
    Approve,
    Reject,
}

/// The answer that lists the requests that wait.
pub fn list_pending_reply(pending: Vec<Json>) -> (r: Reply)
    ensures
        r@ == http::json_reply(
            200,
            JsonView::object().with(
                "pending_requests"@,
                JsonView::Arr(crate::json::json_views(pending@)),
            ).with("count"@, JsonView::Int(pending@.len() as int)),
        ),
{
    let count: usize = pending.len();
    Reply::json(
        200,
        Json::object().with("pending_requests", Json::array(pending)).with(
            "count",
            Json::Int(count as i128),
        ),
    )
}

/// The request that an identifier names, given what the identifier denotes.
pub fn request_id_of(denoted: Option<u128>) -> (r: Result<u128, Reply>)
    ensures
        match denoted {
            Some(id) => r matches Ok(n) && n == id,
            None => r matches Err(reply) && reply@ == http::error_reply(200, "Invalid request ID"@),
        },
{
    match denoted {
        Some(id) => Ok(id),
        None => Err(Reply::error(200, "Invalid request ID")),
    }
}

/// The request that an identifier names.
pub fn request_id(id: &str) -> (r: Result<u128, Reply>)
    ensures
        match primitives::parsed_uuid(id@) {
            Some(n) => r matches Ok(m) && m == n,
            None => r matches Err(reply) && reply@ == http::error_reply(200, "Invalid request ID"@),
        },
{
    request_id_of(primitives::parse_uuid(id))
}

/// The answer about one request.
pub fn get_pending_reply(request: Option<Json>) -> (r: Reply)
    ensures
        r@ == (match request {
            Some(q) => http::json_reply(200, JsonView::object().with("request"@, q@)),
            None => http::error_reply(200, "Request not found or already completed"@),
        }),
{
    match request {
        Some(q) => Reply::json(200, Json::object().with("request", q)),
        None => Reply::error(200, "Request not found or already completed"),
    }
}

/// The answer to a decision on a request; the failure is missing where the decision
/// was taken.
pub fn decision_reply(decision: Decision, id: &str, failure: Option<&str>) -> (r: Reply)
    ensures
        r@ == (match text::opt_str_view(failure) {
            Some(e) => http::error_reply(200, e),
            None => http::json_reply(
                200,
                JsonView::object().with(
                    "status"@,
                    JsonView::Str(
                        if decision == Decision::Approve {
                            "approved"@
                        } else {
                            "rejected"@
                        },
                    ),
                ).with("request_id"@, JsonView::Str(id@)),
            ),
        }),
{
    match failure {
        Some(e) => Reply::error(200, e),
        None => {
            let status = match decision {
                Decision::Approve => "approved",
                Decision::Reject => "rejected",
            };
            Reply::json(
                200,
                Json::object().with("status", Json::text(status)).with("request_id", Json::text(id)),
            )
        },
    }
}

} // verus!
