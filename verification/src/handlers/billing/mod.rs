//! Billing: prices, checkout, seats and what the payment provider reports.

use crate::handlers;
use crate::http::Reply;
use crate::identity::{TenantId, UserIdentity, UserIdentityView};
use crate::json::{Json, JsonView};
use crate::{http, identity};
use vstd::prelude::*;

pub mod catalog;
pub mod checkout;
pub mod report;
pub mod seats;
pub mod tier_writes;
pub mod tiers;
pub mod webhook;

verus! {

/// The answer where billing is not configured.
pub open spec fn not_implemented_answer() -> http::ReplyView {
    http::json_reply(
        501,
        JsonView::object().with("error"@, JsonView::Str("billing_not_configured"@)).with(
            "message"@,
            JsonView::Str("Stripe billing is not configured"@),
        ),
    )
}

/// The answer where billing is not configured.
pub fn not_implemented() -> (r: Reply)
    ensures
        r@ == not_implemented_answer(),
{
    Reply::json(
        501,
        Json::object().with("error", Json::text("billing_not_configured")).with(
            "message",
            Json::text("Stripe billing is not configured"),
        ),
    )
}

/// The secret key of the payment provider, where one is configured: the value that
/// the configuration resolves to, unless it is empty.
pub fn stripe_key(resolved: Option<String>) -> (r: Option<String>)
    ensures
        r == (match resolved {
            Some(key) => if key@.len() > 0 {
                Some(key)
            } else {
                None
            },
            None => None,
        }),
{
    match resolved {
        Some(key) => if key.as_str().is_empty() {
            None
        } else {
            Some(key)
        },
        None => None,
    }
}

/// Why a billing request is refused at the door, if it is: billing has to be
/// configured, the caller known, and the repository there.
pub open spec fn gate_refusal(
    configured: bool,
    identity: Option<UserIdentityView>,
    repository: bool,
) -> Option<http::ReplyView> {
    if !configured {
        Some(not_implemented_answer())
    } else if identity is None {
        Some(http::error_reply(401, "Authentication required"@))
    } else if !repository {
        Some(http::error_reply(503, "Billing repository not configured"@))
    } else {
        None
    }
}

/// Lets a billing request in for the caller's tenant, or refuses it.
pub fn billing_gate(
    configured: bool,
    identity: Option<&UserIdentity>,
    repository: bool,
    default_tenant: &TenantId,
) -> (r: Result<TenantId, Reply>)
    ensures
        match gate_refusal(configured, identity::opt_identity(identity), repository) {
            Some(refusal) => r matches Err(reply) && reply@ == refusal,
            None => r matches Ok(tenant) && tenant@ == handlers::tenant_of_identity(
                identity::opt_identity(identity),
                default_tenant@,
            ),
        },
{
    if !configured {
        return Err(not_implemented());
    }
    if identity.is_none() {
        return Err(Reply::error(401, "Authentication required"));
    }
    if !repository {
        return Err(Reply::error(503, "Billing repository not configured"));
    }
    Ok(handlers::tenant_id_from_identity(identity, default_tenant))
}

/// The answer where billing is not configured: each part is found under its own name,
/// as it is.
pub proof fn law_not_implemented_answer_holds_its_parts()
    ensures
        not_implemented_answer().status == 501,
        not_implemented_answer().body is Some,
        not_implemented_answer().body->Some_0.get("error"@) == Some(JsonView::Str("billing_not_configured"@)),
        not_implemented_answer().body->Some_0.get("message"@) == Some(JsonView::Str("Stripe billing is not configured"@)),
{
    broadcast use crate::json::lemma_get_with;

    reveal_strlit("error");
    reveal_strlit("message");
    assert("error"@.len() == 5 && "message"@.len() == 7);
}

/// Billing is open to a known caller where it is set up and has its store, and to nobody
/// else; what is missing is told.
pub proof fn law_billing_is_for_known_callers(
    configured: bool,
    identity: Option<UserIdentityView>,
    repository: bool,
)
    ensures
        gate_refusal(configured, identity, repository) is None <==> configured && identity is Some
            && repository,
        !configured ==> (gate_refusal(configured, identity, repository) matches Some(r) && r.status
            == 501),
        configured && identity is None ==> (gate_refusal(
            configured,
            identity,
            repository,
        ) matches Some(r) && r.status == 401),
        configured && identity is Some && !repository ==> (gate_refusal(
            configured,
            identity,
            repository,
        ) matches Some(r) && r.status == 503),
{
}

} // verus!
