//! Tenants of users: those that the identity provider reports, and those that are
//! made up for at login.

use crate::http;
use crate::http::Reply;
use crate::identity;
use crate::identity::{IdentityKind, IdentityKindView, UserIdentity, ZaruTier};
use crate::text;
use vstd::prelude::*;

verus! {

/// What is to be done about a report of the identity provider.
#[derive(Clone, Copy, PartialEq, Eq, Structural, Debug)]
pub enum KeycloakEventAction {
    /// Answer with the status.
    Answer(u16),
    /// Provision a tenant under the tier.
    Provision(ZaruTier),
}

/// What is to be done about a report of the identity provider: a registration leads
/// to a tenant under the lowest tier; every other report is taken note of.
pub open spec fn event_action(event_type: Seq<char>, configured: bool) -> KeycloakEventAction {
    if event_type != "REGISTER"@ {
        KeycloakEventAction::Answer(200)
    } else if !configured {
        KeycloakEventAction::Answer(503)
    } else {
        KeycloakEventAction::Provision(ZaruTier::Free)
    }
}

/// Decides what is to be done about a report of the identity provider.
pub fn keycloak_event(event_type: &str, configured: bool) -> (r: KeycloakEventAction)
    ensures
        r == event_action(event_type@, configured),
{
    if !text::str_eq(event_type, "REGISTER") {
        return KeycloakEventAction::Answer(200);
    }
    if !configured {
        return KeycloakEventAction::Answer(503);
    }
    KeycloakEventAction::Provision(ZaruTier::Free)
}

/// The status after a tenant was, or was not, provisioned.
pub fn keycloak_event_status(provisioned: bool) -> (r: u16)
    ensures
        r == (if provisioned {
            201u16
        } else {
            500u16
        }),
{
    if provisioned {
        201
    } else {
        500
    }
}

/// The tier under which a caller's tenant is to be provisioned at login, or the
/// answer where none is. Only consumers have a tenant of their own.
pub fn ensure_provisioned(caller: Option<&UserIdentity>, configured: bool) -> (r: Result<
    ZaruTier,
    Reply,
>)
    ensures
        match identity::opt_identity(caller) {
            None => r matches Err(reply) && reply@ == http::error_reply(
                401,
                "Authentication required"@,
            ),
            Some(i) => match i.identity_kind {
                IdentityKindView::ConsumerUser { zaru_tier, .. } => if configured {
                    r matches Ok(tier) && tier == zaru_tier
                } else {
                    r matches Err(reply) && reply@ == http::error_reply(
                        503,
                        "Tenant provisioning not configured"@,
                    )
                },
                _ => r matches Err(reply) && reply@ == http::empty_reply(204),
            },
        },
{
    match caller {
        None => Err(Reply::error(401, "Authentication required")),
        Some(i) => match &i.identity_kind {
            IdentityKind::ConsumerUser { zaru_tier, .. } => if configured {
                Ok(*zaru_tier)
            } else {
                Err(Reply::error(503, "Tenant provisioning not configured"))
            },
            _ => Err(Reply::empty(204)),
        },
    }
}

/// What came of provisioning a tenant at login.
#[derive(Clone, Copy, PartialEq, Eq, Structural, Debug)]
pub enum ProvisioningOutcome {
    Done,
    /// The identity provider does not know the user yet.
    UserNotReady,
    Failed,
}

/// The answer after a tenant was, or was not, provisioned at login.
pub fn ensure_provisioned_reply(outcome: ProvisioningOutcome) -> (r: Reply)
    ensures
        r@ == (match outcome {
            ProvisioningOutcome::Done => http::empty_reply(204),
            ProvisioningOutcome::UserNotReady => http::error_reply(
                503,
                "Keycloak user not yet materialised; retry shortly"@,
            ),
            ProvisioningOutcome::Failed => http::error_reply(500, "Tenant provisioning failed"@),
        }),
{
    match outcome {
        ProvisioningOutcome::Done => Reply::empty(204),
        ProvisioningOutcome::UserNotReady => Reply::error(
            503,
            "Keycloak user not yet materialised; retry shortly",
        ),
        ProvisioningOutcome::Failed => Reply::error(500, "Tenant provisioning failed"),
    }
}

/// A tenant is made for those who register, where that is set up, at the free tier; other
/// events are taken and left alone.
pub proof fn law_tenants_are_made_for_those_who_register(event_type: Seq<char>, configured: bool)
    ensures
        event_action("REGISTER"@, true) == KeycloakEventAction::Provision(ZaruTier::Free),
        event_action("REGISTER"@, false) == KeycloakEventAction::Answer(503),
        event_type != "REGISTER"@ ==> event_action(event_type, configured)
            == KeycloakEventAction::Answer(200),
{
}

} // verus!
