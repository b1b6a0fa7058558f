//! Credentials of users, and secrets of the system.

use crate::http;
use crate::http::Reply;
use crate::identity;
use crate::identity::{AegisRole, IdentityKind, IdentityKindView, TenantId, UserIdentity, UserIdentityView};
use crate::json::{Json, JsonView};
use crate::json_value::Opened;
use crate::{json_value, primitives, text};
use vstd::prelude::*;

verus! {

/// The caller of a request about credentials, and the tenant, or the answer that
/// refuses it: consumers and users of tenants are let in.
pub open spec fn credential_owner(caller: Option<UserIdentityView>) -> Result<
    (Seq<char>, Seq<char>),
    http::ReplyView,
> {
    match caller {
        None => Err(http::error_reply(401, "Authentication required"@)),
        Some(i) => match i.identity_kind {
            IdentityKindView::ConsumerUser { tenant_id, .. } => Ok((i.sub, tenant_id)),
            IdentityKindView::TenantUser { tenant: Some(t), .. } => Ok((i.sub, t)),
            IdentityKindView::TenantUser { tenant: None, .. } => Err(
                http::error_reply(500, "Invalid tenant slug in identity"@),
            ),
            _ => Err(http::error_reply(403, "Consumer or tenant user identity required"@)),
        },
    }
}

/// Lets in consumers and users of tenants alone, and says who they are, and in which
/// tenant.
pub fn require_credential_scope(caller: Option<&UserIdentity>) -> (r: Result<
    (String, TenantId),
    Reply,
>)
    ensures
        match credential_owner(identity::opt_identity(caller)) {
            Ok(owner) => r matches Ok((sub, tenant)) && (sub@, tenant@) == owner,
            Err(refusal) => r matches Err(reply) && reply@ == refusal,
        },
{
    let i = match caller {
        Some(i) => i,
        None => {
            return Err(Reply::error(401, "Authentication required"));
        },
    };
    match &i.identity_kind {
        IdentityKind::ConsumerUser { tenant_id, .. } => Ok((i.sub.clone(), tenant_id.clone())),
        IdentityKind::TenantUser { tenant, .. } => match tenant {
            Some(t) => Ok((i.sub.clone(), t.clone())),
            None => Err(Reply::error(500, "Invalid tenant slug in identity")),
        },
        _ => Err(Reply::error(403, "Consumer or tenant user identity required")),
    }
}

/// Whether a caller may handle the secrets of the system.
pub open spec fn handles_secrets(caller: UserIdentityView) -> bool {
    caller.identity_kind matches IdentityKindView::Operator { aegis_role } && (aegis_role
        == AegisRole::Operator || aegis_role == AegisRole::Admin)
}

/// Lets in operators and administrators alone, and says who they are.
pub fn require_operator_or_admin(caller: Option<&UserIdentity>) -> (r: Result<String, Reply>)
    ensures
        match identity::opt_identity(caller) {
            None => r matches Err(reply) && reply@ == http::error_reply(
                401,
                "Authentication required"@,
            ),
            Some(i) => if handles_secrets(i) {
                r matches Ok(sub) && sub@ == i.sub
            } else {
                r matches Err(reply) && reply@ == http::error_reply(
                    403,
                    "Operator or Admin role required"@,
                )
            },
        },
{
    let i = match caller {
        Some(i) => i,
        None => {
            return Err(Reply::error(401, "Authentication required"));
        },
    };
    let admitted = match &i.identity_kind {
        IdentityKind::Operator { aegis_role } => match aegis_role {
            AegisRole::Operator | AegisRole::Admin => true,
            AegisRole::Readonly => false,
        },
        _ => false,
    };
    if admitted {
        Ok(i.sub.clone())
    } else {
        Err(Reply::error(403, "Operator or Admin role required"))
    }
}

/// Who a credential is for.
pub enum CredentialProvider {
    OpenAI,
    Anthropic,
    GitHub,
    GoogleWorkspace,
    Custom(String),
}

/// The mathematical content of who a credential is for.
pub enum CredentialProviderView {
    OpenAI,
    Anthropic,
    GitHub,
    GoogleWorkspace,
    Custom(Seq<char>),
}

impl View for CredentialProvider {
    type V = CredentialProviderView;

    open spec fn view(&self) -> CredentialProviderView {
        match *self {
            CredentialProvider::OpenAI => CredentialProviderView::OpenAI,
            CredentialProvider::Anthropic => CredentialProviderView::Anthropic,
            CredentialProvider::GitHub => CredentialProviderView::GitHub,
            CredentialProvider::GoogleWorkspace => CredentialProviderView::GoogleWorkspace,
            CredentialProvider::Custom(name) => CredentialProviderView::Custom(name@),
        }
    }
}

/// Who a credential is for, by name. Every name but the empty one is somebody's.
pub open spec fn provider_named(name: Seq<char>) -> Option<CredentialProviderView> {
    if name == "openai"@ {
        Some(CredentialProviderView::OpenAI)
    } else if name == "anthropic"@ {
        Some(CredentialProviderView::Anthropic)
    } else if name == "github"@ {
        Some(CredentialProviderView::GitHub)
    } else if name == "google_workspace"@ {
        Some(CredentialProviderView::GoogleWorkspace)
    } else if name.len() > 0 {
        Some(CredentialProviderView::Custom(name))
    } else {
        None
    }
}

/// The answer where the name of a provider is empty.
pub open spec fn no_provider() -> http::ReplyView {
    http::error_reply(400, "Provider name must not be empty"@)
}

/// Who a credential is for, by name, or why the name was refused.
pub fn parse_provider(s: &str) -> (r: Result<CredentialProvider, Reply>)
    ensures
        match provider_named(s@) {
            Some(provider) => r matches Ok(p) && p@ == provider,
            None => r matches Err(reply) && reply@ == no_provider(),
        },
{
    if text::str_eq(s, "openai") {
        Ok(CredentialProvider::OpenAI)
    } else if text::str_eq(s, "anthropic") {
        Ok(CredentialProvider::Anthropic)
    } else if text::str_eq(s, "github") {
        Ok(CredentialProvider::GitHub)
    } else if text::str_eq(s, "google_workspace") {
        Ok(CredentialProvider::GoogleWorkspace)
    } else if !s.is_empty() {
        Ok(CredentialProvider::Custom(s.to_owned()))
    } else {
        Err(Reply::error(400, "Provider name must not be empty"))
    }
}

/// Who may use a credential.
#[derive(Clone, Copy, PartialEq, Eq, Structural, Debug)]
pub enum CredentialScope {
    Personal,
    Team { team_id: u128 },
}

/// The text after the prefix of a team's scope.
pub open spec fn team_text(scope: Seq<char>) -> Seq<char> {
    scope.skip("team:"@.len() as int)
}

/// Who may use a credential, by what a request says, and the team that its text
/// denotes; or why it was refused.
pub open spec fn scope_of(scope: Option<Seq<char>>, team: Option<u128>) -> Result<
    CredentialScope,
    Seq<char>,
> {
    match scope {
        None => Ok(CredentialScope::Personal),
        Some(s) => if s == "personal"@ {
            Ok(CredentialScope::Personal)
        } else if "team:"@.is_prefix_of(s) {
            match team {
                Some(team_id) => Ok(CredentialScope::Team { team_id }),
                None => Err("Invalid team UUID in scope: "@ + team_text(s)),
            }
        } else {
            Err("Invalid scope: "@ + s + ". Expected 'personal' or 'team:<uuid>'"@)
        },
    }
}

/// Who may use a credential, given the team that its text denotes.
pub fn credential_scope_of(scope: Option<&str>, team: Option<u128>) -> (r: Result<
    CredentialScope,
    Reply,
>)
    ensures
        match scope_of(text::opt_str_view(scope), team) {
            Ok(s) => r == Ok::<CredentialScope, Reply>(s),
            Err(message) => r matches Err(reply) && reply@ == http::error_reply(400, message),
        },
{
    let s = match scope {
        Some(s) => s,
        None => {
            return Ok(CredentialScope::Personal);
        },
    };
    if text::str_eq(s, "personal") {
        return Ok(CredentialScope::Personal);
    }
    match text::strip_prefix(s, "team:") {
        Some(rest) => match team {
            Some(team_id) => Ok(CredentialScope::Team { team_id }),
            None => {
                let message = "Invalid team UUID in scope: ".to_owned().concat(rest.as_str());
                Err(Reply::error(400, message.as_str()))
            },
        },
        None => {
            let message = "Invalid scope: ".to_owned().concat(s).concat(
                ". Expected 'personal' or 'team:<uuid>'",
            );
            Err(Reply::error(400, message.as_str()))
        },
    }
}

/// The team that a scope denotes, where it denotes one.
pub open spec fn denoted_team(scope: Option<Seq<char>>) -> Option<u128> {
    match scope {
        Some(s) => if "team:"@.is_prefix_of(s) {
            primitives::parsed_uuid(team_text(s))
        } else {
            None
        },
        None => None,
    }
}

/// Who may use a credential, by what a request says.
pub fn parse_credential_scope(scope: Option<&str>) -> (r: Result<CredentialScope, Reply>)
    ensures
        match scope_of(text::opt_str_view(scope), denoted_team(text::opt_str_view(scope))) {
            Ok(s) => r == Ok::<CredentialScope, Reply>(s),
            Err(message) => r matches Err(reply) && reply@ == http::error_reply(400, message),
        },
{
    let team: Option<u128> = match scope {
        Some(s) => match text::strip_prefix(s, "team:") {
            Some(rest) => primitives::parse_uuid(rest.as_str()),
            None => None,
        },
        None => None,
    };
    credential_scope_of(scope, team)
}

/// Who is granted the use of a credential.
#[derive(Clone, Copy, PartialEq, Eq, Structural, Debug)]
pub enum GrantTarget {
    AllAgents,
    Agent { agent_id: u128 },
    Workflow { workflow_id: u128 },
}

/// Who is granted the use of a credential, by what a request says, and the identifier
/// that its text denotes; or why it was refused.
pub open spec fn target_of(
    target_type: Seq<char>,
    target_value: Option<Seq<char>>,
    id: Option<u128>,
) -> Result<GrantTarget, Seq<char>> {
    if target_type == "all_agents"@ {
        Ok(GrantTarget::AllAgents)
    } else if target_type == "agent"@ {
        match (target_value, id) {
            (None, _) => Err("target_value is required for agent grants"@),
            (Some(_), Some(agent_id)) => Ok(GrantTarget::Agent { agent_id }),
            (Some(v), None) => Err("Invalid agent UUID: "@ + v),
        }
    } else if target_type == "workflow"@ {
        match (target_value, id) {
            (None, _) => Err("target_value is required for workflow grants"@),
            (Some(_), Some(workflow_id)) => Ok(GrantTarget::Workflow { workflow_id }),
            (Some(v), None) => Err("Invalid workflow UUID: "@ + v),
        }
    } else {
        Err(
            "Invalid target_type: "@ + target_type
                + ". Expected 'agent', 'workflow', or 'all_agents'"@,
        )
    }
}

/// Who is granted the use of a credential, given the identifier that the text denotes.
pub fn grant_target_of(target_type: &str, target_value: Option<&str>, id: Option<u128>) -> (r:
    Result<GrantTarget, Reply>)
    ensures
        match target_of(target_type@, text::opt_str_view(target_value), id) {
            Ok(t) => r == Ok::<GrantTarget, Reply>(t),
            Err(message) => r matches Err(reply) && reply@ == http::error_reply(400, message),
        },
{
    if text::str_eq(target_type, "all_agents") {
        Ok(GrantTarget::AllAgents)
    } else if text::str_eq(target_type, "agent") {
        match (target_value, id) {
            (None, _) => Err(Reply::error(400, "target_value is required for agent grants")),
            (Some(_), Some(agent_id)) => Ok(GrantTarget::Agent { agent_id }),
            (Some(v), None) => {
                let message = "Invalid agent UUID: ".to_owned().concat(v);
                Err(Reply::error(400, message.as_str()))
            },
        }
    } else if text::str_eq(target_type, "workflow") {
        match (target_value, id) {
            (None, _) => Err(Reply::error(400, "target_value is required for workflow grants")),
            (Some(_), Some(workflow_id)) => Ok(GrantTarget::Workflow { workflow_id }),
            (Some(v), None) => {
                let message = "Invalid workflow UUID: ".to_owned().concat(v);
                Err(Reply::error(400, message.as_str()))
            },
        }
    } else {
        let message = "Invalid target_type: ".to_owned().concat(target_type).concat(
            ". Expected 'agent', 'workflow', or 'all_agents'",
        );
        Err(Reply::error(400, message.as_str()))
    }
}

/// The identifier that an optional text denotes.
pub open spec fn denoted_id(value: Option<Seq<char>>) -> Option<u128> {
    match value {
        Some(v) => primitives::parsed_uuid(v),
        None => None,
    }
}

/// Who is granted the use of a credential, by what a request says.
pub fn parse_grant_target(target_type: &str, target_value: Option<&str>) -> (r: Result<
    GrantTarget,
    Reply,
>)
    ensures
        match target_of(
            target_type@,
            text::opt_str_view(target_value),
            denoted_id(text::opt_str_view(target_value)),
        ) {
            Ok(t) => r == Ok::<GrantTarget, Reply>(t),
            Err(message) => r matches Err(reply) && reply@ == http::error_reply(400, message),
        },
{
    let id: Option<u128> = match target_value {
        Some(v) => primitives::parse_uuid(v),
        None => None,
    };
    grant_target_of(target_type, target_value, id)
}

/// The identifier that a text denotes, or the answer that refuses the text after a
/// word on what was expected.
pub fn id_or_refusal(denoted: Option<u128>, expected: &str, id: &str) -> (r: Result<u128, Reply>)
    ensures
        match denoted {
            Some(n) => r matches Ok(m) && m == n,
            None => r matches Err(reply) && reply@ == http::error_reply(400, expected@ + id@),
        },
{
    match denoted {
        Some(n) => Ok(n),
        None => {
            let message = expected.to_owned().concat(id);
            Err(Reply::error(400, message.as_str()))
        },
    }
}

/// The credential that a text identifies.
pub fn parse_binding_id(id: &str) -> (r: Result<u128, Reply>)
    ensures
        match primitives::parsed_uuid(id@) {
            Some(n) => r matches Ok(m) && m == n,
            None => r matches Err(reply) && reply@ == http::error_reply(
                400,
                "Invalid credential binding ID: "@ + id@,
            ),
        },
{
    id_or_refusal(primitives::parse_uuid(id), "Invalid credential binding ID: ", id)
}

/// The grant that a text identifies.
pub fn parse_grant_id(id: &str) -> (r: Result<u128, Reply>)
    ensures
        match primitives::parsed_uuid(id@) {
            Some(n) => r matches Ok(m) && m == n,
            None => r matches Err(reply) && reply@ == http::error_reply(
                400,
                "Invalid grant ID: "@ + id@,
            ),
        },
{
    id_or_refusal(primitives::parse_uuid(id), "Invalid grant ID: ", id)
}

/// The answer where there is no service for credentials.
pub open spec fn no_credentials() -> http::ReplyView {
    http::error_reply(503, "Credential service not configured"@)
}

/// The answer where there is no service for credentials, if there is none.
pub fn credential_service(configured: bool) -> (r: Result<(), Reply>)
    ensures
        if configured {
            r is Ok
        } else {
            r matches Err(reply) && reply@ == no_credentials()
        },
{
    if configured {
        Ok(())
    } else {
        Err(Reply::error(503, "Credential service not configured"))
    }
}

/// The answer to a body that could not be read, or is not the JSON that is asked for.
pub open spec fn bad_body(json_flaw: Option<Seq<char>>) -> http::ReplyView {
    match json_flaw {
        Some(e) => http::error_reply(400, "Invalid JSON: "@ + e),
        None => http::error_reply(400, "Invalid request body"@),
    }
}

/// The answer to a body that could not be read, or is not the JSON that is asked for.
pub fn bad_body_reply(json_flaw: Option<&str>) -> (r: Reply)
    ensures
        r@ == bad_body(text::opt_str_view(json_flaw)),
{
    match json_flaw {
        Some(e) => {
            let message = "Invalid JSON: ".to_owned().concat(e);
            Reply::error(400, message.as_str())
        },
        None => Reply::error(400, "Invalid request body"),
    }
}

/// The answer that lists things under a name, with their number.
pub open spec fn counted(name: Seq<char>, items: Seq<JsonView>) -> http::ReplyView {
    http::json_reply(
        200,
        JsonView::object().with(name, JsonView::Arr(items)).with(
            "count"@,
            JsonView::Int(items.len() as int),
        ),
    )
}

fn counted_reply(name: &str, items: Vec<Json>) -> (r: Reply)
    ensures
        r@ == counted(name@, crate::json::json_views(items@)),
{
    let count: usize = items.len();
    Reply::json(
        200,
        Json::object().with(name, Json::array(items)).with("count", Json::Int(count as i128)),
    )
}

/// The answer that lists credentials.
pub fn list_credentials_reply(outcome: Result<Vec<Json>, String>) -> (r: Reply)
    ensures
        r@ == (match outcome {
            Ok(bindings) => counted("credentials"@, crate::json::json_views(bindings@)),
            Err(e) => http::error_reply(500, e@),
        }),
{
    match outcome {
        Ok(bindings) => counted_reply("credentials", bindings),
        Err(e) => Reply::error(500, e.as_str()),
    }
}

/// The answer about one credential.
pub fn get_credential_reply(outcome: Result<Option<Json>, String>) -> (r: Reply)
    ensures
        r@ == (match outcome {
            Ok(Some(binding)) => http::json_reply(
                200,
                JsonView::object().with("credential"@, binding@),
            ),
            Ok(None) => http::error_reply(404, "Credential binding not found"@),
            Err(e) => http::error_reply(500, e@),
        }),
{
    match outcome {
        Ok(Some(binding)) => Reply::json(200, Json::object().with("credential", binding)),
        Ok(None) => Reply::error(404, "Credential binding not found"),
        Err(e) => Reply::error(500, e.as_str()),
    }
}

/// The answer that lists the grants of a credential.
pub fn list_grants_reply(outcome: Result<Option<Vec<Json>>, String>) -> (r: Reply)
    ensures
        r@ == (match outcome {
            Ok(Some(grants)) => counted("grants"@, crate::json::json_views(grants@)),
            Ok(None) => http::error_reply(404, "Credential binding not found"@),
            Err(e) => http::error_reply(500, e@),
        }),
{
    match outcome {
        Ok(Some(grants)) => counted_reply("grants", grants),
        Ok(None) => Reply::error(404, "Credential binding not found"),
        Err(e) => Reply::error(500, e.as_str()),
    }
}

/// The answer to something that was stored under a new identifier.
pub fn stored_reply(key: &str, outcome: Result<String, String>) -> (r: Reply)
    ensures
        r@ == (match outcome {
            Ok(id) => http::json_reply(201, JsonView::object().with(key@, JsonView::Str(id@))),
            Err(e) => http::error_reply(500, e@),
        }),
{
    match outcome {
        Ok(id) => Reply::json(201, Json::object().with(key, Json::Str(id))),
        Err(e) => Reply::error(500, e.as_str()),
    }
}

/// The answer to something that was done to what an identifier names; the failure is
/// missing where it was done.
pub fn done_reply(done: &str, key: &str, id: &str, failure: Option<&str>) -> (r: Reply)
    ensures
        r@ == (match text::opt_str_view(failure) {
            Some(e) => http::error_reply(500, e),
            None => http::json_reply(
                200,
                JsonView::object().with("status"@, JsonView::Str(done@)).with(
                    key@,
                    JsonView::Str(id@),
                ),
            ),
        }),
{
    match failure {
        Some(e) => Reply::error(500, e),
        None => Reply::json(
            200,
            Json::object().with("status", Json::text(done)).with(key, Json::text(id)),
        ),
    }
}

/// The answer to a connection that was begun.
pub fn oauth_initiate_reply(outcome: Result<(String, String), String>) -> (r: Reply)
    ensures
        r@ == (match outcome {
            Ok((url, state)) => http::json_reply(
                200,
                JsonView::object().with("authorization_url"@, JsonView::Str(url@)).with(
                    "state"@,
                    JsonView::Str(state@),
                ),
            ),
            Err(e) => http::error_reply(500, e@),
        }),
{
    match outcome {
        Ok((url, state)) => Reply::json(
            200,
            Json::object().with("authorization_url", Json::Str(url)).with(
                "state",
                Json::Str(state),
            ),
        ),
        Err(e) => Reply::error(500, e.as_str()),
    }
}

/// Whether a failure says that there is no such connection to complete.
pub open spec fn nothing_pending(message: Seq<char>) -> bool {
    text::occurs("invalid or expired"@, message) || text::occurs("not found"@, message)
}

fn says_nothing_pending(message: &str) -> (r: bool)
    ensures
        r == nothing_pending(message@),
{
    text::contains(message, "invalid or expired") || text::contains(message, "not found")
}

/// The answer to a connection that was completed.
pub fn oauth_callback_reply(outcome: Result<String, String>) -> (r: Reply)
    ensures
        r@ == (match outcome {
            Ok(id) => http::json_reply(
                200,
                JsonView::object().with("id"@, JsonView::Str(id@)).with(
                    "status"@,
                    JsonView::Str("active"@),
                ),
            ),
            Err(e) => http::error_reply(
                if nothing_pending(e@) {
                    400
                } else {
                    500
                },
                e@,
            ),
        }),
{
    match outcome {
        Ok(id) => Reply::json(
            200,
            Json::object().with("id", Json::Str(id)).with("status", Json::text("active")),
        ),
        Err(e) => {
            let status: u16 = if says_nothing_pending(e.as_str()) { 400 } else { 500 };
            Reply::error(status, e.as_str())
        },
    }
}

/// The answer to a device that asks whether its connection is complete: it is to wait
/// while there is none.
pub fn device_poll_reply(provider: &str, outcome: Result<String, String>) -> (r: Reply)
    ensures
        r@ == (match outcome {
            Ok(id) => http::json_reply(
                200,
                JsonView::object().with("status"@, JsonView::Str("complete"@)).with(
                    "binding_id"@,
                    JsonView::Str(id@),
                ),
            ),
            Err(e) => if nothing_pending(e@) {
                http::json_reply(
                    202,
                    JsonView::object().with("status"@, JsonView::Str("pending"@)).with(
                        "provider"@,
                        JsonView::Str(provider@),
                    ),
                )
            } else {
                http::error_reply(500, e@)
            },
        }),
{
    match outcome {
        Ok(id) => Reply::json(
            200,
            Json::object().with("status", Json::text("complete")).with(
                "binding_id",
                Json::Str(id),
            ),
        ),
        Err(e) => if says_nothing_pending(e.as_str()) {
            Reply::json(
                202,
                Json::object().with("status", Json::text("pending")).with(
                    "provider",
                    Json::text(provider),
                ),
            )
        } else {
            Reply::error(500, e.as_str())
        },
    }
}

/// The answer to a request to list secrets, which are not listed.
pub fn list_secrets(caller: Option<&UserIdentity>) -> (r: Reply)
    ensures
        r@ == (match identity::opt_identity(caller) {
            None => http::error_reply(401, "Authentication required"@),
            Some(i) => if handles_secrets(i) {
                http::error_reply(501, "Secret listing is not supported via this endpoint"@)
            } else {
                http::error_reply(403, "Operator or Admin role required"@)
            },
        }),
{
    match require_operator_or_admin(caller) {
        Ok(_) => Reply::error(501, "Secret listing is not supported via this endpoint"),
        Err(reply) => reply,
    }
}

/// What came of reading a secret.
pub enum SecretRead {
    /// Its fields, each with its name and what it holds.
    Fields(Vec<(String, String)>),
    NotFound,
    Failed(String),
}

/// The names of the fields of a secret.
pub open spec fn field_names(fields: Seq<(String, String)>) -> Seq<Seq<char>> {
    fields.map_values(|f: (String, String)| f.0@)
}

fn names_of(fields: Vec<(String, String)>) -> (r: Vec<String>)
    ensures
        text::views(r@) == field_names(fields@),
{
    let mut names: Vec<String> = Vec::new();
    let mut i: usize = 0;
    while i < fields.len()
        invariant
            i <= fields@.len(),
            names@.len() == i,
            forall|j: int| 0 <= j < i ==> (#[trigger] names@[j])@ == fields@[j].0@,
        decreases fields@.len() - i,
    {
        names.push(fields[i].0.clone());
        i += 1;
    }
    assert(text::views(names@) =~= field_names(fields@));
    names
}

/// The answer about a secret: the names of its fields, never what they hold.
pub open spec fn secret_answer(path: Seq<char>, outcome: SecretRead) -> http::ReplyView {
    match outcome {
        SecretRead::Fields(fields) => http::json_reply(
            200,
            JsonView::object().with("path"@, JsonView::Str(path)).with(
                "fields"@,
                JsonView::Arr(field_names(fields@).map_values(|n: Seq<char>| JsonView::Str(n))),
            ),
        ),
        SecretRead::NotFound => http::json_reply(
            404,
            JsonView::object().with("error"@, JsonView::Str("Secret not found"@)).with(
                "path"@,
                JsonView::Str(path),
            ),
        ),
        SecretRead::Failed(e) => http::error_reply(500, e@),
    }
}

/// The answer about a secret.
pub fn get_secret_reply(path: &str, outcome: SecretRead) -> (r: Reply)
    ensures
        r@ == secret_answer(path@, outcome),
{
    match outcome {
        SecretRead::Fields(fields) => {
            let ghost all = fields@;
            let names = names_of(fields);
            assert(names@.map_values(|s: String| JsonView::Str(s@)) =~= field_names(all).map_values(
                |n: Seq<char>| JsonView::Str(n),
            )) by {
                assert(text::views(names@).len() == names@.len());
                assert forall|i: int| 0 <= i < names@.len() implies #[trigger] names@[i]@
                    == field_names(all)[i] by {
                    assert(text::views(names@)[i] == names@[i]@);
                }
            }
            Reply::json(
                200,
                Json::object().with("path", Json::text(path)).with("fields", Json::texts(&names)),
            )
        },
        SecretRead::NotFound => Reply::json(
            404,
            Json::object().with("error", Json::text("Secret not found")).with(
                "path",
                Json::text(path),
            ),
        ),
        SecretRead::Failed(e) => Reply::error(500, e.as_str()),
    }
}

/// What a secret holds is not shown: two secrets whose fields have the same names are
/// answered alike, whatever they hold.
pub proof fn law_secret_values_are_not_shown(
    path: Seq<char>,
    one: Vec<(String, String)>,
    other: Vec<(String, String)>,
)
    requires
        field_names(one@) == field_names(other@),
    ensures
        secret_answer(path, SecretRead::Fields(one)) == secret_answer(
            path,
            SecretRead::Fields(other),
        ),
{
}

/// What a field of a secret holds, given how its value is written down: a text as it
/// is, anything else as it is written.
pub open spec fn text_or(value: JsonView, written: Seq<char>) -> Seq<char> {
    match value {
        JsonView::Str(s) => s,
        _ => written,
    }
}

/// What a field of a secret holds, given how its value is written down.
pub fn field_of(value: &Json, written: &str) -> (r: String)
    ensures
        r@ == text_or(value@, written@),
{
    match value.as_str() {
        Some(s) => s.to_owned(),
        None => written.to_owned(),
    }
}

/// What a field of a secret is to hold: a text as it is, anything else written down as
/// JSON.
pub open spec fn field_text(value: JsonView) -> Seq<char> {
    text_or(value, json_value::compact_json(value))
}

/// The fields that a request to write a secret gives.
pub fn secret_fields(data: &serde_json::Value) -> (r: Result<Vec<(String, String)>, Reply>)
    ensures
        match json_value::value_holds(*data) {
            JsonView::Obj(members) => r matches Ok(fields) && fields@.map_values(
                |f: (String, String)| (f.0@, f.1@),
            ) == members.map_values(|m: (Seq<char>, JsonView)| (m.0, field_text(m.1))),
            _ => r matches Err(reply) && reply@ == http::error_reply(
                400,
                "'data' must be a JSON object"@,
            ),
        },
{
    match json_value::open_value(data) {
        Opened::Members(members) => {
            let ghost all = json_value::value_holds(*data)->Obj_0;
            let mut fields: Vec<(String, String)> = Vec::new();
            let mut i: usize = 0;
            while i < members.len()
                invariant
                    i <= members@.len(),
                    all == members@.map_values(
                        |m: (&String, &serde_json::Value)| (
                            m.0@,
                            json_value::value_holds(*m.1),
                        ),
                    ),
                    fields@.len() == i,
                    forall|k: int|
                        0 <= k < i ==> (#[trigger] fields@[k]).0@ == all[k].0 && fields@[k].1@
                            == field_text(all[k].1),
                decreases members@.len() - i,
            {
                assert(all[i as int] == (
                    members@[i as int].0@,
                    json_value::value_holds(*members@[i as int].1),
                ));
                let written = json_value::compact_value(members[i].1);
                let value = field_of(&json_value::read_value(members[i].1), written.as_str());
                fields.push((members[i].0.clone(), value));
                i += 1;
            }
            assert(fields@.map_values(|f: (String, String)| (f.0@, f.1@)) =~= all.map_values(
                |m: (Seq<char>, JsonView)| (m.0, field_text(m.1)),
            ));
            Ok(fields)
        },
        _ => Err(Reply::error(400, "'data' must be a JSON object")),
    }
}

/// Credentials are for users: an operator, an administrator or a service is refused,
/// and secrets of the system are for operators and administrators: no user is let in.
pub proof fn law_users_and_operators_are_kept_apart(caller: UserIdentityView)
    ensures
        caller.identity_kind is ConsumerUser || caller.identity_kind is TenantUser
            ==> !handles_secrets(caller),
        caller.identity_kind is ServiceAccount ==> !handles_secrets(caller),
        handles_secrets(caller) ==> credential_owner(Some(caller)) is Err,
        caller.identity_kind == (IdentityKindView::Operator { aegis_role: AegisRole::Readonly })
            ==> !handles_secrets(caller),
{
}

/// The owner of a credential is the caller in their own tenant: consumers and the users of
/// a known tenant, and nobody else.
pub proof fn law_credentials_belong_to_users(i: UserIdentityView)
    ensures
        credential_owner(None) matches Err(r) && r.status == 401,
        i.identity_kind matches IdentityKindView::ConsumerUser { tenant_id, .. }
            ==> credential_owner(Some(i)) == Ok::<(Seq<char>, Seq<char>), http::ReplyView>(
            (i.sub, tenant_id),
        ),
        i.identity_kind matches IdentityKindView::TenantUser { tenant: Some(t), .. }
            ==> credential_owner(Some(i)) == Ok::<(Seq<char>, Seq<char>), http::ReplyView>(
            (i.sub, t),
        ),
        i.identity_kind is Operator || i.identity_kind is ServiceAccount ==> (credential_owner(
            Some(i),
        ) matches Err(r) && r.status == 403),
        i.identity_kind matches IdentityKindView::TenantUser { tenant: None, .. } ==> (
        credential_owner(Some(i)) matches Err(r) && r.status == 500),
{
}

/// Secrets are in the hands of operators and administrators only.
pub proof fn law_secrets_are_for_operators(caller: UserIdentityView, aegis_role: AegisRole)
    requires
        caller.identity_kind == (IdentityKindView::Operator { aegis_role }),
    ensures
        handles_secrets(caller) <==> aegis_role != AegisRole::Readonly,
{
}

/// Nobody who is no operator handles secrets.
pub proof fn law_secrets_are_for_nobody_else(caller: UserIdentityView)
    requires
        !(caller.identity_kind is Operator),
    ensures
        !handles_secrets(caller),
{
}

/// The four known providers have their own names; every other name is that of a provider of
/// the user's own, and only the empty one is of none.
pub proof fn law_providers_are_told_apart(name: Seq<char>)
    ensures
        provider_named(name) is None <==> name.len() == 0,
        provider_named(name) == Some(CredentialProviderView::OpenAI) <==> name == "openai"@,
        provider_named(name) == Some(CredentialProviderView::Anthropic) <==> name
            == "anthropic"@,
        provider_named(name) == Some(CredentialProviderView::GitHub) <==> name == "github"@,
        provider_named(name) == Some(CredentialProviderView::GoogleWorkspace) <==> name
            == "google_workspace"@,
        provider_named(name) matches Some(CredentialProviderView::Custom(own)) ==> own == name,
{
    reveal_strlit("openai");
    reveal_strlit("anthropic");
    reveal_strlit("github");
    reveal_strlit("google_workspace");
    assert("openai"@.len() == 6 && "anthropic"@.len() == 9 && "github"@.len() == 6 && "google_workspace"@.len() == 16 && "github"@[0] == 'g' && "openai"@[0] == 'o');
}

/// A credential is personal unless its scope names a team by its identifier.
pub proof fn law_credentials_are_personal_or_a_teams(scope: Seq<char>, team: Option<u128>, id: u128)
    ensures
        scope_of(None, team) == Ok::<CredentialScope, Seq<char>>(CredentialScope::Personal),
        scope_of(Some("personal"@), team) == Ok::<CredentialScope, Seq<char>>(
            CredentialScope::Personal,
        ),
        scope_of(Some("team:"@ + scope), Some(id)) == Ok::<CredentialScope, Seq<char>>(
            CredentialScope::Team { team_id: id },
        ),
        scope_of(Some("team:"@ + scope), None) is Err,
        scope != "personal"@ && !("team:"@.is_prefix_of(scope)) ==> scope_of(
            Some(scope),
            team,
        ) is Err,
        denoted_team(Some("team:"@ + scope)) == primitives::parsed_uuid(scope),
        denoted_team(None) is None,
{
    reveal_strlit("team:");
    reveal_strlit("personal");
    let named = "team:"@ + scope;
    assert(named[0] == 't');
    assert("personal"@[0] == 'p');
    assert(named.take("team:"@.len() as int) =~= "team:"@);
    assert(named.skip("team:"@.len() as int) =~= scope);
    assert("team:"@.is_prefix_of(named));
}

/// A grant is for all agents, for one agent or for one workflow, as its type says, and the
/// one that it is for is the one that its value denotes.
pub proof fn law_grants_reach_what_they_name(value: Seq<char>, id: u128, other: Seq<char>)
    requires
        other != "all_agents"@,
        other != "agent"@,
        other != "workflow"@,
    ensures
        target_of("all_agents"@, None, None) == Ok::<GrantTarget, Seq<char>>(
            GrantTarget::AllAgents,
        ),
        target_of("agent"@, Some(value), Some(id)) == Ok::<GrantTarget, Seq<char>>(
            GrantTarget::Agent { agent_id: id },
        ),
        target_of("workflow"@, Some(value), Some(id)) == Ok::<GrantTarget, Seq<char>>(
            GrantTarget::Workflow { workflow_id: id },
        ),
        target_of("agent"@, None, Some(id)) is Err,
        target_of("workflow"@, None, Some(id)) is Err,
        target_of("agent"@, Some(value), None) is Err,
        target_of("workflow"@, Some(value), None) is Err,
        target_of(other, Some(value), Some(id)) is Err,
        denoted_id(Some(value)) == primitives::parsed_uuid(value),
        denoted_id(None) is None,
{
    reveal_strlit("all_agents");
    reveal_strlit("agent");
    reveal_strlit("workflow");
    assert("all_agents"@.len() == 10 && "agent"@.len() == 5 && "workflow"@.len() == 8);
}

/// A list is told whole, under its name, with its length.
pub proof fn law_counted_items_are_all_told(name: Seq<char>, items: Seq<JsonView>)
    requires
        name != "count"@,
    ensures
        counted(name, items).status == 200,
        counted(name, items).body matches Some(body) && body.get(name) == Some(
            JsonView::Arr(items),
        ) && body.get("count"@) == Some(JsonView::Int(items.len() as int)),
{
    broadcast use crate::json::lemma_get_with;

}

/// Of a secret the names of all its fields are told, and none of their values.
pub proof fn law_a_secret_is_told_by_its_field_names(
    path: Seq<char>,
    fields: Vec<(String, String)>,
    e: String,
    i: int,
)
    requires
        0 <= i < fields@.len(),
    ensures
        ({
            &&& secret_answer(path, SecretRead::Fields(fields)).status == 200
            &&& secret_answer(path, SecretRead::Fields(fields)).body matches Some(body)
            &&& body.get("path"@) == Some(JsonView::Str(path))
            &&& body.get("fields"@) matches Some(JsonView::Arr(names))
            &&& names.len() == fields@.len()
            &&& names[i] == JsonView::Str(fields@[i].0@)
        }),
        secret_answer(path, SecretRead::NotFound).status == 404,
        secret_answer(path, SecretRead::Failed(e)).status == 500,
{
    broadcast use crate::json::lemma_get_with;

    reveal_strlit("path");
    reveal_strlit("fields");
    assert("path"@.len() == 4 && "fields"@.len() == 6);
}

/// What stands in a field as a text is that text; what is no text is written as JSON.
pub proof fn law_fields_are_read_as_texts(s: Seq<char>, n: int)
    ensures
        field_text(JsonView::Str(s)) == s,
        field_text(JsonView::Int(n)) == json_value::compact_json(JsonView::Int(n)),
        field_text(JsonView::Null) == json_value::compact_json(JsonView::Null),
{
}

/// Nothing is pending where the message says that it is gone or was never there.
pub proof fn law_what_is_no_longer_pending(before: Seq<char>, after: Seq<char>)
    ensures
        nothing_pending(before + "invalid or expired"@ + after),
        nothing_pending(before + "not found"@ + after),
        before.len() < "not found"@.len() ==> !nothing_pending(before),
{
    text::law_texts_occur_where_they_stand(before, "invalid or expired"@, after);
    text::law_texts_occur_where_they_stand(before, "not found"@, after);
    reveal_strlit("invalid or expired");
    reveal_strlit("not found");
    assert("invalid or expired"@.len() > "not found"@.len());
    text::law_texts_occur_where_they_stand(Seq::empty(), "not found"@, before);
    text::law_texts_occur_where_they_stand(Seq::empty(), "invalid or expired"@, before);
}

} // verus!
