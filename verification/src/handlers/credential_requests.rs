//! Requests about credentials: what each of them is held to, in which order, before
//! the service is asked.

use crate::handlers::credentials;
use crate::handlers::credentials::{
    CredentialProvider, CredentialProviderView, CredentialScope, GrantTarget,
};
use crate::http;
use crate::http::Reply;
use crate::identity;
use crate::identity::{TenantId, UserIdentity, UserIdentityView};
use crate::json::{Json, JsonView};
use crate::{json_value, primitives, text};
use vstd::prelude::*;

verus! {

/// The longest body of a request about credentials, in bytes.
pub const BODY_LIMIT: usize = 65_536;

/// The longest body of a request that writes a secret, in bytes.
pub const SECRET_BODY_LIMIT: usize = 262_144;

/// What stands for the code of a provider where a device asks.
const DEVICE_CODE: &'static str = "device_flow";

/// What is asked for.
pub enum CredentialAsk {
    List,
    StoreApiKey {
        provider: String,
        label: String,
        scope: Option<String>,
        value: String,
        tags: Option<Json>,
    },
    Get { id: String },
    Revoke { id: String },
    Rotate { id: String, value: String },
    ListGrants { id: String },
    AddGrant { id: String, target_type: String, target_value: Option<String> },
    RevokeGrant { id: String, grant_id: String },
    OauthInitiate { provider: String, redirect_uri: String },
    /// The provider sends the user back.
    OauthCallback { state: String, code: String },
    DevicePoll { device_code: String },
}

/// What is wrong with the body of a request.
pub enum BodyFlaw {
    /// It could not be read.
    Unreadable,
    /// It is not the JSON that is asked for.
    Malformed(String),
}

/// The flaw of a body, as the answer to it tells it.
pub open spec fn flaw_text(flaw: BodyFlaw) -> Option<Seq<char>> {
    match flaw {
        BodyFlaw::Unreadable => None,
        BodyFlaw::Malformed(e) => Some(e@),
    }
}

/// The identifiers that the texts of a request denote: of the credential, of the grant,
/// of the team in a scope, and of the one that a grant is for.
#[derive(Clone, Copy, PartialEq, Eq, Structural, Debug)]
pub struct CredentialIds {
    pub binding: Option<u128>,
    pub grant: Option<u128>,
    pub team: Option<u128>,
    pub target: Option<u128>,
}

/// What the service is asked to do.
pub enum CredentialCall {
    List { user_id: String, tenant_id: TenantId },
    StoreApiKey {
        user_id: String,
        tenant_id: TenantId,
        provider: CredentialProvider,
        label: String,
        scope: CredentialScope,
        value: String,
        tags: Option<Json>,
    },
    Get { id: u128 },
    Revoke { id: u128 },
    Rotate { id: u128, value: String },
    ListGrants { id: u128 },
    AddGrant { id: u128, target: GrantTarget, granted_by: String },
    RevokeGrant { id: u128, grant: u128 },
    OauthInitiate {
        user_id: String,
        tenant_id: TenantId,
        provider: CredentialProvider,
        redirect_uri: String,
    },
    /// A connection that was started under the state is completed with the code.
    OauthComplete { state: String, code: String },
}

/// The mathematical content of tags.
pub open spec fn tags_view(tags: Option<Json>) -> Option<JsonView> {
    match tags {
        Some(t) => Some(t@),
        None => None,
    }
}

/// The mathematical content of what the service is asked to do.
pub enum CredentialCallView {
    List { user_id: Seq<char>, tenant_id: Seq<char> },
    StoreApiKey {
        user_id: Seq<char>,
        tenant_id: Seq<char>,
        provider: CredentialProviderView,
        label: Seq<char>,
        scope: CredentialScope,
        value: Seq<char>,
        tags: Option<JsonView>,
    },
    Get { id: u128 },
    Revoke { id: u128 },
    Rotate { id: u128, value: Seq<char> },
    ListGrants { id: u128 },
    AddGrant { id: u128, target: GrantTarget, granted_by: Seq<char> },
    RevokeGrant { id: u128, grant: u128 },
    OauthInitiate {
        user_id: Seq<char>,
        tenant_id: Seq<char>,
        provider: CredentialProviderView,
        redirect_uri: Seq<char>,
    },
    OauthComplete { state: Seq<char>, code: Seq<char> },
}

impl View for CredentialCall {
    type V = CredentialCallView;

    open spec fn view(&self) -> CredentialCallView {
        match *self {
            CredentialCall::List { user_id, tenant_id } => CredentialCallView::List {
                user_id: user_id@,
                tenant_id: tenant_id@,
            },
            CredentialCall::StoreApiKey {
                user_id,
                tenant_id,
                provider,
                label,
                scope,
                value,
                tags,
            } => {
                CredentialCallView::StoreApiKey {
                    user_id: user_id@,
                    tenant_id: tenant_id@,
                    provider: provider@,
                    label: label@,
                    scope,
                    value: value@,
                    tags: tags_view(tags),
                }
            },
            CredentialCall::Get { id } => CredentialCallView::Get { id },
            CredentialCall::Revoke { id } => CredentialCallView::Revoke { id },
            CredentialCall::Rotate { id, value } => CredentialCallView::Rotate {
                id,
                value: value@,
            },
            CredentialCall::ListGrants { id } => CredentialCallView::ListGrants { id },
            CredentialCall::AddGrant { id, target, granted_by } => CredentialCallView::AddGrant {
                id,
                target,
                granted_by: granted_by@,
            },
            CredentialCall::RevokeGrant { id, grant } => CredentialCallView::RevokeGrant {
                id,
                grant,
            },
            CredentialCall::OauthInitiate { user_id, tenant_id, provider, redirect_uri } => {
                CredentialCallView::OauthInitiate {
                    user_id: user_id@,
                    tenant_id: tenant_id@,
                    provider: provider@,
                    redirect_uri: redirect_uri@,
                }
            },
            CredentialCall::OauthComplete { state, code } => CredentialCallView::OauthComplete {
                state: state@,
                code: code@,
            },
        }
    }
}

/// The text of the credential's identifier in a request.
pub open spec fn binding_text(ask: CredentialAsk) -> Option<Seq<char>> {
    match ask {
        CredentialAsk::Get { id } => Some(id@),
        CredentialAsk::Revoke { id } => Some(id@),
        CredentialAsk::Rotate { id, .. } => Some(id@),
        CredentialAsk::ListGrants { id } => Some(id@),
        CredentialAsk::AddGrant { id, .. } => Some(id@),
        CredentialAsk::RevokeGrant { id, .. } => Some(id@),
        _ => None,
    }
}

/// Whether a request has a body.
pub open spec fn has_body(ask: CredentialAsk) -> bool {
    ask is StoreApiKey || ask is Rotate || ask is AddGrant || ask is OauthInitiate
        || ask is DevicePoll
}

/// What is wrong with what a sound body or the rest of the path says, if anything is.
pub open spec fn content_refusal(ask: CredentialAsk, ids: CredentialIds) -> Option<
    http::ReplyView,
> {
    match ask {
        CredentialAsk::StoreApiKey { provider, scope, .. } => if credentials::provider_named(
            provider@,
        ) is None {
            Some(credentials::no_provider())
        } else {
            match credentials::scope_of(text::opt_view(scope), ids.team) {
                Ok(_) => None,
                Err(message) => Some(http::error_reply(400, message)),
            }
        },
        CredentialAsk::OauthInitiate { provider, .. } => if credentials::provider_named(
            provider@,
        ) is None {
            Some(credentials::no_provider())
        } else {
            None
        },
        CredentialAsk::AddGrant { target_type, target_value, .. } => match credentials::target_of(
            target_type@,
            text::opt_view(target_value),
            ids.target,
        ) {
            Ok(_) => None,
            Err(message) => Some(http::error_reply(400, message)),
        },
        CredentialAsk::RevokeGrant { grant_id, .. } => if ids.grant is None {
            Some(http::error_reply(400, "Invalid grant ID: "@ + grant_id@))
        } else {
            None
        },
        _ => None,
    }
}

/// Why the service is not asked, if it is not: the caller, the credential's identifier,
/// the body, what the body says, and the service itself are looked at in this order.
/// Whoever a provider sends back is not asked who they are.
pub open spec fn refusal(
    caller: Option<UserIdentityView>,
    ask: CredentialAsk,
    flaw: Option<BodyFlaw>,
    ids: CredentialIds,
    configured: bool,
) -> Option<http::ReplyView> {
    if !(ask is OauthCallback) && credentials::credential_owner(caller) is Err {
        Some(credentials::credential_owner(caller)->Err_0)
    } else if binding_text(ask) is Some && ids.binding is None {
        Some(
            http::error_reply(
                400,
                "Invalid credential binding ID: "@ + binding_text(ask)->Some_0,
            ),
        )
    } else if has_body(ask) && flaw is Some {
        Some(credentials::bad_body(flaw_text(flaw->Some_0)))
    } else if content_refusal(ask, ids) is Some {
        content_refusal(ask, ids)
    } else if !configured {
        Some(credentials::no_credentials())
    } else {
        None
    }
}

/// What the service is asked to do by a request that is not refused.
pub open spec fn call_of(
    caller: Option<UserIdentityView>,
    ask: CredentialAsk,
    ids: CredentialIds,
) -> CredentialCallView {
    let owner = credentials::credential_owner(caller)->Ok_0;
    match ask {
        CredentialAsk::List => CredentialCallView::List { user_id: owner.0, tenant_id: owner.1 },
        CredentialAsk::StoreApiKey { provider, label, scope, value, tags } =>
            CredentialCallView::StoreApiKey {
            user_id: owner.0,
            tenant_id: owner.1,
            provider: credentials::provider_named(provider@)->Some_0,
            label: label@,
            scope: credentials::scope_of(text::opt_view(scope), ids.team)->Ok_0,
            value: value@,
            tags: tags_view(tags),
        },
        CredentialAsk::Get { .. } => CredentialCallView::Get { id: ids.binding->Some_0 },
        CredentialAsk::Revoke { .. } => CredentialCallView::Revoke { id: ids.binding->Some_0 },
        CredentialAsk::Rotate { value, .. } => CredentialCallView::Rotate {
            id: ids.binding->Some_0,
            value: value@,
        },
        CredentialAsk::ListGrants { .. } => CredentialCallView::ListGrants {
            id: ids.binding->Some_0,
        },
        CredentialAsk::AddGrant { target_type, target_value, .. } => CredentialCallView::AddGrant {
            id: ids.binding->Some_0,
            target: credentials::target_of(
                target_type@,
                text::opt_view(target_value),
                ids.target,
            )->Ok_0,
            granted_by: owner.0,
        },
        CredentialAsk::RevokeGrant { .. } => CredentialCallView::RevokeGrant {
            id: ids.binding->Some_0,
            grant: ids.grant->Some_0,
        },
        CredentialAsk::OauthInitiate { provider, redirect_uri } =>
            CredentialCallView::OauthInitiate {
            user_id: owner.0,
            tenant_id: owner.1,
            provider: credentials::provider_named(provider@)->Some_0,
            redirect_uri: redirect_uri@,
        },
        CredentialAsk::OauthCallback { state, code } => CredentialCallView::OauthComplete {
            state: state@,
            code: code@,
        },
        CredentialAsk::DevicePoll { device_code } => CredentialCallView::OauthComplete {
            state: device_code@,
            code: "device_flow"@,
        },
    }
}

/// The identifiers that the texts of a request denote.
pub open spec fn ids_of(ask: CredentialAsk) -> CredentialIds {
    CredentialIds {
        binding: credentials::denoted_id(binding_text(ask)),
        grant: match ask {
            CredentialAsk::RevokeGrant { grant_id, .. } => primitives::parsed_uuid(grant_id@),
            _ => None,
        },
        team: match ask {
            CredentialAsk::StoreApiKey { scope, .. } => credentials::denoted_team(
                text::opt_view(scope),
            ),
            _ => None,
        },
        target: match ask {
            CredentialAsk::AddGrant { target_value, .. } => credentials::denoted_id(
                text::opt_view(target_value),
            ),
            _ => None,
        },
    }
}

/// Holds the credential's identifier and the body of a request against what is asked
/// for.
fn check_path_and_body(
    id: Option<&String>,
    binding: Option<u128>,
    flaw: Option<&BodyFlaw>,
) -> (r: Result<(), Reply>)
    ensures
        match id {
            Some(text) if binding is None => r matches Err(reply) && reply@ == http::error_reply(
                400,
                "Invalid credential binding ID: "@ + text@,
            ),
            _ => match flaw {
                Some(f) => r matches Err(reply) && reply@ == credentials::bad_body(flaw_text(*f)),
                None => r is Ok,
            },
        },
{
    if let Some(text) = id {
        if binding.is_none() {
            let message = "Invalid credential binding ID: ".to_owned().concat(text.as_str());
            return Err(Reply::error(400, message.as_str()));
        }
    }
    match flaw {
        Some(BodyFlaw::Unreadable) => Err(credentials::bad_body_reply(None)),
        Some(BodyFlaw::Malformed(e)) => Err(credentials::bad_body_reply(Some(e.as_str()))),
        None => Ok(()),
    }
}

/// Decides what the service is asked to do, given the identifiers that the texts of the
/// request denote.
pub fn begin_with(
    caller: Option<&UserIdentity>,
    ask: CredentialAsk,
    flaw: Option<BodyFlaw>,
    ids: CredentialIds,
    configured: bool,
) -> (r: Result<CredentialCall, Reply>)
    ensures
        match refusal(identity::opt_identity(caller), ask, flaw, ids, configured) {
            Some(reply) => r matches Err(e) && e@ == reply,
            None => r matches Ok(call) && call@ == call_of(
                identity::opt_identity(caller),
                ask,
                ids,
            ),
        },
{
    if let CredentialAsk::OauthCallback { state, code } = ask {
        return match credentials::credential_service(configured) {
            Ok(_) => Ok(CredentialCall::OauthComplete { state, code }),
            Err(reply) => Err(reply),
        };
    }
    let (user_id, tenant_id) = match credentials::require_credential_scope(caller) {
        Ok(owner) => owner,
        Err(reply) => {
            return Err(reply);
        },
    };
    let id = match &ask {
        CredentialAsk::Get { id } => Some(id),
        CredentialAsk::Revoke { id } => Some(id),
        CredentialAsk::Rotate { id, .. } => Some(id),
        CredentialAsk::ListGrants { id } => Some(id),
        CredentialAsk::AddGrant { id, .. } => Some(id),
        CredentialAsk::RevokeGrant { id, .. } => Some(id),
        _ => None,
    };
    let with_body = match &ask {
        CredentialAsk::StoreApiKey { .. } => true,
        CredentialAsk::Rotate { .. } => true,
        CredentialAsk::AddGrant { .. } => true,
        CredentialAsk::OauthInitiate { .. } => true,
        CredentialAsk::DevicePoll { .. } => true,
        _ => false,
    };
    let body_flaw = if with_body {
        flaw.as_ref()
    } else {
        None
    };
    if let Err(reply) = check_path_and_body(id, ids.binding, body_flaw) {
        return Err(reply);
    }
    let binding: u128 = match ids.binding {
        Some(n) => n,
        None => 0,
    };
    let call = match ask {
        CredentialAsk::List => CredentialCall::List { user_id, tenant_id },
        CredentialAsk::StoreApiKey { provider, label, scope, value, tags } => {
            let parsed = match credentials::parse_provider(provider.as_str()) {
                Ok(p) => p,
                Err(reply) => {
                    return Err(reply);
                },
            };
            let asked = match &scope {
                Some(s) => Some(s.as_str()),
                None => None,
            };
            match credentials::credential_scope_of(asked, ids.team) {
                Ok(wanted) => CredentialCall::StoreApiKey {
                    user_id,
                    tenant_id,
                    provider: parsed,
                    label,
                    scope: wanted,
                    value,
                    tags,
                },
                Err(reply) => {
                    return Err(reply);
                },
            }
        },
        CredentialAsk::Get { .. } => CredentialCall::Get { id: binding },
        CredentialAsk::Revoke { .. } => CredentialCall::Revoke { id: binding },
        CredentialAsk::Rotate { value, .. } => CredentialCall::Rotate { id: binding, value },
        CredentialAsk::ListGrants { .. } => CredentialCall::ListGrants { id: binding },
        CredentialAsk::AddGrant { target_type, target_value, .. } => {
            let value = match &target_value {
                Some(v) => Some(v.as_str()),
                None => None,
            };
            match credentials::grant_target_of(target_type.as_str(), value, ids.target) {
                Ok(target) => CredentialCall::AddGrant { id: binding, target, granted_by: user_id },
                Err(reply) => {
                    return Err(reply);
                },
            }
        },
        CredentialAsk::RevokeGrant { grant_id, .. } => match credentials::id_or_refusal(
            ids.grant,
            "Invalid grant ID: ",
            grant_id.as_str(),
        ) {
            Ok(grant) => CredentialCall::RevokeGrant { id: binding, grant },
            Err(reply) => {
                return Err(reply);
            },
        },
        CredentialAsk::OauthInitiate { provider, redirect_uri } => match credentials::parse_provider(
            provider.as_str(),
        ) {
            Ok(parsed) => CredentialCall::OauthInitiate {
                user_id,
                tenant_id,
                provider: parsed,
                redirect_uri,
            },
            Err(reply) => {
                return Err(reply);
            },
        },
        CredentialAsk::OauthCallback { state, code } => CredentialCall::OauthComplete {
            state,
            code,
        },
        CredentialAsk::DevicePoll { device_code } => CredentialCall::OauthComplete {
            state: device_code,
            code: DEVICE_CODE.to_owned(),
        },
    };
    match credentials::credential_service(configured) {
        Ok(_) => Ok(call),
        Err(reply) => Err(reply),
    }
}

/// Decides what the service is asked to do.
pub fn begin(
    caller: Option<&UserIdentity>,
    ask: CredentialAsk,
    flaw: Option<BodyFlaw>,
    configured: bool,
) -> (r: Result<CredentialCall, Reply>)
    ensures
        match refusal(identity::opt_identity(caller), ask, flaw, ids_of(ask), configured) {
            Some(reply) => r matches Err(e) && e@ == reply,
            None => r matches Ok(call) && call@ == call_of(
                identity::opt_identity(caller),
                ask,
                ids_of(ask),
            ),
        },
{
    let mut ids = CredentialIds { binding: None, grant: None, team: None, target: None };
    match &ask {
        CredentialAsk::Get { id } => {
            ids.binding = primitives::parse_uuid(id.as_str());
        },
        CredentialAsk::Revoke { id } => {
            ids.binding = primitives::parse_uuid(id.as_str());
        },
        CredentialAsk::Rotate { id, .. } => {
            ids.binding = primitives::parse_uuid(id.as_str());
        },
        CredentialAsk::ListGrants { id } => {
            ids.binding = primitives::parse_uuid(id.as_str());
        },
        CredentialAsk::AddGrant { id, target_value, .. } => {
            ids.binding = primitives::parse_uuid(id.as_str());
            if let Some(value) = target_value {
                ids.target = primitives::parse_uuid(value.as_str());
            }
        },
        CredentialAsk::RevokeGrant { id, grant_id } => {
            ids.binding = primitives::parse_uuid(id.as_str());
            ids.grant = primitives::parse_uuid(grant_id.as_str());
        },
        CredentialAsk::StoreApiKey { scope, .. } => {
            if let Some(s) = scope {
                if let Some(rest) = text::strip_prefix(s.as_str(), "team:") {
                    ids.team = primitives::parse_uuid(rest.as_str());
                }
            }
        },
        _ => {},
    }
    begin_with(caller, ask, flaw, ids, configured)
}

/// The fields that a request to write a secret gives, in the name of the caller, or the
/// answer that refuses it: operators and administrators are let in, then the body is
/// looked at, then what it says.
pub fn begin_secret_write(
    caller: Option<&UserIdentity>,
    flaw: Option<BodyFlaw>,
    data: &serde_json::Value,
) -> (r: Result<(String, Vec<(String, String)>), Reply>)
    ensures
        match identity::opt_identity(caller) {
            None => r matches Err(reply) && reply@ == http::error_reply(
                401,
                "Authentication required"@,
            ),
            Some(i) => if !credentials::handles_secrets(i) {
                r matches Err(reply) && reply@ == http::error_reply(
                    403,
                    "Operator or Admin role required"@,
                )
            } else if flaw is Some {
                r matches Err(reply) && reply@ == credentials::bad_body(flaw_text(flaw->Some_0))
            } else {
                match json_value::value_holds(*data) {
                    JsonView::Obj(members) => r matches Ok((sub, fields)) && sub@ == i.sub
                        && fields@.map_values(|f: (String, String)| (f.0@, f.1@))
                        == members.map_values(
                        |m: (Seq<char>, JsonView)| (m.0, credentials::field_text(m.1)),
                    ),
                    _ => r matches Err(reply) && reply@ == http::error_reply(
                        400,
                        "'data' must be a JSON object"@,
                    ),
                }
            },
        },
{
    let sub = match credentials::require_operator_or_admin(caller) {
        Ok(sub) => sub,
        Err(reply) => {
            return Err(reply);
        },
    };
    match flaw {
        Some(BodyFlaw::Unreadable) => {
            return Err(credentials::bad_body_reply(None));
        },
        Some(BodyFlaw::Malformed(e)) => {
            return Err(credentials::bad_body_reply(Some(e.as_str())));
        },
        None => {},
    }
    match credentials::secret_fields(data) {
        Ok(fields) => Ok((sub, fields)),
        Err(reply) => Err(reply),
    }
}

/// Whatever else a request holds, nothing is asked of the service for a caller that is
/// no user, but where a provider sends somebody back.
pub proof fn law_only_users_reach_the_service(
    caller: Option<UserIdentityView>,
    ask: CredentialAsk,
    flaw: Option<BodyFlaw>,
    ids: CredentialIds,
    configured: bool,
)
    requires
        !(ask is OauthCallback),
        caller is None || !(caller->Some_0.identity_kind is ConsumerUser
            || caller->Some_0.identity_kind is TenantUser),
    ensures
        refusal(caller, ask, flaw, ids, configured) matches Some(reply) && (reply.status == 401
            || reply.status == 403),
{
}

/// A request for a credential that is in order becomes the call that it asks for, in the
/// name of its caller and with what it says.
pub proof fn law_credential_requests_become_their_calls(
    i: UserIdentityView,
    tenant: Seq<char>,
    id: String,
    value: String,
    label: String,
    scope: Option<String>,
    tags: Option<Json>,
    uri: String,
    ids: CredentialIds,
    n: u128,
)
    requires
        credentials::credential_owner(Some(i)) == Ok::<(Seq<char>, Seq<char>), http::ReplyView>(
            (i.sub, tenant),
        ),
        ids.binding == Some(n),
    ensures
        call_of(Some(i), CredentialAsk::List, ids) == (CredentialCallView::List {
            user_id: i.sub,
            tenant_id: tenant,
        }),
        call_of(Some(i), CredentialAsk::Get { id }, ids) == (CredentialCallView::Get { id: n }),
        call_of(Some(i), CredentialAsk::Revoke { id }, ids) == (CredentialCallView::Revoke {
            id: n,
        }),
        call_of(Some(i), CredentialAsk::Rotate { id, value }, ids) == (
        CredentialCallView::Rotate { id: n, value: value@ }),
        call_of(Some(i), CredentialAsk::ListGrants { id }, ids) == (
        CredentialCallView::ListGrants { id: n }),
        ({
            &&& call_of(
                Some(i),
                CredentialAsk::StoreApiKey { provider: id, label, scope, value, tags },
                ids,
            ) matches CredentialCallView::StoreApiKey {
                user_id,
                tenant_id,
                label: l,
                value: v,
                tags: t,
                ..
            }
            &&& user_id == i.sub && tenant_id == tenant
            &&& l == label@ && v == value@
            &&& tags is None ==> t is None
            &&& tags matches Some(given) ==> t == Some(given@)
        }),
        ({
            &&& call_of(
                Some(i),
                CredentialAsk::OauthInitiate { provider: id, redirect_uri: uri },
                ids,
            ) matches CredentialCallView::OauthInitiate { user_id, tenant_id, redirect_uri, .. }
            &&& user_id == i.sub && tenant_id == tenant
            &&& redirect_uri == uri@
        }),
        call_of(Some(i), CredentialAsk::OauthCallback { state: id, code: value }, ids) == (
        CredentialCallView::OauthComplete { state: id@, code: value@ }),
        call_of(Some(i), CredentialAsk::DevicePoll { device_code: id }, ids) == (
        CredentialCallView::OauthComplete { state: id@, code: "device_flow"@ }),
{
}

/// A request is refused for its caller, for the identifier in its path, for its body, for
/// what the body says and for want of the service, in this order; otherwise it is made.
pub proof fn law_credential_requests_are_checked(
    caller: Option<UserIdentityView>,
    id: String,
    value: String,
    flaw: BodyFlaw,
    e: String,
    ids: CredentialIds,
)
    ensures
        credentials::credential_owner(caller) is Ok && ids.binding is Some ==> {
            &&& refusal(caller, CredentialAsk::Get { id }, None, ids, true) is None
            &&& refusal(caller, CredentialAsk::Rotate { id, value }, None, ids, true) is None
            &&& refusal(caller, CredentialAsk::Get { id }, None, ids, false) matches Some(r)
                && r.status == 503
            &&& refusal(
                caller,
                CredentialAsk::Rotate { id, value },
                Some(flaw),
                ids,
                true,
            ) matches Some(r) && r.status == 400
            &&& refusal(
                caller,
                CredentialAsk::RevokeGrant { id, grant_id: value },
                None,
                ids,
                true,
            ) is None <==> ids.grant is Some
        },
        credentials::credential_owner(caller) is Ok && ids.binding is None ==> (refusal(
            caller,
            CredentialAsk::Get { id },
            None,
            ids,
            true,
        ) matches Some(r) && r.status == 400),
        credentials::credential_owner(caller) matches Err(r) ==> refusal(
            caller,
            CredentialAsk::List,
            None,
            ids,
            true,
        ) == Some(r),
        refusal(
            None,
            CredentialAsk::OauthCallback { state: id, code: value },
            None,
            ids,
            true,
        ) is None,
{
}

/// The identifiers of a request are those that its texts denote.
pub proof fn law_identifiers_are_read_from_the_request(id: String, value: String)
    ensures
        ids_of(CredentialAsk::Get { id }).binding == primitives::parsed_uuid(id@),
        ids_of(CredentialAsk::Revoke { id }).binding == primitives::parsed_uuid(id@),
        ids_of(CredentialAsk::Rotate { id, value }).binding == primitives::parsed_uuid(id@),
        ids_of(CredentialAsk::ListGrants { id }).binding == primitives::parsed_uuid(id@),
        ids_of(CredentialAsk::RevokeGrant { id, grant_id: value }).binding
            == primitives::parsed_uuid(id@),
        ids_of(CredentialAsk::RevokeGrant { id, grant_id: value }).grant
            == primitives::parsed_uuid(value@),
        ids_of(
            CredentialAsk::AddGrant { id, target_type: value, target_value: Some(value) },
        ).target == primitives::parsed_uuid(value@),
        ids_of(CredentialAsk::List).binding is None,
{
}

/// What a body says is checked: a key and a connection need a provider, a key a scope that
/// is known, a grant a target, and the end of a grant its identifier.
pub proof fn law_what_a_body_says_is_checked(
    i: UserIdentityView,
    id: String,
    provider: String,
    label: String,
    value: String,
    tags: Option<Json>,
    kind: String,
    ids: CredentialIds,
)
    requires
        credentials::credential_owner(Some(i)) is Ok,
        ids.binding is Some,
    ensures
        refusal(
            Some(i),
            CredentialAsk::StoreApiKey { provider, label, scope: None, value, tags },
            None,
            ids,
            true,
        ) is None <==> provider@.len() > 0,
        refusal(
            Some(i),
            CredentialAsk::OauthInitiate { provider, redirect_uri: value },
            None,
            ids,
            true,
        ) is None <==> provider@.len() > 0,
        refusal(
            Some(i),
            CredentialAsk::AddGrant { id, target_type: kind, target_value: Some(value) },
            None,
            ids,
            true,
        ) is None <==> credentials::target_of(kind@, Some(value@), ids.target) is Ok,
{
    reveal_strlit("openai");
    reveal_strlit("anthropic");
    reveal_strlit("github");
    reveal_strlit("google_workspace");
    assert("openai"@.len() == 6 && "anthropic"@.len() == 9 && "github"@.len() == 6 && "google_workspace"@.len() == 16 && "github"@[0] == 'g' && "openai"@[0] == 'o');
}

/// A key is stored for the provider and in the scope that are named, a grant is given for
/// its target by its caller, and the grant that is named is taken back.
pub proof fn law_keys_and_grants_are_as_named(
    i: UserIdentityView,
    tenant: Seq<char>,
    id: String,
    provider: String,
    label: String,
    scope: Option<String>,
    value: String,
    tags: Option<Json>,
    kind: String,
    ids: CredentialIds,
    n: u128,
    g: u128,
    known: CredentialProviderView,
    place: CredentialScope,
    target: GrantTarget,
)
    requires
        credentials::credential_owner(Some(i)) == Ok::<(Seq<char>, Seq<char>), http::ReplyView>(
            (i.sub, tenant),
        ),
        ids.binding == Some(n),
        ids.grant == Some(g),
        credentials::provider_named(provider@) == Some(known),
        credentials::scope_of(text::opt_view(scope), ids.team) == Ok::<CredentialScope, Seq<char>>(
            place,
        ),
        credentials::target_of(kind@, Some(value@), ids.target) == Ok::<GrantTarget, Seq<char>>(
            target,
        ),
    ensures
        call_of(
            Some(i),
            CredentialAsk::StoreApiKey { provider, label, scope, value, tags },
            ids,
        ) matches CredentialCallView::StoreApiKey { provider: p, scope: s, .. } && p == known && s
            == place,
        call_of(
            Some(i),
            CredentialAsk::OauthInitiate { provider, redirect_uri: value },
            ids,
        ) matches CredentialCallView::OauthInitiate { provider: p, .. } && p == known,
        call_of(
            Some(i),
            CredentialAsk::AddGrant { id, target_type: kind, target_value: Some(value) },
            ids,
        ) == (CredentialCallView::AddGrant { id: n, target, granted_by: i.sub }),
        call_of(Some(i), CredentialAsk::RevokeGrant { id, grant_id: value }, ids) == (
        CredentialCallView::RevokeGrant { id: n, grant: g }),
{
}

} // verus!
