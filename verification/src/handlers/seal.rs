//! Attestation: who a caller is, and which tenant a session is attested for.

use crate::handlers::api_keys;
use crate::handlers::api_keys::{ApiKeyRow, KeyLookup};
use crate::http::Reply;
use crate::identity::{
    AegisRole, IdentityKind, IdentityKindView, TenantId, UserIdentity, UserIdentityView, ZaruTier,
};
use crate::json::{Json, JsonView};
use crate::{http, identity, primitives, text};
use vstd::prelude::*;

verus! {

/// The body of an attestation request.
pub struct HttpAttestationRequest {
    pub agent_id: Option<String>,
    pub execution_id: Option<String>,
    pub container_id: Option<String>,
    pub public_key: String,
    pub security_context: Option<String>,
    pub principal_subject: Option<String>,
    pub user_id: Option<String>,
    pub workload_id: Option<String>,
    pub zaru_tier: Option<String>,
    pub tenant_id: Option<String>,
    pub task_summary: Option<String>,
}

/// The body of a request to invoke a tool.
pub struct HttpSealEnvelope {
    pub protocol: Option<String>,
    pub security_token: String,
    pub signature: String,
    pub payload: Json,
    pub timestamp: Option<String>,
}

/// Why no tenant could be found for an attestation request.
#[derive(Debug, PartialEq, Eq)]
pub enum AttestTenantError {
    /// No caller was authenticated.
    Unauthenticated,
    /// The request names another tenant than the caller's, and the caller may not
    /// delegate.
    TenantMismatch { expected: String, got: String },
    /// The execution that the request names could not be loaded.
    ExecutionNotFound,
    /// An operator did not say what they are attesting against.
    OperatorMissingTarget,
}

/// The mathematical content of such an error.
pub enum AttestTenantErrorView {
    Unauthenticated,
    TenantMismatch { expected: Seq<char>, got: Seq<char> },
    ExecutionNotFound,
    OperatorMissingTarget,
}

impl View for AttestTenantError {
    type V = AttestTenantErrorView;

    open spec fn view(&self) -> AttestTenantErrorView {
        match self {
            AttestTenantError::Unauthenticated => AttestTenantErrorView::Unauthenticated,
            AttestTenantError::TenantMismatch {
                expected,
                got,
            } => AttestTenantErrorView::TenantMismatch { expected: expected@, got: got@ },
            AttestTenantError::ExecutionNotFound => AttestTenantErrorView::ExecutionNotFound,
            AttestTenantError::OperatorMissingTarget => AttestTenantErrorView::OperatorMissingTarget,
        }
    }
}

impl AttestTenantErrorView {
    /// The status code that an error is answered with.
    pub open spec fn status(self) -> u16 {
        match self {
            AttestTenantErrorView::Unauthenticated => 401,
            AttestTenantErrorView::TenantMismatch { .. } => 403,
            AttestTenantErrorView::ExecutionNotFound => 404,
            AttestTenantErrorView::OperatorMissingTarget => 400,
        }
    }

    /// The message that an error is answered with.
    pub open spec fn text(self) -> Seq<char> {
        match self {
            AttestTenantErrorView::Unauthenticated => "unauthorized"@,
            AttestTenantErrorView::TenantMismatch { expected, got } =>
                "permission_denied: tenant mismatch (identity tenant: "@ + expected
                + ", requested: "@ + got + ")"@,
            AttestTenantErrorView::ExecutionNotFound => "execution_not_found"@,
            AttestTenantErrorView::OperatorMissingTarget =>
                "bad_request: operators must specify tenant_id or execution_id"@,
        }
    }
}

impl AttestTenantError {
    /// The status code that the error is answered with.
    pub fn http_status(&self) -> (r: u16)
        ensures
            r == self@.status(),
    {
        match self {
            AttestTenantError::Unauthenticated => 401,
            AttestTenantError::TenantMismatch { .. } => 403,
            AttestTenantError::ExecutionNotFound => 404,
            AttestTenantError::OperatorMissingTarget => 400,
        }
    }

    /// The message that the error is answered with.
    pub fn message(&self) -> (r: String)
        ensures
            r@ == self@.text(),
    {
        match self {
            AttestTenantError::Unauthenticated => "unauthorized".to_owned(),
            AttestTenantError::TenantMismatch { expected, got } =>
                "permission_denied: tenant mismatch (identity tenant: ".to_owned().concat(
                expected.as_str(),
            ).concat(", requested: ").concat(got.as_str()).concat(")"),
            AttestTenantError::ExecutionNotFound => "execution_not_found".to_owned(),
            AttestTenantError::OperatorMissingTarget =>
                "bad_request: operators must specify tenant_id or execution_id".to_owned(),
        }
    }

    /// The answer to a request that failed with the error.
    pub fn reply(&self) -> (r: Reply)
        ensures
            r@ == http::error_reply(self@.status(), self@.text()),
    {
        Reply::error(self.http_status(), self.message().as_str())
    }
}

/// Whether a caller may act for any tenant.
pub open spec fn delegates(kind: IdentityKindView) -> bool {
    kind is Operator || kind is ServiceAccount
}

/// Whether a caller may act for any tenant: operators and service accounts may.
pub fn may_delegate(identity: &UserIdentity) -> (r: bool)
    ensures
        r == delegates(identity@.identity_kind),
{
    match &identity.identity_kind {
        IdentityKind::Operator { .. } => true,
        IdentityKind::ServiceAccount { .. } => true,
        _ => false,
    }
}

/// The tenant that a caller's own claims name.
pub open spec fn own_tenant(kind: IdentityKindView) -> Seq<char> {
    match kind {
        IdentityKindView::ConsumerUser { tenant_id, .. } => tenant_id,
        IdentityKindView::TenantUser { tenant, .. } => match tenant {
            Some(t) => t,
            None => "aegis-system"@,
        },
        IdentityKindView::Operator { .. } => "aegis-system"@,
        IdentityKindView::ServiceAccount { .. } => "aegis-system"@,
    }
}

/// The tenant that a caller's own claims name.
pub fn identity_tenant(identity: &UserIdentity) -> (r: TenantId)
    ensures
        r@ == own_tenant(identity@.identity_kind),
{
    match &identity.identity_kind {
        IdentityKind::ConsumerUser { tenant_id, .. } => tenant_id.clone(),
        IdentityKind::TenantUser { tenant, .. } => match tenant {
            Some(t) => t.clone(),
            None => TenantId::system(),
        },
        IdentityKind::Operator { .. } => TenantId::system(),
        IdentityKind::ServiceAccount { .. } => TenantId::system(),
    }
}

/// The execution whose tenant has to be looked up: the one the request names, once
/// a caller is known.
pub open spec fn execution_named(
    identity: Option<UserIdentityView>,
    execution_id: Option<Seq<char>>,
) -> Option<u128> {
    match (identity, execution_id) {
        (Some(_), Some(id)) => primitives::parsed_uuid(id),
        _ => None,
    }
}

/// The execution whose tenant has to be looked up before the request's tenant can
/// be resolved.
pub fn execution_to_look_up(
    identity: Option<&UserIdentity>,
    request: &HttpAttestationRequest,
) -> (r: Option<u128>)
    ensures
        r == execution_named(identity::opt_identity(identity), text::opt_view(request.execution_id)),
{
    if identity.is_none() {
        return None;
    }
    match &request.execution_id {
        Some(id) => primitives::parse_uuid(id.as_str()),
        None => None,
    }
}

/// The tenant that a session is attested for.
///
/// `execution` is what looking up the execution that the request names brought,
/// where it names one; `requested` is the tenant id in the request, and `explicit`
/// the tenant that it names as a realm slug, where it names one.
pub open spec fn attest_tenant(
    execution: Option<Option<Seq<char>>>,
    identity: Option<UserIdentityView>,
    requested: Option<Seq<char>>,
    explicit: Option<Seq<char>>,
) -> Result<Seq<char>, AttestTenantErrorView> {
    match identity {
        None => Err(AttestTenantErrorView::Unauthenticated),
        Some(caller) => {
            let own = own_tenant(caller.identity_kind);
            let delegating = delegates(caller.identity_kind);
            match execution {
                Some(None) => Err(AttestTenantErrorView::ExecutionNotFound),
                Some(Some(tenant)) => if tenant == own || delegating {
                    Ok(tenant)
                } else {
                    Err(AttestTenantErrorView::TenantMismatch { expected: own, got: tenant })
                },
                None => if requested is Some && requested->Some_0.len() > 0 {
                    match explicit {
                        None => Err(
                            AttestTenantErrorView::TenantMismatch {
                                expected: own,
                                got: requested->Some_0,
                            },
                        ),
                        Some(tenant) => Ok(
                            if delegating {
                                tenant
                            } else {
                                own
                            },
                        ),
                    }
                } else if caller.identity_kind is Operator {
                    Err(AttestTenantErrorView::OperatorMissingTarget)
                } else {
                    Ok(own)
                },
            }
        },
    }
}

/// Resolves the tenant that a session is attested for. A caller that may not
/// delegate is only ever attested for their own tenant: another tenant in the
/// request's body is ignored, another tenant's execution is refused.
pub fn resolve_attest_tenant(
    execution_tenant: Option<Option<TenantId>>,
    identity: Option<&UserIdentity>,
    request: &HttpAttestationRequest,
    explicit: Option<TenantId>,
) -> (r: Result<TenantId, AttestTenantError>)
    ensures
        match (
            attest_tenant(
                match execution_tenant {
                    Some(found) => Some(identity::opt_tenant(found)),
                    None => None,
                },
                identity::opt_identity(identity),
                text::opt_view(request.tenant_id),
                identity::opt_tenant(explicit),
            ),
            r,
        ) {
            (Ok(tenant), Ok(t)) => t@ == tenant,
            (Err(error), Err(e)) => e@ == error,
            _ => false,
        },
{
    let caller = match identity {
        Some(i) => i,
        None => {
            return Err(AttestTenantError::Unauthenticated);
        },
    };
    let canonical = identity_tenant(caller);
    let delegating = may_delegate(caller);
    if let Some(found) = execution_tenant {
        return match found {
            None => Err(AttestTenantError::ExecutionNotFound),
            Some(tenant) => if tenant.same(&canonical) || delegating {
                Ok(tenant)
            } else {
                Err(
                    AttestTenantError::TenantMismatch {
                        expected: canonical.as_str().to_owned(),
                        got: tenant.as_str().to_owned(),
                    },
                )
            },
        };
    }
    if let Some(slug) = &request.tenant_id {
        if !slug.as_str().is_empty() {
            return match explicit {
                None => Err(
                    AttestTenantError::TenantMismatch {
                        expected: canonical.as_str().to_owned(),
                        got: slug.clone(),
                    },
                ),
                Some(tenant) => if delegating {
                    Ok(tenant)
                } else {
                    Ok(canonical)
                },
            };
        }
    }
    if let IdentityKind::Operator { .. } = &caller.identity_kind {
        return Err(AttestTenantError::OperatorMissingTarget);
    }
    Ok(canonical)
}

/// The first twelve digits of a key's hash, for use in logs.
pub fn key_hash_prefix(raw_token: &str) -> (r: String)
    ensures
        r@ == api_keys::key_hash(raw_token@).take(12),
{
    let hash = api_keys::hash_key(raw_token);
    let chars = text::chars_of(hash.as_str());
    let r = text::string_of(&chars, 0, 12);
    assert(r@ =~= hash@.take(12));
    r
}

/// The caller that a stored key stands for. `tenant` is the tenant that the key's
/// tenant id names as a realm slug, where it names one.
pub open spec fn identity_of_key(row: ApiKeyRow, tenant: Option<Seq<char>>) -> Option<
    UserIdentityView,
> {
    match row.aegis_role {
        Some(claim) => match AegisRole::of_claim(claim@) {
            Some(aegis_role) => Some(
                UserIdentityView {
                    sub: row.user_id@,
                    realm_slug: "aegis-system"@,
                    email: None,
                    name: None,
                    identity_kind: IdentityKindView::Operator { aegis_role },
                },
            ),
            None => None,
        },
        None => match tenant {
            Some(tenant_id) => Some(
                UserIdentityView {
                    sub: row.user_id@,
                    realm_slug: "zaru-consumer"@,
                    email: None,
                    name: None,
                    identity_kind: IdentityKindView::ConsumerUser {
                        zaru_tier: stored_tier(text::opt_view(row.zaru_tier)),
                        tenant_id,
                    },
                },
            ),
            None => None,
        },
    }
}

/// The tier that a stored claim stands for: the free one where there is none or it
/// cannot be read.
pub open spec fn stored_tier(claim: Option<Seq<char>>) -> ZaruTier {
    match claim {
        Some(c) => match ZaruTier::of_claim(c) {
            Some(t) => t,
            None => ZaruTier::Free,
        },
        None => ZaruTier::Free,
    }
}

/// The caller that a key stands for, once it was looked up; `None` where no
/// repository is there.
pub fn identity_from_api_key(lookup: Option<KeyLookup>, tenant: Option<TenantId>) -> (r: Option<
    UserIdentity,
>)
    ensures
        (match r {
            Some(i) => Some(i@),
            None => None,
        }) == (match lookup {
            Some(KeyLookup::Found(row)) => identity_of_key(row, identity::opt_tenant(tenant)),
            _ => None,
        }),
{
    let row = match lookup {
        Some(KeyLookup::Found(row)) => row,
        _ => {
            return None;
        },
    };
    match row.aegis_role {
        Some(claim) => match AegisRole::from_claim(claim.as_str()) {
            Some(aegis_role) => Some(
                UserIdentity {
                    sub: row.user_id,
                    realm_slug: "aegis-system".to_owned(),
                    email: None,
                    name: None,
                    identity_kind: IdentityKind::Operator { aegis_role },
                },
            ),
            None => None,
        },
        None => match tenant {
            Some(tenant_id) => {
                let zaru_tier = match &row.zaru_tier {
                    Some(c) => match ZaruTier::from_claim(c.as_str()) {
                        Some(t) => t,
                        None => ZaruTier::Free,
                    },
                    None => ZaruTier::Free,
                };
                Some(
                    UserIdentity {
                        sub: row.user_id,
                        realm_slug: "zaru-consumer".to_owned(),
                        email: None,
                        name: None,
                        identity_kind: IdentityKind::ConsumerUser { zaru_tier, tenant_id },
                    },
                )
            },
            None => None,
        },
    }
}

/// How the caller of an attestation request is to be authenticated.
pub enum AttestCredential {
    /// No usable credential was sent.
    Missing,
    /// An API key, with the hash to look it up by.
    ApiKey { key: String, hash: String },
    /// A token for the identity provider.
    Jwt(String),
}

/// The credential in an `Authorization` header: what follows `Bearer `, without
/// white space at its ends, unless that is empty.
pub open spec fn bearer_credential(header: Option<Seq<char>>) -> Option<Seq<char>> {
    match header {
        Some(h) => if "Bearer "@.is_prefix_of(h) && text::trimmed(
            h.skip("Bearer "@.len() as int),
        ).len() > 0 {
            Some(text::trimmed(h.skip("Bearer "@.len() as int)))
        } else {
            None
        },
        None => None,
    }
}

/// Decides how the caller of an attestation request is to be authenticated.
pub fn authenticate_attest_request(authorization: Option<&str>) -> (r: AttestCredential)
    ensures
        match bearer_credential(text::opt_str_view(authorization)) {
            None => r is Missing,
            Some(raw) => if "aegis_"@.is_prefix_of(raw) {
                r matches AttestCredential::ApiKey { key, hash } && key@ == raw && hash@
                    == api_keys::key_hash(raw)
            } else {
                r matches AttestCredential::Jwt(token) && token@ == raw
            },
        },
{
    let rest = match authorization {
        Some(h) => text::strip_prefix(h, "Bearer "),
        None => None,
    };
    match rest {
        Some(t) => {
            let raw = text::trim(t.as_str());
            if raw.as_str().is_empty() {
                AttestCredential::Missing
            } else if text::starts_with(raw.as_str(), "aegis_") {
                let hash = api_keys::hash_key(raw.as_str());
                AttestCredential::ApiKey { key: raw, hash }
            } else {
                AttestCredential::Jwt(raw)
            }
        },
        None => AttestCredential::Missing,
    }
}

/// The realm that a caller belongs to.
#[derive(Clone, Copy, PartialEq, Eq, Structural, Debug)]
pub enum RealmKind {
    Consumer,
    Tenant,
    System,
}

/// What is asked of the attestation service.
pub struct AttestationRequest {
    pub agent_id: Option<String>,
    pub execution_id: Option<String>,
    pub container_id: Option<String>,
    pub public_key_pem: String,
    pub security_context: Option<String>,
    pub principal_subject: Option<String>,
    pub user_id: Option<String>,
    pub workload_id: Option<String>,
    pub zaru_tier: Option<String>,
    pub tenant_id: TenantId,
    pub realm: RealmKind,
    pub task_summary: Option<String>,
}

/// What is asked of the attestation service: what the request says, but in the tenant
/// that was found for it, and in the caller's realm, or the consumers'.
pub fn attestation_request(
    request: HttpAttestationRequest,
    tenant_id: TenantId,
    realm: Option<RealmKind>,
) -> (r: AttestationRequest)
    ensures
        r == (AttestationRequest {
            agent_id: request.agent_id,
            execution_id: request.execution_id,
            container_id: request.container_id,
            public_key_pem: request.public_key,
            security_context: request.security_context,
            principal_subject: request.principal_subject,
            user_id: request.user_id,
            workload_id: request.workload_id,
            zaru_tier: request.zaru_tier,
            tenant_id,
            realm: match realm {
                Some(kind) => kind,
                None => RealmKind::Consumer,
            },
            task_summary: request.task_summary,
        }),
{
    AttestationRequest {
        agent_id: request.agent_id,
        execution_id: request.execution_id,
        container_id: request.container_id,
        public_key_pem: request.public_key,
        security_context: request.security_context,
        principal_subject: request.principal_subject,
        user_id: request.user_id,
        workload_id: request.workload_id,
        zaru_tier: request.zaru_tier,
        tenant_id,
        realm: match realm {
            Some(kind) => kind,
            None => RealmKind::Consumer,
        },
        task_summary: request.task_summary,
    }
}

/// What the attestation service granted.
pub struct AttestationGrant {
    pub status: String,
    pub security_token: String,
    pub expires_at: String,
    pub session_id: Option<String>,
}

/// The answer to an attestation request.
pub open spec fn attest_answer(outcome: Result<AttestationGrant, String>) -> http::ReplyView {
    match outcome {
        Ok(grant) => http::json_reply(
            200,
            JsonView::object().with("status"@, JsonView::Str(grant.status@)).with(
                "security_token"@,
                JsonView::Str(grant.security_token@),
            ).with("expires_at"@, JsonView::Str(grant.expires_at@)).with(
                "session_id"@,
                JsonView::opt_text(text::opt_view(grant.session_id)),
            ),
        ),
        Err(e) => http::error_reply(401, e@),
    }
}

/// The answer to an attestation request, once the service was asked.
pub fn attest_seal_reply(outcome: Result<AttestationGrant, String>) -> (r: Reply)
    ensures
        r@ == attest_answer(outcome),
{
    match outcome {
        Ok(grant) => Reply::json(
            200,
            Json::object().with("status", Json::text(grant.status.as_str())).with(
                "security_token",
                Json::text(grant.security_token.as_str()),
            ).with("expires_at", Json::text(grant.expires_at.as_str())).with(
                "session_id",
                Json::opt_text(&grant.session_id),
            ),
        ),
        Err(e) => Reply::error(401, e.as_str()),
    }
}

/// An attestation on its way, and its caller once it is known.
pub struct AttestFlow {
    pub request: HttpAttestationRequest,
    /// The tenant that the request names as a realm slug, where it names one.
    pub explicit: Option<TenantId>,
    pub caller: Option<UserIdentity>,
    /// The execution that the request names, once the caller is known.
    pub execution: Option<u128>,
}

/// What was learnt of an attestation.
pub enum AttestEvent {
    /// The request came in, with the header given.
    Begun { authorization: Option<String> },
    /// The key was looked up; `None` where no repository is there. The tenant is the one
    /// that the key's tenant id names as a realm slug, where it names one.
    KeyFound { lookup: Option<KeyLookup>, tenant: Option<TenantId> },
    /// The token was validated; `None` where it is not valid, or cannot be told to be.
    TokenValidated(Option<UserIdentity>),
    /// The tenant of the execution; missing where the execution was not found.
    ExecutionFound(Option<TenantId>),
    Attested(Result<AttestationGrant, String>),
}

/// What is done next with an attestation.
pub enum AttestAction {
    LookUpKey { hash: String },
    ValidateToken { token: String },
    FindExecution { id: u128 },
    /// Ask the attestation service, in the tenant given.
    Attest { tenant_id: TenantId },
    Answer(Reply),
}

/// The mathematical content of what is done next with an attestation.
pub enum AttestActionView {
    LookUpKey { hash: Seq<char> },
    ValidateToken { token: Seq<char> },
    FindExecution { id: u128 },
    Attest { tenant_id: Seq<char> },
    Answer(http::ReplyView),
}

impl View for AttestAction {
    type V = AttestActionView;

    open spec fn view(&self) -> AttestActionView {
        match *self {
            AttestAction::LookUpKey { hash } => AttestActionView::LookUpKey { hash: hash@ },
            AttestAction::ValidateToken { token } => AttestActionView::ValidateToken {
                token: token@,
            },
            AttestAction::FindExecution { id } => AttestActionView::FindExecution { id },
            AttestAction::Attest { tenant_id } => AttestActionView::Attest { tenant_id: tenant_id@ },
            AttestAction::Answer(reply) => AttestActionView::Answer(reply@),
        }
    }
}

impl AttestFlow {
    /// What follows once the tenant was resolved, or not.
    pub open spec fn with_tenant(
        self,
        caller: Option<UserIdentityView>,
        execution: Option<Option<Seq<char>>>,
    ) -> AttestActionView {
        match attest_tenant(
            execution,
            caller,
            text::opt_view(self.request.tenant_id),
            identity::opt_tenant(self.explicit),
        ) {
            Ok(tenant_id) => AttestActionView::Attest { tenant_id },
            Err(e) => AttestActionView::Answer(http::error_reply(e.status(), e.text())),
        }
    }

    /// What follows once the caller is known, or known to be nobody: the execution that
    /// the request names comes first.
    pub open spec fn with_caller(
        self,
        caller: Option<UserIdentityView>,
        execution: Option<u128>,
    ) -> AttestActionView {
        match execution {
            Some(id) => AttestActionView::FindExecution { id },
            None => self.with_tenant(caller, None),
        }
    }

    /// The caller that is known after an event.
    pub open spec fn caller_after(self, event: AttestEvent) -> Option<UserIdentityView> {
        match event {
            AttestEvent::Begun { .. } => None,
            AttestEvent::KeyFound { lookup, tenant } => match lookup {
                Some(KeyLookup::Found(row)) => identity_of_key(row, identity::opt_tenant(tenant)),
                _ => None,
            },
            AttestEvent::TokenValidated(caller) => identity::held_identity(caller),
            _ => identity::held_identity(self.caller),
        }
    }

    /// The execution that is known to be named after an event.
    pub open spec fn execution_after(self, event: AttestEvent) -> Option<u128> {
        match event {
            AttestEvent::KeyFound { .. } | AttestEvent::TokenValidated(_) => execution_named(
                self.caller_after(event),
                text::opt_view(self.request.execution_id),
            ),
            AttestEvent::Begun { .. } => None,
            _ => self.execution,
        }
    }

    /// What follows from what was learnt.
    pub open spec fn next(self, event: AttestEvent) -> AttestActionView {
        match event {
            AttestEvent::Begun { authorization } => match bearer_credential(
                text::opt_view(authorization),
            ) {
                None => self.with_caller(None, None),
                Some(raw) => if "aegis_"@.is_prefix_of(raw) {
                    AttestActionView::LookUpKey { hash: api_keys::key_hash(raw) }
                } else {
                    AttestActionView::ValidateToken { token: raw }
                },
            },
            AttestEvent::KeyFound { .. } | AttestEvent::TokenValidated(_) => self.with_caller(
                self.caller_after(event),
                self.execution_after(event),
            ),
            AttestEvent::ExecutionFound(tenant) => self.with_tenant(
                identity::held_identity(self.caller),
                Some(identity::opt_tenant(tenant)),
            ),
            AttestEvent::Attested(outcome) => AttestActionView::Answer(attest_answer(outcome)),
        }
    }

    fn resolve(&self, execution: Option<Option<TenantId>>) -> (r: AttestAction)
        ensures
            r@ == self.with_tenant(
                identity::held_identity(self.caller),
                match execution {
                    Some(found) => Some(identity::opt_tenant(found)),
                    None => None,
                },
            ),
    {
        match resolve_attest_tenant(
            execution,
            self.caller.as_ref(),
            &self.request,
            self.explicit.clone(),
        ) {
            Ok(tenant_id) => AttestAction::Attest { tenant_id },
            Err(e) => AttestAction::Answer(e.reply()),
        }
    }

    fn go_on(&self) -> (r: AttestAction)
        ensures
            r@ == self.with_caller(identity::held_identity(self.caller), self.execution),
    {
        match self.execution {
            Some(id) => AttestAction::FindExecution { id },
            None => self.resolve(None),
        }
    }

    /// One step of an attestation: takes what was learnt and says what to do next.
    pub fn step(&mut self, event: AttestEvent) -> (action: AttestAction)
        ensures
            action@ == old(self).next(event),
            final(self).request == old(self).request,
            final(self).explicit == old(self).explicit,
            identity::held_identity(final(self).caller) == old(self).caller_after(event),
            final(self).execution == old(self).execution_after(event),
    {
        match event {
            AttestEvent::Begun { authorization } => {
                self.caller = None;
                self.execution = None;
                let header = match &authorization {
                    Some(h) => Some(h.as_str()),
                    None => None,
                };
                match authenticate_attest_request(header) {
                    AttestCredential::Missing => self.go_on(),
                    AttestCredential::ApiKey { hash, .. } => AttestAction::LookUpKey { hash },
                    AttestCredential::Jwt(token) => AttestAction::ValidateToken { token },
                }
            },
            AttestEvent::KeyFound { lookup, tenant } => {
                self.caller = identity_from_api_key(lookup, tenant);
                self.execution = execution_to_look_up(self.caller.as_ref(), &self.request);
                self.go_on()
            },
            AttestEvent::TokenValidated(caller) => {
                self.caller = caller;
                self.execution = execution_to_look_up(self.caller.as_ref(), &self.request);
                self.go_on()
            },
            AttestEvent::ExecutionFound(tenant) => self.resolve(Some(tenant)),
            AttestEvent::Attested(outcome) => AttestAction::Answer(attest_seal_reply(outcome)),
        }
    }
}

/// Whatever a request holds, without a caller that was told by its key or its token
/// nothing is attested.
pub proof fn law_strangers_are_not_attested(flow: AttestFlow, execution: Option<TenantId>)
    requires
        flow.caller is None,
    ensures
        flow.next(AttestEvent::TokenValidated(None)) == AttestActionView::Answer(
            http::error_reply(401, "unauthorized"@),
        ),
        flow.next(AttestEvent::KeyFound { lookup: None, tenant: None }) == AttestActionView::Answer(
            http::error_reply(401, "unauthorized"@),
        ),
        flow.next(AttestEvent::ExecutionFound(execution)) == AttestActionView::Answer(
            http::error_reply(401, "unauthorized"@),
        ),
{
}

/// An envelope that can be handed to the tool service.
pub struct SealEnvelope {
    pub protocol: String,
    pub security_token: String,
    pub signature: String,
    pub payload: Json,
    pub timestamp: String,
}

/// Decides on a request to invoke a tool: the envelope to hand on, where the
/// request names its protocol and its time, or the answer that refuses it.
pub fn invoke_seal(request: HttpSealEnvelope) -> (r: Result<SealEnvelope, Reply>)
    ensures
        request.protocol is Some && request.timestamp is Some ==> r == Ok::<SealEnvelope, Reply>(
            SealEnvelope {
                protocol: request.protocol->Some_0,
                security_token: request.security_token,
                signature: request.signature,
                payload: request.payload,
                timestamp: request.timestamp->Some_0,
            },
        ),
        request.protocol is None || request.timestamp is None ==> (r matches Err(reply) && reply@
            == http::error_reply(
            400,
            "SEAL envelope requires both 'protocol' and 'timestamp' fields"@,
        )),
{
    match (request.protocol, request.timestamp) {
        (Some(protocol), Some(timestamp)) => Ok(
            SealEnvelope {
                protocol,
                security_token: request.security_token,
                signature: request.signature,
                payload: request.payload,
                timestamp,
            },
        ),
        _ => Err(
            Reply::error(400, "SEAL envelope requires both 'protocol' and 'timestamp' fields"),
        ),
    }
}

/// The answer to a request to invoke a tool, once the service was asked.
pub fn invoke_seal_reply(outcome: Result<Json, String>) -> (r: Reply)
    ensures
        r@ == (match outcome {
            Ok(result) => http::json_reply(200, result@),
            Err(e) => http::error_reply(400, e@),
        }),
{
    match outcome {
        Ok(result) => Reply::json(200, result),
        Err(e) => Reply::error(400, e.as_str()),
    }
}

/// The security context that tools are listed for: the header's, without white
/// space at its ends, or else the query's.
pub open spec fn tools_context(header: Option<Seq<char>>, query: Option<Seq<char>>) -> Option<
    Seq<char>,
> {
    match header {
        Some(h) => if text::trimmed(h).len() > 0 {
            Some(text::trimmed(h))
        } else {
            query
        },
        None => query,
    }
}

/// The security context that tools are listed for.
pub fn seal_tools_context(header: Option<&str>, query: Option<String>) -> (r: Option<String>)
    ensures
        text::opt_view(r) == tools_context(text::opt_str_view(header), text::opt_view(query)),
{
    match header {
        Some(h) => {
            let trimmed = text::trim(h);
            if trimmed.as_str().is_empty() {
                query
            } else {
                Some(trimmed)
            }
        },
        None => query,
    }
}

/// The answer to a request to list tools.
pub fn list_seal_tools_reply(context: &Option<String>, tools: Result<Json, String>) -> (r: Reply)
    ensures
        r@ == (match tools {
            Ok(tools) => http::json_reply(
                200,
                JsonView::object().with("protocol"@, JsonView::Str("seal/v1"@)).with(
                    "attestation_endpoint"@,
                    JsonView::Str("/v1/seal/attest"@),
                ).with("invoke_endpoint"@, JsonView::Str("/v1/seal/invoke"@)).with(
                    "security_context"@,
                    JsonView::opt_text(text::opt_view(*context)),
                ).with("tools"@, tools@),
            ),
            Err(e) => http::error_reply(500, e@),
        }),
{
    match tools {
        Ok(tools) => Reply::json(
            200,
            Json::object().with("protocol", Json::text("seal/v1")).with(
                "attestation_endpoint",
                Json::text("/v1/seal/attest"),
            ).with("invoke_endpoint", Json::text("/v1/seal/invoke")).with(
                "security_context",
                Json::opt_text(context),
            ).with("tools", tools),
        ),
        Err(e) => Reply::error(500, e.as_str()),
    }
}

/// Without an authenticated caller no tenant is ever resolved, whatever the request
/// holds.
pub proof fn law_no_identity_fails_closed(
    execution: Option<Option<Seq<char>>>,
    requested: Option<Seq<char>>,
    explicit: Option<Seq<char>>,
)
    ensures
        attest_tenant(execution, None, requested, explicit) == Err::<Seq<char>, _>(
            AttestTenantErrorView::Unauthenticated,
        ),
{
}

/// A caller that may not delegate is only ever attested for their own tenant.
pub proof fn law_attested_for_own_tenant_only(
    execution: Option<Option<Seq<char>>>,
    caller: UserIdentityView,
    requested: Option<Seq<char>>,
    explicit: Option<Seq<char>>,
)
    requires
        !delegates(caller.identity_kind),
    ensures
        attest_tenant(execution, Some(caller), requested, explicit) matches Ok(tenant) ==> tenant
            == own_tenant(caller.identity_kind),
{
}

/// A caller that may not delegate is refused an execution of another tenant.
pub proof fn law_foreign_execution_refused(
    tenant: Seq<char>,
    caller: UserIdentityView,
    requested: Option<Seq<char>>,
    explicit: Option<Seq<char>>,
)
    requires
        !delegates(caller.identity_kind),
        tenant != own_tenant(caller.identity_kind),
    ensures
        attest_tenant(Some(Some(tenant)), Some(caller), requested, explicit) == Err::<Seq<char>, _>(
            AttestTenantErrorView::TenantMismatch {
                expected: own_tenant(caller.identity_kind),
                got: tenant,
            },
        ),
{
}

/// A caller that may delegate gets the tenant that they name.
pub proof fn law_delegation_honoured(
    caller: UserIdentityView,
    requested: Seq<char>,
    tenant: Seq<char>,
)
    requires
        delegates(caller.identity_kind),
        requested.len() > 0,
    ensures
        attest_tenant(None, Some(caller), Some(requested), Some(tenant)) == Ok::<
            _,
            AttestTenantErrorView,
        >(tenant),
{
}

/// A key that was stored for a caller stands for a caller with the same subject and
/// the same claims.
pub proof fn law_key_keeps_claims(
    row: ApiKeyRow,
    owner: UserIdentityView,
    tenant: Seq<char>,
)
    requires
        row.user_id@ == owner.sub,
        (text::opt_view(row.aegis_role), text::opt_view(row.zaru_tier)) == api_keys::claim_columns(
            owner.identity_kind,
        ),
        owner.identity_kind is Operator || (owner.identity_kind matches
            IdentityKindView::ConsumerUser { tenant_id, .. } && tenant_id == tenant),
    ensures
        identity_of_key(row, Some(tenant)) is Some,
        identity_of_key(row, Some(tenant))->Some_0.sub == owner.sub,
        identity_of_key(row, Some(tenant))->Some_0.identity_kind == owner.identity_kind,
{
    api_keys::law_claim_columns_round_trip(owner.identity_kind);
}

/// Why a token is refused is answered by its kind.
pub proof fn law_attestation_refusals_by_status(e: AttestTenantErrorView)
    ensures
        e.status() == 401 <==> e is Unauthenticated,
        e.status() == 403 <==> e is TenantMismatch,
        e.status() == 404 <==> e is ExecutionNotFound,
        e.status() == 400 <==> e is OperatorMissingTarget,
        e matches AttestTenantErrorView::TenantMismatch { expected, got } ==> text::occurs(
            expected,
            e.text(),
        ) && text::occurs(got, e.text()),
{
    if let AttestTenantErrorView::TenantMismatch { expected, got } = e {
        let head = "permission_denied: tenant mismatch (identity tenant: "@;
        let middle = ", requested: "@;
        let n = head.len() as int;
        let m = n + expected.len() + middle.len();
        assert(e.text() =~= head + expected + middle + got + ")"@);
        assert(e.text().subrange(n, n + expected.len()) =~= expected);
        assert(text::occurs_at(expected, e.text(), n));
        assert(e.text().subrange(m, m + got.len()) =~= got);
        assert(text::occurs_at(got, e.text(), m));
    }
}

/// Everybody is in their own tenant; operators and services are in the system's, and they
/// alone act for others.
pub proof fn law_own_tenants(kind: IdentityKindView)
    ensures
        kind matches IdentityKindView::ConsumerUser { tenant_id, .. } ==> own_tenant(kind)
            == tenant_id,
        kind matches IdentityKindView::TenantUser { tenant: Some(t), .. } ==> own_tenant(kind)
            == t,
        kind matches IdentityKindView::TenantUser { tenant: None, .. } ==> own_tenant(kind)
            == "aegis-system"@,
        kind is Operator || kind is ServiceAccount ==> own_tenant(kind) == "aegis-system"@,
        delegates(kind) <==> kind is Operator || kind is ServiceAccount,
{
}

/// A known caller gets a token for their own tenant where they ask for nothing else, and
/// for the tenant of an execution that is theirs; only who acts for others gets one for the
/// tenant that they name.
pub proof fn law_tokens_are_for_the_right_tenant(
    caller: UserIdentityView,
    named: Seq<char>,
    asked: Seq<char>,
)
    requires
        asked.len() > 0,
    ensures
        !(caller.identity_kind is Operator) ==> attest_tenant(None, Some(caller), None, None) == Ok::<
            Seq<char>,
            AttestTenantErrorView,
        >(own_tenant(caller.identity_kind)),
        caller.identity_kind is Operator ==> attest_tenant(None, Some(caller), None, None) == Err::<
            Seq<char>,
            AttestTenantErrorView,
        >(AttestTenantErrorView::OperatorMissingTarget),
        delegates(caller.identity_kind) ==> attest_tenant(
            None,
            Some(caller),
            Some(asked),
            Some(named),
        ) == Ok::<Seq<char>, AttestTenantErrorView>(named),
        !delegates(caller.identity_kind) ==> attest_tenant(
            None,
            Some(caller),
            Some(asked),
            Some(named),
        ) == Ok::<Seq<char>, AttestTenantErrorView>(own_tenant(caller.identity_kind)),
        attest_tenant(None, Some(caller), Some(asked), None) matches Err(e) && e is TenantMismatch,
        attest_tenant(
            Some(Some(own_tenant(caller.identity_kind))),
            Some(caller),
            None,
            None,
        ) == Ok::<Seq<char>, AttestTenantErrorView>(own_tenant(caller.identity_kind)),
        delegates(caller.identity_kind) ==> attest_tenant(
            Some(Some(named)),
            Some(caller),
            None,
            None,
        ) == Ok::<Seq<char>, AttestTenantErrorView>(named),
        attest_tenant(Some(None), Some(caller), None, None) == Err::<
            Seq<char>,
            AttestTenantErrorView,
        >(AttestTenantErrorView::ExecutionNotFound),
{
}

/// A key is its owner's: with a role it is an operator's, without one a consumer's in the
/// tenant that was found, of the tier that it carries.
pub proof fn law_keys_speak_for_their_owner(row: ApiKeyRow, claim: String, tenant: Seq<char>)
    ensures
        identity_of_key(row, Some(tenant)) matches Some(i) ==> i.sub == row.user_id@ && i.email is None
            && i.name is None,
        row.aegis_role == Some(claim) && claim@ == "aegis:admin"@ ==> (identity_of_key(
            row,
            None,
        ) matches Some(i) && i.identity_kind == (IdentityKindView::Operator {
            aegis_role: AegisRole::Admin,
        }) && i.realm_slug == "aegis-system"@),
        row.aegis_role == Some(claim) && AegisRole::of_claim(claim@) is None ==> identity_of_key(
            row,
            Some(tenant),
        ) is None,
        row.aegis_role is None ==> (identity_of_key(row, Some(tenant)) matches Some(i)
            && i.realm_slug == "zaru-consumer"@ && i.identity_kind == (
        IdentityKindView::ConsumerUser {
            zaru_tier: stored_tier(text::opt_view(row.zaru_tier)),
            tenant_id: tenant,
        })),
        row.aegis_role is None ==> identity_of_key(row, None) is None,
        stored_tier(None) == ZaruTier::Free,
        stored_tier(Some("pro"@)) == ZaruTier::Pro,
        stored_tier(Some("business"@)) == ZaruTier::Business,
        stored_tier(Some("enterprise"@)) == ZaruTier::Enterprise,
        ZaruTier::of_claim(claim@) is None ==> stored_tier(Some(claim@)) == ZaruTier::Free,
{
    reveal_strlit("free");
    reveal_strlit("pro");
    reveal_strlit("business");
    reveal_strlit("enterprise");
    assert("free"@.len() == 4 && "pro"@.len() == 3 && "business"@.len() == 8 && "enterprise"@.len() == 10);
}

/// A bearer header holds what follows its scheme, without blanks at its ends, unless that
/// is nothing.
pub proof fn law_bearer_headers_hold_a_credential(token: Seq<char>, header: Seq<char>)
    ensures
        text::trimmed(token).len() > 0 ==> bearer_credential(Some("Bearer "@ + token)) == Some(
            text::trimmed(token),
        ),
        text::trimmed(token).len() == 0 ==> bearer_credential(Some("Bearer "@ + token)) is None,
        !"Bearer "@.is_prefix_of(header) ==> bearer_credential(Some(header)) is None,
        bearer_credential(None) is None,
{
    let whole = "Bearer "@ + token;
    assert("Bearer "@.is_prefix_of(whole));
    assert(whole.skip("Bearer "@.len() as int) =~= token);
}

/// A key is looked up by its hash and any other credential validated as a token; without
/// one there is no caller.
pub proof fn law_credentials_are_looked_up(flow: AttestFlow, header: String, raw: Seq<char>)
    requires
        bearer_credential(Some(header@)) == Some(raw),
    ensures
        "aegis_"@.is_prefix_of(raw) ==> flow.next(
            AttestEvent::Begun { authorization: Some(header) },
        ) == (AttestActionView::LookUpKey { hash: api_keys::key_hash(raw) }),
        !"aegis_"@.is_prefix_of(raw) ==> flow.next(
            AttestEvent::Begun { authorization: Some(header) },
        ) == (AttestActionView::ValidateToken { token: raw }),
        flow.next(AttestEvent::Begun { authorization: None }) matches AttestActionView::Answer(
            reply,
        ) && reply.status == 401,
{
}

/// A caller who names an execution has it looked up first, and one who names none gets
/// their token at once.
pub proof fn law_executions_are_looked_up_first(
    flow: AttestFlow,
    caller: UserIdentity,
    named: String,
    id: u128,
    tenant: TenantId,
)
    ensures
        flow.request.execution_id == Some(named) && primitives::parsed_uuid(named@) == Some(id)
            ==> flow.next(AttestEvent::TokenValidated(Some(caller))) == (
        AttestActionView::FindExecution { id }),
        flow.request.execution_id is None ==> flow.next(AttestEvent::TokenValidated(Some(caller)))
            == flow.with_tenant(Some(caller@), None),
        flow.caller == Some(caller) && attest_tenant(
            Some(Some(tenant@)),
            Some(caller@),
            text::opt_view(flow.request.tenant_id),
            identity::opt_tenant(flow.explicit),
        ) == Ok::<Seq<char>, AttestTenantErrorView>(tenant@) ==> flow.next(
            AttestEvent::ExecutionFound(Some(tenant)),
        ) == (AttestActionView::Attest { tenant_id: tenant@ }),
        flow.caller == Some(caller) ==> (flow.next(
            AttestEvent::ExecutionFound(None),
        ) matches AttestActionView::Answer(reply) && reply.status == 404),
{
}

/// A token that was given is told with its end and its session; a refusal is told as 401.
pub proof fn law_a_given_token_is_told(flow: AttestFlow, grant: AttestationGrant, e: String)
    ensures
        ({
            &&& flow.next(AttestEvent::Attested(Ok(grant))) matches AttestActionView::Answer(reply)
            &&& reply.status == 200
            &&& reply.body matches Some(body)
            &&& body.get("status"@) == Some(JsonView::Str(grant.status@))
            &&& body.get("security_token"@) == Some(JsonView::Str(grant.security_token@))
            &&& body.get("expires_at"@) == Some(JsonView::Str(grant.expires_at@))
            &&& grant.session_id matches Some(s) ==> body.get("session_id"@) == Some(
                JsonView::Str(s@),
            )
        }),
        flow.next(AttestEvent::Attested(Err(e))) matches AttestActionView::Answer(reply)
            && reply.status == 401,
{
    broadcast use crate::json::lemma_get_with;

    reveal_strlit("status");
    reveal_strlit("security_token");
    reveal_strlit("expires_at");
    reveal_strlit("session_id");
    assert("status"@.len() == 6 && "security_token"@.len() == 14 && "expires_at"@.len() == 10 && "session_id"@.len() == 10 && "session_id"@[0] == 's' && "expires_at"@[0] == 'e');
}

/// The context of a list of tools is the one in the header, unless that is blank.
pub proof fn law_the_header_names_the_context(header: Seq<char>, query: Option<Seq<char>>)
    ensures
        text::trimmed(header).len() > 0 ==> tools_context(Some(header), query) == Some(
            text::trimmed(header),
        ),
        text::trimmed(header).len() == 0 ==> tools_context(Some(header), query) == query,
        tools_context(None, query) == query,
{
}

/// The caller is the one that the token or the key is of, and stays so; the execution is
/// the one that they name.
pub proof fn law_callers_stay_known(
    flow: AttestFlow,
    caller: UserIdentity,
    row: ApiKeyRow,
    tenant: TenantId,
    found: Option<TenantId>,
    named: String,
)
    ensures
        flow.caller_after(AttestEvent::TokenValidated(Some(caller))) == Some(caller@),
        flow.caller_after(AttestEvent::TokenValidated(None)) is None,
        flow.caller_after(
            AttestEvent::KeyFound { lookup: Some(KeyLookup::Found(row)), tenant: Some(tenant) },
        ) == identity_of_key(row, Some(tenant@)),
        flow.caller_after(
            AttestEvent::KeyFound { lookup: Some(KeyLookup::NotFound), tenant: Some(tenant) },
        ) is None,
        flow.caller_after(AttestEvent::KeyFound { lookup: None, tenant: Some(tenant) }) is None,
        flow.caller == Some(caller) ==> flow.caller_after(AttestEvent::ExecutionFound(found))
            == Some(caller@),
        flow.request.execution_id == Some(named) ==> flow.execution_after(
            AttestEvent::TokenValidated(Some(caller)),
        ) == primitives::parsed_uuid(named@),
        flow.request.execution_id is None ==> flow.execution_after(
            AttestEvent::TokenValidated(Some(caller)),
        ) is None,
        flow.execution_after(AttestEvent::TokenValidated(None)) is None,
        flow.execution_after(AttestEvent::ExecutionFound(found)) == flow.execution,
{
}

} // verus!
