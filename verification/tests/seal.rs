use aegis_daemon::handlers::api_keys::{ApiKeyRow, KeyLookup};
use aegis_daemon::handlers::seal::{
    attest_seal_reply, attestation_request, authenticate_attest_request, execution_to_look_up,
    identity_from_api_key, identity_tenant, invoke_seal, key_hash_prefix, may_delegate,
    resolve_attest_tenant, seal_tools_context, AttestAction, AttestCredential, AttestEvent,
    AttestFlow, AttestTenantError, AttestationGrant, HttpAttestationRequest, HttpSealEnvelope, RealmKind,
};
use aegis_daemon::identity::{AegisRole, IdentityKind, TenantId, UserIdentity, ZaruTier};
use aegis_daemon::json::Json;

fn req() -> HttpAttestationRequest {
    HttpAttestationRequest {
        agent_id: None,
        execution_id: None,
        container_id: None,
        public_key: "k".to_string(),
        security_context: None,
        principal_subject: None,
        user_id: None,
        workload_id: None,
        zaru_tier: None,
        tenant_id: None,
        task_summary: None,
    }
}

fn consumer_identity(sub: &str) -> UserIdentity {
    let tenant = TenantId::for_consumer_user(sub).unwrap();
    UserIdentity {
        sub: sub.to_string(),
        realm_slug: "zaru-consumer".to_string(),
        email: None,
        name: None,
        identity_kind: IdentityKind::ConsumerUser {
            zaru_tier: ZaruTier::Free,
            tenant_id: tenant,
        },
    }
}

fn operator_identity() -> UserIdentity {
    UserIdentity {
        sub: "op-1".to_string(),
        realm_slug: "aegis-system".to_string(),
        email: None,
        name: None,
        identity_kind: IdentityKind::Operator {
            aegis_role: AegisRole::Admin,
        },
    }
}

fn service_account_identity() -> UserIdentity {
    UserIdentity {
        sub: "svc-1".to_string(),
        realm_slug: "aegis-system".to_string(),
        email: None,
        name: None,
        identity_kind: IdentityKind::ServiceAccount {
            client_id: "aegis-sdk".to_string(),
        },
    }
}

/// Resolves a request whose execution is in `execution_tenant`; an execution that
/// is not there has none. The lookup is made only where the library asks for it.
fn resolve(
    execution_tenant: Option<TenantId>,
    identity: Option<&UserIdentity>,
    request: &HttpAttestationRequest,
) -> Result<TenantId, AttestTenantError> {
    let found = execution_to_look_up(identity, request).map(|_| execution_tenant);
    let explicit = request.tenant_id.as_deref().map(TenantId::new);
    resolve_attest_tenant(found, identity, request, explicit)
}

/// Resolves a request for which no execution may be looked up.
fn resolve_without_lookup(
    identity: Option<&UserIdentity>,
    request: &HttpAttestationRequest,
) -> Result<TenantId, AttestTenantError> {
    assert!(
        execution_to_look_up(identity, request).is_none(),
        "execution lookup must not run on this branch"
    );
    resolve(None, identity, request)
}

#[test]
fn consumer_user_with_no_explicit_args_resolves_to_personal_tenant() {
    let identity = consumer_identity("user-alpha");
    let expected = TenantId::for_consumer_user("user-alpha").unwrap();
    let result = resolve_without_lookup(Some(&identity), &req()).unwrap();
    assert_eq!(result, expected);
    assert_ne!(
        result,
        TenantId::consumer(),
        "must NOT default to the global zaru-consumer singleton"
    );
}

#[test]
fn consumer_user_explicit_other_tenant_is_ignored_and_warns() {
    let identity = consumer_identity("user-alpha");
    let mut request = req();
    request.tenant_id = Some(
        TenantId::for_consumer_user("user-victim")
            .unwrap()
            .as_str()
            .to_string(),
    );
    let result = resolve_without_lookup(Some(&identity), &request).unwrap();
    let expected = TenantId::for_consumer_user("user-alpha").unwrap();
    assert_eq!(result, expected);
}

#[test]
fn service_account_with_explicit_tenant_is_honored() {
    let identity = service_account_identity();
    let mut request = req();
    let target = TenantId::for_consumer_user("user-target").unwrap();
    request.tenant_id = Some(target.as_str().to_string());
    let result = resolve_without_lookup(Some(&identity), &request).unwrap();
    assert_eq!(result, target);
}

#[test]
fn service_account_delegation_returns_target_tenant_not_system() {
    let identity = service_account_identity();
    let mut request = req();
    let target = TenantId::for_consumer_user("user-target").unwrap();
    request.tenant_id = Some(target.as_str().to_string());
    let result = resolve_without_lookup(Some(&identity), &request).unwrap();
    assert_ne!(result, TenantId::system());
    assert_eq!(result, target);
}

#[test]
fn consumer_user_with_own_execution_resolves_to_own_tenant() {
    let identity = consumer_identity("user-alpha");
    let own_tenant = TenantId::for_consumer_user("user-alpha").unwrap();
    let mut request = req();
    request.execution_id = Some(uuid::Uuid::new_v4().to_string());
    let result = resolve(Some(own_tenant.clone()), Some(&identity), &request).unwrap();
    assert_eq!(result, own_tenant);
}

#[test]
fn consumer_user_attesting_other_users_execution_is_rejected() {
    let identity = consumer_identity("user-alpha");
    let victim_tenant = TenantId::for_consumer_user("user-victim").unwrap();
    let mut request = req();
    request.execution_id = Some(uuid::Uuid::new_v4().to_string());
    let err = resolve(Some(victim_tenant), Some(&identity), &request).unwrap_err();
    assert!(matches!(err, AttestTenantError::TenantMismatch { .. }));
}

#[test]
fn execution_lookup_failure_is_not_found() {
    let identity = consumer_identity("user-alpha");
    let mut request = req();
    request.execution_id = Some(uuid::Uuid::new_v4().to_string());
    let err = resolve(None, Some(&identity), &request).unwrap_err();
    assert_eq!(err, AttestTenantError::ExecutionNotFound);
}

#[test]
fn operator_with_explicit_tenant_is_honored() {
    let identity = operator_identity();
    let mut request = req();
    let target = TenantId::for_consumer_user("user-target").unwrap();
    request.tenant_id = Some(target.as_str().to_string());
    let result = resolve_without_lookup(Some(&identity), &request).unwrap();
    assert_eq!(result, target);
}

#[test]
fn operator_without_target_is_rejected() {
    let identity = operator_identity();
    let err = resolve_without_lookup(Some(&identity), &req()).unwrap_err();
    assert_eq!(err, AttestTenantError::OperatorMissingTarget);
}

#[test]
fn no_identity_fails_closed_unauthenticated() {
    let err = resolve_without_lookup(None, &req()).unwrap_err();
    assert_eq!(err, AttestTenantError::Unauthenticated);
}

#[test]
fn may_delegate_classifies_correctly() {
    assert!(may_delegate(&operator_identity()));
    assert!(may_delegate(&service_account_identity()));
    assert!(!may_delegate(&consumer_identity("user-1")));
}

#[test]
fn the_execution_that_is_looked_up_is_the_one_in_the_request() {
    let identity = consumer_identity("user-alpha");
    let id = uuid::Uuid::new_v4();
    let mut request = req();
    request.execution_id = Some(id.to_string());
    assert_eq!(execution_to_look_up(Some(&identity), &request), Some(id.as_u128()));
    request.execution_id = Some("not-an-id".to_string());
    assert_eq!(execution_to_look_up(Some(&identity), &request), None);
}

#[test]
fn a_slug_that_names_no_tenant_is_a_mismatch() {
    let identity = service_account_identity();
    let mut request = req();
    request.tenant_id = Some("bad slug".to_string());
    let err = resolve_attest_tenant(None, Some(&identity), &request, None).unwrap_err();
    assert_eq!(
        err,
        AttestTenantError::TenantMismatch {
            expected: "aegis-system".to_string(),
            got: "bad slug".to_string(),
        }
    );
}

#[test]
fn refusals_have_their_status() {
    assert_eq!(AttestTenantError::Unauthenticated.http_status(), 401);
    assert_eq!(AttestTenantError::ExecutionNotFound.http_status(), 404);
    assert_eq!(AttestTenantError::OperatorMissingTarget.http_status(), 400);
    let mismatch = AttestTenantError::TenantMismatch {
        expected: "a".to_string(),
        got: "b".to_string(),
    };
    assert_eq!(mismatch.http_status(), 403);
    assert_eq!(mismatch.reply().status, 403);
}

#[test]
fn service_accounts_attest_for_the_system() {
    assert_eq!(identity_tenant(&service_account_identity()), TenantId::system());
    assert_eq!(
        identity_tenant(&consumer_identity("a-b")).as_str(),
        "u-ab"
    );
}

#[test]
fn a_stored_key_keeps_its_owner_s_claims() {
    let row = ApiKeyRow {
        user_id: "user-1".to_string(),
        tenant_id: "u-user1".to_string(),
        aegis_role: None,
        scopes: vec![],
        zaru_tier: Some("pro".to_string()),
    };
    let identity =
        identity_from_api_key(Some(KeyLookup::Found(row)), Some(TenantId::new("u-user1")))
            .expect("the key is known");
    assert_eq!(identity.sub, "user-1");
    match identity.identity_kind {
        IdentityKind::ConsumerUser { zaru_tier, tenant_id } => {
            assert_eq!(zaru_tier, ZaruTier::Pro);
            assert_eq!(tenant_id.as_str(), "u-user1");
        }
        _ => panic!("a key with a tier belongs to a consumer"),
    }

    let row = ApiKeyRow {
        user_id: "op".to_string(),
        tenant_id: "aegis-system".to_string(),
        aegis_role: Some("aegis:operator".to_string()),
        scopes: vec![],
        zaru_tier: None,
    };
    let identity = identity_from_api_key(Some(KeyLookup::Found(row)), None).unwrap();
    assert!(matches!(
        identity.identity_kind,
        IdentityKind::Operator { aegis_role: AegisRole::Operator }
    ));
    assert!(identity_from_api_key(Some(KeyLookup::NotFound), None).is_none());
    assert!(identity_from_api_key(None, None).is_none());
}

#[test]
fn credentials_are_told_apart_by_their_prefix() {
    match authenticate_attest_request(Some("Bearer aegis_abc")) {
        AttestCredential::ApiKey { key, hash } => {
            assert_eq!(key, "aegis_abc");
            assert_eq!(hash.len(), 64);
            assert_eq!(key_hash_prefix("aegis_abc"), hash[..12].to_string());
        }
        _ => panic!("an API key"),
    }
    match authenticate_attest_request(Some("Bearer a.b.c")) {
        AttestCredential::Jwt(token) => assert_eq!(token, "a.b.c"),
        _ => panic!("a token"),
    }
    assert!(matches!(authenticate_attest_request(None), AttestCredential::Missing));
}

#[test]
fn the_attestation_carries_the_resolved_tenant() {
    let mut request = req();
    request.task_summary = Some("t".to_string());
    let out = attestation_request(request, TenantId::new("u-1"), Some(RealmKind::Consumer));
    assert_eq!(out.tenant_id.as_str(), "u-1");
    assert_eq!(out.realm, RealmKind::Consumer);
    assert_eq!(out.public_key_pem, "k");
    assert_eq!(out.task_summary, Some("t".to_string()));
}

#[test]
fn a_grant_is_shown_with_its_token() {
    let reply = attest_seal_reply(Ok(AttestationGrant {
        status: "ok".to_string(),
        security_token: "tok".to_string(),
        expires_at: "later".to_string(),
        session_id: None,
    }));
    assert_eq!(reply.status, 200);
    assert_eq!(reply.body.as_ref().and_then(|b| b.get_str("security_token")), Some("tok"));
}

#[test]
fn an_envelope_needs_its_protocol_and_timestamp() {
    let envelope = |protocol: Option<&str>, timestamp: Option<&str>| HttpSealEnvelope {
        protocol: protocol.map(|s| s.to_string()),
        security_token: "tok".to_string(),
        signature: "sig".to_string(),
        payload: Json::Null,
        timestamp: timestamp.map(|s| s.to_string()),
    };
    let ok = invoke_seal(envelope(Some("seal/v1"), Some("now")));
    assert!(matches!(ok, Ok(e) if e.protocol == "seal/v1" && e.timestamp == "now"));
    assert!(invoke_seal(envelope(Some("seal/v1"), None)).is_err());
}

#[test]
fn the_header_names_the_context_before_the_query() {
    assert_eq!(
        seal_tools_context(Some("h"), Some("q".to_string())),
        Some("h".to_string())
    );
    assert_eq!(seal_tools_context(None, Some("q".to_string())), Some("q".to_string()));
    assert_eq!(seal_tools_context(None, None), None);
    assert_eq!(seal_tools_context(Some("  "), Some("q".to_string())), Some("q".to_string()));
    assert_eq!(seal_tools_context(Some(" h "), None), Some("h".to_string()));
}

fn flow(request: HttpAttestationRequest) -> AttestFlow {
    AttestFlow { request, explicit: None, caller: None, execution: None }
}

#[test]
fn an_attestation_goes_from_its_credential_to_its_tenant() {
    let id = uuid::Uuid::from_u128(4);
    let mut request = req();
    request.execution_id = Some(id.to_string());
    let mut attest = flow(request);
    let begun = |header: Option<&str>| AttestEvent::Begun {
        authorization: header.map(|h| h.to_string()),
    };
    assert!(matches!(
        attest.step(begun(Some("Bearer  tok "))),
        AttestAction::ValidateToken { token } if token == "tok"
    ));
    let user = consumer_identity("user-1");
    let own = identity_tenant(&user);
    assert!(matches!(
        attest.step(AttestEvent::TokenValidated(Some(user))),
        AttestAction::FindExecution { id: 4 }
    ));
    assert!(matches!(
        attest.step(AttestEvent::ExecutionFound(Some(own.clone()))),
        AttestAction::Attest { tenant_id } if tenant_id == own
    ));
    let status = |action| match action {
        AttestAction::Answer(reply) => reply.status,
        _ => panic!("an answer"),
    };
    let foreign = AttestEvent::ExecutionFound(Some(TenantId::new("u-other")));
    assert_eq!(status(attest.step(foreign)), 403);
    assert_eq!(status(attest.step(AttestEvent::ExecutionFound(None))), 404);
    assert_eq!(status(attest.step(begun(None))), 401);
    assert_eq!(status(attest.step(AttestEvent::Attested(Err("x".to_string())))), 401);
}

#[test]
fn a_key_stands_for_its_owner_in_an_attestation() {
    let mut attest = flow(req());
    let begun = AttestEvent::Begun { authorization: Some("Bearer aegis_k".to_string()) };
    assert!(matches!(attest.step(begun), AttestAction::LookUpKey { hash } if hash.len() == 64));
    let row = ApiKeyRow {
        user_id: "user-1".to_string(),
        tenant_id: "u-1".to_string(),
        aegis_role: None,
        scopes: vec![],
        zaru_tier: None,
    };
    let found = AttestEvent::KeyFound {
        lookup: Some(KeyLookup::Found(row)),
        tenant: Some(TenantId::new("u-1")),
    };
    assert!(matches!(
        attest.step(found),
        AttestAction::Attest { tenant_id } if tenant_id.as_str() == "u-1"
    ));
    let unknown = AttestEvent::KeyFound { lookup: Some(KeyLookup::NotFound), tenant: None };
    assert!(matches!(attest.step(unknown), AttestAction::Answer(reply) if reply.status == 401));
}
