use aegis_daemon::handlers::api_keys::{
    create_api_key, create_api_key_with, created_api_key_reply, generate_api_key, hash_key,
    identity_claim_columns, key_char, key_from_indices, list_api_keys_reply,
    revoke_api_key_reply, validate_api_key, validate_api_key_reply, ApiKeyRow, ApiKeySummary,
    CreateApiKeyRequest, KeyLookup, RevokeOutcome,
};
use aegis_daemon::handlers::permissions::{operation_tenant, Operation};
use aegis_daemon::handlers::{bounded_limit, tenant_id_from_identity, tenant_id_from_request};
use aegis_daemon::json::Json;
use aegis_daemon::identity::{
    user_sub, user_tier, AegisRole, IdentityKind, TenantId, UserIdentity, ZaruTier,
};

fn consumer(sub: &str, tier: ZaruTier) -> UserIdentity {
    UserIdentity {
        sub: sub.to_string(),
        realm_slug: "zaru-consumer".to_string(),
        email: None,
        name: None,
        identity_kind: IdentityKind::ConsumerUser {
            zaru_tier: tier,
            tenant_id: TenantId::consumer(),
        },
    }
}

fn operator(role: AegisRole) -> UserIdentity {
    UserIdentity {
        sub: "op-1".to_string(),
        realm_slug: "aegis-system".to_string(),
        email: None,
        name: None,
        identity_kind: IdentityKind::Operator { aegis_role: role },
    }
}

fn service_account_identity() -> UserIdentity {
    UserIdentity {
        sub: "svc-1".to_string(),
        realm_slug: "aegis-system".to_string(),
        email: None,
        name: None,
        identity_kind: IdentityKind::ServiceAccount {
            client_id: "aegis-temporal-worker".to_string(),
        },
    }
}

fn tenant_user_identity(slug: &str) -> UserIdentity {
    UserIdentity {
        sub: "tu-1".to_string(),
        realm_slug: format!("tenant-{slug}"),
        email: None,
        name: None,
        identity_kind: IdentityKind::TenantUser {
            tenant_slug: slug.to_string(),
            tenant: Some(TenantId::new(slug)),
        },
    }
}

fn default_tenant() -> TenantId {
    TenantId::new("the-default-tenant")
}

#[test]
fn consumer_user_zaru_tier_column_is_bare_claim_not_security_context_name() {
    for tier in [
        ZaruTier::Free,
        ZaruTier::Pro,
        ZaruTier::Business,
        ZaruTier::Enterprise,
    ] {
        let identity = consumer("user-alpha", tier);
        let (aegis_role, zaru_tier_col) = identity_claim_columns(&identity);

        assert_eq!(
            aegis_role, None,
            "consumer user must not populate aegis_role"
        );
        let zaru_tier_col = zaru_tier_col.expect("consumer user must populate zaru_tier");

        assert!(
            !zaru_tier_col.starts_with("zaru-"),
            "zaru_tier column must hold the bare claim, got {zaru_tier_col:?}"
        );

        let parsed = ZaruTier::from_claim(&zaru_tier_col).unwrap_or_else(|| {
            panic!("ZaruTier::from_claim({zaru_tier_col:?}) returned None")
        });
        assert_eq!(parsed, tier);
    }
}

#[test]
fn operator_aegis_role_column_round_trips_through_from_claim() {
    for role in [AegisRole::Admin, AegisRole::Operator, AegisRole::Readonly] {
        let identity = operator(role);
        let (aegis_role_col, zaru_tier) = identity_claim_columns(&identity);

        assert_eq!(zaru_tier, None, "operator must not populate zaru_tier");
        let aegis_role_col = aegis_role_col.expect("operator must populate aegis_role");

        let parsed = AegisRole::from_claim(&aegis_role_col).unwrap_or_else(|| {
            panic!("AegisRole::from_claim({aegis_role_col:?}) returned None")
        });
        assert_eq!(parsed, role);
    }
}

#[test]
fn service_account_and_tenant_user_populate_neither_column() {
    let svc = UserIdentity {
        sub: "svc-1".to_string(),
        realm_slug: "aegis-system".to_string(),
        email: None,
        name: None,
        identity_kind: IdentityKind::ServiceAccount {
            client_id: "aegis-sdk".to_string(),
        },
    };
    assert_eq!(identity_claim_columns(&svc), (None, None));

    let tenant_user = tenant_user_identity("acme");
    assert_eq!(identity_claim_columns(&tenant_user), (None, None));
}

#[test]
fn service_account_with_delegation_slug_returns_that_tenant() {
    let identity = service_account_identity();
    let result = tenant_id_from_request(Some(&identity), Some("u-abc"), &default_tenant());
    assert_eq!(result.as_str(), "u-abc");
}

#[test]
fn service_account_with_empty_delegation_returns_system() {
    let identity = service_account_identity();
    let result = tenant_id_from_request(Some(&identity), Some(""), &default_tenant());
    assert_eq!(result, TenantId::system());
}

#[test]
fn service_account_with_no_delegation_returns_system() {
    let identity = service_account_identity();
    let result = tenant_id_from_request(Some(&identity), None, &default_tenant());
    assert_eq!(result, TenantId::system());
}

#[test]
fn consumer_user_ignores_delegation_header() {
    let identity = consumer("user-1", ZaruTier::Free);
    let result = tenant_id_from_request(Some(&identity), Some("u-abc"), &default_tenant());
    assert_eq!(result, TenantId::consumer());
}

#[test]
fn tenant_user_ignores_delegation_header() {
    let identity = tenant_user_identity("acme");
    let result = tenant_id_from_request(Some(&identity), Some("u-abc"), &default_tenant());
    assert_eq!(result.as_str(), "acme");
}

#[test]
fn none_identity_with_delegation_returns_default() {
    let result = tenant_id_from_request(None, Some("u-abc"), &default_tenant());
    assert_eq!(result, default_tenant());
}

#[test]
fn operators_work_for_the_system() {
    let result = tenant_id_from_identity(Some(&operator(AegisRole::Admin)), &default_tenant());
    assert_eq!(result, TenantId::system());
}

#[test]
fn limits_stay_between_one_and_the_maximum() {
    assert_eq!(bounded_limit(None, 50, 200), 50);
    assert_eq!(bounded_limit(Some(7), 50, 200), 7);
    assert_eq!(bounded_limit(Some(999), 50, 200), 200);
    assert_eq!(bounded_limit(Some(0), 50, 200), 1);
    assert_eq!(bounded_limit(Some(5), 50, 0), 1);
}

#[test]
fn callers_without_a_tier_are_served_as_enterprise() {
    assert_eq!(user_tier(Some(&consumer("u", ZaruTier::Pro))), ZaruTier::Pro);
    assert_eq!(user_tier(Some(&service_account_identity())), ZaruTier::Enterprise);
    assert_eq!(user_tier(None), ZaruTier::Enterprise);
    assert_eq!(user_sub(None), "anonymous");
    assert_eq!(user_sub(Some(&consumer("u", ZaruTier::Pro))), "u");
}

#[test]
fn consumer_tenants_drop_the_hyphens_of_the_subject() {
    let tenant = TenantId::for_consumer_user("d7f81700-35d3-49b6").unwrap();
    assert_eq!(tenant.as_str(), "u-d7f8170035d349b6");
    assert!(TenantId::for_consumer_user("").is_none());
}

#[test]
fn generated_keys_have_the_prefix_and_forty_characters() {
    let key = generate_api_key();
    let body = key.strip_prefix("aegis_").expect("the prefix");
    assert!(body.chars().all(|c| c.is_ascii_alphanumeric()));
    assert_eq!(body.len(), 40);
    assert_ne!(key, generate_api_key());
}

#[test]
fn key_characters_run_through_digits_lower_and_upper() {
    assert_eq!(key_char(0), '0');
    assert_eq!(key_char(9), '9');
    assert_eq!(key_char(10), 'a');
    assert_eq!(key_char(35), 'z');
    assert_eq!(key_char(36), 'A');
    assert_eq!(key_char(61), 'Z');
    assert_eq!(key_from_indices(&vec![0, 10, 36]), "aegis_0aA");
}

#[test]
fn keys_are_stored_as_the_hex_of_their_sha256() {
    assert_eq!(
        hash_key("abc"),
        "ba7816bf8f01cfea414140de5dae2223b00361a396177a9cb410ff61f20015ad"
    );
}

#[test]
fn a_new_key_is_stored_under_its_owner_and_hash() {
    let identity = consumer("user-1", ZaruTier::Pro);
    let request = |name: &str| CreateApiKeyRequest {
        name: name.to_string(),
        scopes: vec!["read".to_string()],
        expires_at: Some(5),
    };
    let tenant = TenantId::new("u-user1");
    match create_api_key_with(true, &identity, &tenant, request("ci"), 7, "abc") {
        Ok(row) => {
            assert_eq!((row.id, row.expires_at), (7, Some(5)));
            assert_eq!(row.user_id, "user-1");
            assert_eq!(row.name, "ci");
            assert_eq!(row.key_hash, hash_key("abc"));
            assert_eq!(row.scopes, vec!["read".to_string()]);
            assert_eq!(row.tenant_id, "u-user1");
            assert_eq!(row.aegis_role, None);
            assert_eq!(row.zaru_tier, Some("pro".to_string()));
        }
        Err(_) => panic!("a configured store takes the key"),
    }
    let status = |configured, name: &str| {
        create_api_key(configured, &identity, &tenant, request(name)).err().unwrap().status
    };
    assert_eq!(status(false, "ci"), 503);
    assert_eq!(status(true, ""), 400);
    assert_eq!(status(true, &"x".repeat(65)), 400);
    let (row, key) = create_api_key(true, &identity, &tenant, request("ci")).ok().unwrap();
    assert_eq!(row.key_hash, hash_key(&key));
    let header = format!("Bearer {key}");
    assert_eq!(validate_api_key(Some(&header), true), Ok(row.key_hash));
    let stored = || ApiKeySummary {
        id: "k".to_string(),
        name: "ci".to_string(),
        scopes: Json::Null,
        expires_at: None,
        last_used_at: Some(0),
        created_at: 1_700_000_000_000_000_000,
        status: "active".to_string(),
    };
    let listed = list_api_keys_reply(Some(Ok(vec![stored()]))).body.unwrap();
    let shown = &listed.get("api_keys").and_then(|keys| keys.as_array()).unwrap()[0];
    assert_eq!(shown.get("expires_at"), Some(&Json::Null));
    assert_eq!(shown.get_str("last_used_at"), Some("1970-01-01T00:00:00Z"));
    let reply = created_api_key_reply("aegis_x", Ok(stored()));
    assert_eq!(reply.status, 201);
    let body = reply.body.unwrap();
    assert_eq!((body.get_str("id"), body.get_str("key")), (Some("k"), Some("aegis_x")));
    assert!(body.get("status").is_none());
    assert_eq!(body.get_str("created_at"), Some("2023-11-14T22:13:20Z"));
    assert_eq!(created_api_key_reply("aegis_x", Err("x".to_string())).status, 500);
}

#[test]
fn bearer_keys_are_looked_up_by_hash() {
    assert_eq!(
        validate_api_key(Some("Bearer aegis_abc"), true).ok(),
        Some(hash_key("aegis_abc"))
    );
    assert_eq!(validate_api_key(None, true).unwrap_err().status, 401);
    assert_eq!(validate_api_key(Some("Basic aegis_abc"), true).unwrap_err().status, 401);
    assert_eq!(validate_api_key(Some("Bearer abc"), true).unwrap_err().status, 401);
    assert_eq!(validate_api_key(Some("Bearer aegis_abc"), false).unwrap_err().status, 503);
}

#[test]
fn key_replies_tell_the_outcomes_apart() {
    let found = validate_api_key_reply(KeyLookup::Found(ApiKeyRow {
        user_id: "user-1".to_string(),
        tenant_id: "t".to_string(),
        aegis_role: None,
        scopes: vec![],
        zaru_tier: Some("pro".to_string()),
    }));
    assert_eq!(found.status, 200);
    assert_eq!(
        found.body.as_ref().and_then(|b| b.get_str("user_id")),
        Some("user-1")
    );
    assert_eq!(validate_api_key_reply(KeyLookup::NotFound).status, 401);
    assert_eq!(validate_api_key_reply(KeyLookup::Failed("x".to_string())).status, 500);
    assert_eq!(revoke_api_key_reply(Some(RevokeOutcome::NotFound)).status, 404);
    assert_eq!(
        revoke_api_key_reply(Some(RevokeOutcome::Failed("x".to_string()))).status,
        500
    );
    assert_eq!(list_api_keys_reply(Some(Err("x".to_string()))).status, 500);
    assert_eq!(list_api_keys_reply(Some(Ok(vec![]))).status, 200);
}

#[test]
fn a_service_acts_for_another_tenant_on_agents_alone() {
    let service = service_account_identity();
    let tenant = |operation, caller: &UserIdentity| {
        operation_tenant(operation, Some(caller), Some("u-abc"), &default_tenant())
    };
    assert_eq!(tenant(Operation::DeployAgent, &service).as_str(), "u-abc");
    assert_eq!(tenant(Operation::UpdateAgentScope, &service).as_str(), "u-abc");
    assert_eq!(tenant(Operation::StreamAgentEvents, &service), TenantId::system());
    assert_eq!(tenant(Operation::ListWorkflows, &service), TenantId::system());
    assert_eq!(tenant(Operation::DeployAgent, &tenant_user_identity("acme")).as_str(), "acme");
}
