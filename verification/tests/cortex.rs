use aegis_daemon::handlers::cortex::{
    aggregate_skills, category, cortex_request_tenant_id, list_patterns_query, metrics_query,
    skills_query,
    list_patterns_reply, pattern_metrics, query_failed_reply, Pattern,
};
use aegis_daemon::identity::{AegisRole, IdentityKind, TenantId, UserIdentity, ZaruTier};
use aegis_daemon::json::Json;

fn default_tenant() -> TenantId {
    TenantId::new("the-default-tenant")
}

#[test]
fn list_cortex_patterns_uses_caller_tenant() {
    let sub = "user-abc-123";
    let identity = UserIdentity {
        sub: sub.to_string(),
        realm_slug: "zaru-consumer".to_string(),
        email: None,
        name: None,
        identity_kind: IdentityKind::ConsumerUser {
            zaru_tier: ZaruTier::Free,
            tenant_id: TenantId::consumer(),
        },
    };

    let derived = cortex_request_tenant_id(Some(&identity), &default_tenant());
    let expected = TenantId::for_consumer_user(sub).unwrap();

    assert_eq!(
        derived,
        expected.as_str(),
        "outgoing Cortex tenant_id must be the caller's per-user tenant"
    );
    assert_ne!(derived, "", "tenant_id must never be the empty string");
    let query = list_patterns_query(None, None, Some(&identity), &default_tenant());
    assert_eq!(query.tenant_id, expected.as_str());
    assert_eq!(query.limit, 100);
    assert_eq!(query.error_signature, "");
}

#[test]
fn cortex_tenant_id_is_never_empty_for_known_identity_kinds() {
    let cases = [
        UserIdentity {
            sub: "op-1".to_string(),
            realm_slug: "aegis-system".to_string(),
            email: None,
            name: None,
            identity_kind: IdentityKind::Operator { aegis_role: AegisRole::Operator },
        },
        UserIdentity {
            sub: "svc-1".to_string(),
            realm_slug: "aegis-system".to_string(),
            email: None,
            name: None,
            identity_kind: IdentityKind::ServiceAccount {
                client_id: "aegis-temporal-worker".to_string(),
            },
        },
    ];
    for identity in &cases {
        let derived = cortex_request_tenant_id(Some(identity), &default_tenant());
        assert!(!derived.is_empty(), "{} produced empty tenant_id", identity.sub);
    }
}

fn pattern(error_type: &str, frequency: u32) -> Pattern {
    Pattern {
        id: "p".to_string(),
        error_signature_hash: "h".to_string(),
        error_type: error_type.to_string(),
        error_message: "m".to_string(),
        solution_approach: "s".to_string(),
        solution_code: Json::Null,
        frequency,
        success_count: 1,
        total_count: 2,
        success_score: Json::Real("0.5".to_string()),
        created_at: Json::Null,
        last_used_at: Json::Null,
    }
}

#[test]
fn patterns_are_grouped_by_their_error_type() {
    assert_eq!(category(""), "general");
    assert_eq!(category("io"), "io");
    let patterns = vec![pattern("io", 2), pattern("", 5), pattern("io", 3)];
    let skills = aggregate_skills(&patterns);
    assert_eq!(skills.len(), 2);
    assert_eq!(skills[0].category, "io");
    assert_eq!(skills[0].pattern_count, 2);
    assert_eq!(skills[0].usage_count, 5);
    assert_eq!(skills[1].category, "general");
    let shown = skills[0].show(Json::Real("0.5".to_string()));
    assert_eq!(shown.get_str("level"), Some("intermediate"));
    assert_eq!(shown.get_str("description"), Some("Learned patterns for io errors"));
}

#[test]
fn metrics_sum_up_the_patterns() {
    let patterns = vec![pattern("io", 2), pattern("", 5), pattern("io", 3)];
    let metrics = pattern_metrics(&patterns);
    assert_eq!(metrics.total_patterns, 3);
    assert_eq!(metrics.total_frequency, 10);
    assert_eq!(metrics.error_types, vec!["io".to_string()]);
    let shown = metrics.show(Json::Int(0));
    assert_eq!(shown.get("totalSkills"), Some(&Json::Int(1)));
    assert_eq!(
        shown.get("mostUsedSkills"),
        Some(&Json::Arr(vec![Json::Str("io".to_string())]))
    );
}

#[test]
fn failing_queries_are_answered() {
    assert_eq!(query_failed_reply("x").status, 500);
    assert_eq!(list_patterns_reply(Err("x".to_string())), query_failed_reply("x"));
    let reply = list_patterns_reply(Ok(vec![pattern("io", 1)]));
    assert_eq!(reply.status, 200);
    let query = metrics_query(None, &default_tenant());
    assert_eq!((query.limit, query.error_signature.as_str()), (1000, ""));
    let query = skills_query(None, &default_tenant());
    assert_eq!((query.limit, query.error_signature.as_str()), (500, ""));
    assert_eq!(query.tenant_id, "the-default-tenant");
    // A limit beyond four bytes keeps its lowest four.
    let query = list_patterns_query(
        Some("q".to_string()),
        Some(0x1_0000_0007),
        None,
        &default_tenant(),
    );
    assert_eq!(query.limit, 7);
}
