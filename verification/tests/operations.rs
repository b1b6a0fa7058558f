use aegis_daemon::billing_service::{
    cancel_team_subscription, cancel_with, provision_team_customer, stripe_client_key, sync_with,
    team_customer_metadata,
    BillingServiceError, SeatSync, SeatSyncAction, SeatSyncEvent, TeamCancel, TeamCancelAction,
    TeamCancelEvent, TeamProvision, TeamProvisionAction, TeamProvisionEvent,
};
use aegis_daemon::handlers::billing::seats::Proration;
use aegis_daemon::daemon::{
    build_base_url, check_daemon_running, get_pid_file_path, health_url, parse_pid,
    pid_file_content, probe_health_endpoint, process_number, read_health_answer, signal_error,
    stop_daemon,
    DaemonStatus, HealthEndpointStatus, StopAction,
};
use aegis_daemon::handlers::admin::{
    bucket_to_str, delete_override_reply, list_overrides_reply, no_overrides_reply,
    rate_limit_tenant, resource_type_to_db_str, upsert_override, upsert_override_reply,
    usage_in_range, usage_rows_reply, user_rate_limit_usage, user_usage_lookup, user_usage_reply,
    RateLimitBucket, RateLimitResourceType, RateLimitWindow, ResourcePolicy, UsageRow,
};
use aegis_daemon::handlers::approvals::{
    decision_reply, get_pending_reply, list_pending_reply, request_id, request_id_of, Decision,
};
use aegis_daemon::handlers::health::{health_reply, readiness_reply, Dependencies};
use aegis_daemon::handlers::observability::{
    dashboard_summary, known_count, storage_violations,
};
use aegis_daemon::handlers::swarms::{
    get_swarm, list_swarms, swarm_view, swarms_to_list, Swarm, SwarmLockView, SwarmMessage,
};
use aegis_daemon::handlers::tenant_provisioning::{
    ensure_provisioned, ensure_provisioned_reply, keycloak_event, keycloak_event_status,
    KeycloakEventAction, ProvisioningOutcome,
};
use aegis_daemon::http::Reply;
use aegis_daemon::identity::{AegisRole, IdentityKind, TenantId, UserIdentity, ZaruTier};
use aegis_daemon::install::{command_failure, failure_text, launchd_plist, systemd_service};
use aegis_daemon::json::Json;
use aegis_daemon::operator_read_models::{
    moment_text, push_bounded, storage_violation_event_view, DomainEvent, OperatorReadModelStore, PolicyEvent,
    SmcpEvent, StimulusEvent, StorageEvent, DEFAULT_CAPACITY,
};
use aegis_daemon::ports::{
    activity_lookup_limit, agent_logs_snapshot, cancel_workflow_execution,
    remove_workflow_execution, signal_workflow_execution, ActivityRow,
};
use aegis_daemon::string_map::StringMap;
use aegis_daemon::tenancy::{SubscriptionStatus, TenantSubscription, TenantTier};
use aegis_daemon::text;
use std::collections::VecDeque;

fn lib_json(value: &serde_json::Value) -> Json {
    aegis_daemon::json_value::read_value(value)
}

fn json(text: &str) -> Json {
    lib_json(&serde_json::from_str(text).expect("valid JSON"))
}

fn value_of(json: &Json) -> serde_json::Value {
    match json {
        Json::Null => serde_json::Value::Null,
        Json::Bool(b) => serde_json::Value::from(*b),
        Json::Int(n) => match (i64::try_from(*n), u64::try_from(*n)) {
            (Ok(i), _) => serde_json::Value::from(i),
            (_, Ok(u)) => serde_json::Value::from(u),
            _ => panic!("the number does not fit"),
        },
        Json::Real(text) => serde_json::from_str(text).expect("a number"),
        Json::Str(s) => serde_json::Value::from(s.as_str()),
        Json::Arr(items) => serde_json::Value::from(items.iter().map(value_of).collect::<Vec<_>>()),
        Json::Obj(members) => {
            let mut out = serde_json::Map::new();
            for (key, value) in members {
                out.insert(key.clone(), value_of(value));
            }
            serde_json::Value::from(out)
        }
    }
}

/// Checks a reply's status and its body, whatever the order of the members.
fn check(reply: &Reply, status: u16, body: &str) {
    assert_eq!(reply.status, status);
    let expected: serde_json::Value = serde_json::from_str(body).expect("valid JSON");
    assert_eq!(value_of(reply.body.as_ref().expect("a body")), expected);
}

fn received(id: &str, source: &str, at: i128) -> DomainEvent {
    DomainEvent::Stimulus(StimulusEvent::StimulusReceived {
        stimulus_id: id.to_string(),
        source: source.to_string(),
        received_at: at,
    })
}

#[test]
fn stimuli_are_followed_from_reception_on() {
    let mut store = OperatorReadModelStore::new();
    store.record_event(received("a", "github", 1));
    store.record_event(received("b", "stripe", 2));
    store.record_event(DomainEvent::Stimulus(StimulusEvent::StimulusClassified {
        stimulus_id: "a".to_string(),
        workflow_id: "w".to_string(),
        confidence: 7,
        routing_mode: "direct".to_string(),
        classified_at: 3,
    }));
    let a = store.get_stimulus("a").unwrap();
    assert_eq!(a.status, "classified");
    assert_eq!(a.source, "github");
    assert_eq!(a.received_at, 1);
    assert_eq!(a.last_event_at, 3);
    assert_eq!(a.workflow_id, Some("w".to_string()));
    let order: Vec<String> = store.list_stimuli().into_iter().map(|s| s.stimulus_id).collect();
    assert_eq!(order, vec!["a".to_string(), "b".to_string()]);
    store.record_event(DomainEvent::Stimulus(StimulusEvent::StimulusRejected {
        stimulus_id: "b".to_string(),
        reason: "no route".to_string(),
        rejected_at: 4,
    }));
    assert_eq!(store.get_stimulus("b").unwrap().rejection_reason, Some("no route".to_string()));
    store.record_event(DomainEvent::Stimulus(StimulusEvent::ClassificationFailed {
        stimulus_id: "c".to_string(),
        error: "x".to_string(),
        failed_at: 5,
    }));
    let c = store.get_stimulus("c").unwrap();
    assert_eq!((c.source.as_str(), c.received_at), ("unknown", 5));
    check(
        &Reply::json(200, c.render(Json::Null)),
        200,
        r#"{"stimulus_id": "c", "source": "unknown", "status": "classification_failed",
            "workflow_id": null, "confidence": null, "routing_mode": null,
            "rejection_reason": null, "classification_error": "x",
            "received_at": "1970-01-01T00:00:00.000000005Z",
            "last_event_at": "1970-01-01T00:00:00.000000005Z"}"#,
    );
    assert!(store.get_stimulus("d").is_none());
}

#[test]
fn incidents_are_kept_up_to_the_capacity() {
    let mut store = OperatorReadModelStore::new();
    for i in 0..(DEFAULT_CAPACITY as i128 + 3) {
        store.record_event(DomainEvent::Policy(PolicyEvent::PolicyViolationBlocked {
            agent_id: "a".to_string(),
            violation_type: "v".to_string(),
            details: "d".to_string(),
            blocked_at: i,
        }));
    }
    store.record_event(DomainEvent::Smcp(SmcpEvent::Other));
    store.record_event(DomainEvent::Other);
    let incidents = store.list_security_incidents();
    assert_eq!(incidents.len(), DEFAULT_CAPACITY);
    assert_eq!(incidents[0].occurred_at, DEFAULT_CAPACITY as i128 + 2);
    assert_eq!(incidents[0].severity, "high");
    store.record_event(DomainEvent::Smcp(SmcpEvent::PolicyViolationBlocked {
        agent_id: "a".to_string(),
        execution_id: "e".to_string(),
        tool_name: "t".to_string(),
        violation_type: "v".to_string(),
        details: "d".to_string(),
        blocked_at: 9999,
    }));
    let first = &store.list_security_incidents()[0];
    assert_eq!(first.details, "v: d");
    assert_eq!(first.category, "smcp_policy_violation_blocked");
    check(
        &Reply::items(vec![first.render()]),
        200,
        r#"{"items": [{"category": "smcp_policy_violation_blocked", "severity": "high",
            "agent_id": "a", "execution_id": "e", "session_id": null, "tool_name": "t",
            "details": "v: d", "occurred_at": "1970-01-01T00:00:00.000009999Z"}]}"#,
    );
}

#[test]
fn the_newest_stand_first_in_a_bounded_queue() {
    let mut queue: VecDeque<u32> = VecDeque::new();
    for i in 0..4 {
        push_bounded(&mut queue, i, 2);
    }
    assert_eq!(queue, VecDeque::from(vec![3, 2]));
    push_bounded(&mut queue, 9, 0);
    assert!(queue.is_empty());
}

#[test]
fn storage_events_are_shown() {
    let quota = StorageEvent::QuotaExceeded {
        execution_id: "e".to_string(),
        volume_id: "v".to_string(),
        requested_bytes: 10,
        available_bytes: 3,
        exceeded_at: 5,
    };
    let view = storage_violation_event_view(&quota);
    assert_eq!(view.category, "quota_exceeded");
    assert_eq!(view.details, "Requested 10 bytes but only 3 bytes were available");
    assert_eq!(view.volume_id, Some("v".to_string()));
    let read = StorageEvent::FileRead {
        execution_id: "e".to_string(),
        volume_id: "v".to_string(),
        path: "p".to_string(),
        read_at: 6,
    };
    let shown = storage_violations(Ok(vec![quota, read]), Some(1));
    check(
        &shown.reply(),
        200,
        r#"{"items": [{"category": "quota_exceeded", "execution_id": "e", "volume_id": "v",
            "path": null, "operation": "quota",
            "details": "Requested 10 bytes but only 3 bytes were available",
            "occurred_at": "1970-01-01T00:00:00.000000005Z"}]}"#,
    );
    assert_eq!((shown.error, shown.items.len()), (None, 1));
    assert_eq!(shown.items[0].category, "quota_exceeded");
    let failed = storage_violations(Err("x".to_string()), None);
    check(&failed.reply(), 200, r#"{"error": "x", "items": []}"#);
    assert_eq!((failed.error, failed.items.len()), (Some("x".to_string()), 0));
}

#[test]
fn the_dashboard_counts_what_is_known() {
    let cluster = aegis_daemon::cluster_helpers::cluster_status_view(vec![], false, "h".to_string());
    let view = dashboard_summary(1, 2, cluster, 3, 4, 5, None, Some(6), None);
    assert_eq!((view.swarm_count, view.stimulus_count), (3, 4));
    assert_eq!(view.storage_violation_count, 0);
    assert_eq!(view.recent_execution_count, 6);
    assert_eq!(known_count(None), 0);
    check(
        &Reply::json(200, view.render()),
        200,
        r#"{"generated_at": "1970-01-01T00:00:00.000000001Z", "uptime_seconds": 2,
            "cluster": {"source": "local_fallback", "controller_node_id": null,
                "total_nodes": 0, "active_nodes": 0, "draining_nodes": 0, "unhealthy_nodes": 0,
                "cluster_health": "h", "nodes": []},
            "swarm_count": 3, "stimulus_count": 4, "security_incident_count": 5,
            "storage_violation_count": 0, "recent_execution_count": 6,
            "recent_workflow_execution_count": 0}"#,
    );
}

#[test]
fn moments_are_written_as_the_calendar_has_them() {
    assert_eq!(moment_text(0), Some("1970-01-01T00:00:00Z".to_string()));
    assert_eq!(moment_text(-1), Some("1969-12-31T23:59:59.999999999Z".to_string()));
    assert_eq!(moment_text(-1_000_000_000), Some("1969-12-31T23:59:59Z".to_string()));
    assert_eq!(moment_text(1_500_000_000), Some("1970-01-01T00:00:01.500Z".to_string()));
    assert_eq!(moment_text(i128::MAX), None);
    assert_eq!(moment_text(i128::MIN), None);
    assert_eq!(
        moment_text(8_210_266_876_799_000_000_000),
        Some("+262142-12-31T23:59:59Z".to_string())
    );
    assert_eq!(moment_text(8_210_266_876_800_000_000_000), None);
    assert_eq!(
        moment_text(-8_334_601_228_800_000_000_000),
        Some("-262143-01-01T00:00:00Z".to_string())
    );
    assert_eq!(moment_text(-8_334_601_228_800_000_000_001), None);
}

#[test]
fn a_note_of_a_process_is_read_back() {
    assert_eq!(parse_pid(&pid_file_content(4711)), Some(4711));
    assert_eq!(parse_pid(" 12 \n"), Some(12));
    assert_eq!(parse_pid("x"), None);
    assert_eq!(process_number(u32::MAX), None);
    assert_eq!(process_number(7), Some(7));
    assert_eq!(signal_error(7, 15), "Failed to send signal 15 to process 7");
    assert_eq!(
        signal_error(u32::MAX, 15),
        "PID 4294967295 overflows i32; cannot send signal"
    );
}

#[test]
fn the_daemon_s_status_comes_of_probe_and_process() {
    assert_eq!(build_base_url("localhost", 1), "http://localhost:1");
    assert_eq!(health_url("localhost", 1), "http://localhost:1/health");
    let body = json(r#"{"uptime_seconds": 9}"#);
    assert_eq!(
        probe_health_endpoint(200, "200 OK", Some(&body)),
        HealthEndpointStatus::Healthy { uptime: Some(9) }
    );
    assert_eq!(
        probe_health_endpoint(503, "503 Service Unavailable", None),
        HealthEndpointStatus::Unhealthy { error: "HTTP 503 Service Unavailable".to_string() }
    );
    let answered = |status, body| match read_health_answer(status, "s", body) {
        HealthEndpointStatus::Healthy { uptime } => uptime,
        _ => Some(0),
    };
    assert_eq!(answered(200, Some(b"{\"uptime_seconds\": 9}".as_slice())), Some(9));
    assert_eq!(answered(200, Some(b"{\"uptime_seconds\": 9".as_slice())), None);
    assert_eq!(answered(200, None), None);
    assert_eq!(answered(500, Some(b"{\"uptime_seconds\": 9}".as_slice())), Some(0));
    let healthy = HealthEndpointStatus::Healthy { uptime: Some(9) };
    assert_eq!(
        check_daemon_running(Some(4), Ok(healthy), true),
        (DaemonStatus::Running { pid: 4, uptime: Some(9) }, false)
    );
    assert_eq!(
        check_daemon_running(Some(4), Err("refused".to_string()), false),
        (DaemonStatus::Stopped, true)
    );
    assert_eq!(
        check_daemon_running(Some(4), Err("refused".to_string()), true),
        (DaemonStatus::Unhealthy { pid: 4, error: "refused".to_string() }, false)
    );
    assert_eq!(
        check_daemon_running(None, Err("refused".to_string()), false),
        (DaemonStatus::Stopped, false)
    );
}

#[test]
fn stopping_waits_and_kills_only_by_force() {
    assert_eq!(stop_daemon(true, 0, 10, false), StopAction::Wait);
    assert_eq!(stop_daemon(false, 3, 10, false), StopAction::Stopped);
    assert_eq!(stop_daemon(true, 10, 10, true), StopAction::Kill);
    assert_eq!(stop_daemon(true, 10, 10, false), StopAction::TimedOut);
}

#[test]
fn the_note_of_the_process_has_its_place() {
    assert_eq!(get_pid_file_path(Some("/x.pid"), 0, Some("/run"), "/tmp"), "/x.pid");
    assert_eq!(get_pid_file_path(None, 0, Some("/run"), "/tmp"), "/run/aegis/aegis.pid");
    assert_eq!(get_pid_file_path(None, 1000, Some("/run"), "/tmp/"), "/tmp/aegis/aegis.pid");
    assert_eq!(get_pid_file_path(None, 0, None, "/tmp"), "/tmp/aegis/aegis.pid");
}

#[test]
fn templates_are_filled() {
    assert_eq!(
        systemd_service("{{BINARY_PATH}} as {{USER}}: {{BINARY_PATH}}", "/bin/a", None),
        "/bin/a as root: /bin/a"
    );
    assert_eq!(systemd_service("{{USER}}", "/bin/a", Some("ada")), "ada");
    assert_eq!(launchd_plist("<{{BINARY_PATH}}>", "/bin/a"), "</bin/a>");
    assert_eq!(failure_text("Failed to reload", "why"), "Failed to reload: why");
    assert_eq!(command_failure("Failed to reload", b"n\xe3o"), "Failed to reload: n\u{fffd}o");
}

fn caller(identity_kind: IdentityKind) -> UserIdentity {
    UserIdentity {
        sub: "user-1".to_string(),
        realm_slug: "r".to_string(),
        email: None,
        name: None,
        identity_kind,
    }
}

fn consumer() -> UserIdentity {
    caller(IdentityKind::ConsumerUser {
        zaru_tier: ZaruTier::Pro,
        tenant_id: TenantId::new("u-1"),
    })
}

#[test]
fn overrides_are_for_a_tenant_or_a_user() {
    assert!(upsert_override(true, Some("t"), None).is_ok());
    assert!(upsert_override(true, None, Some("u")).is_ok());
    assert_eq!(upsert_override(true, Some("t"), Some("u")).unwrap_err().status, 400);
    assert_eq!(upsert_override(true, None, None).unwrap_err().status, 400);
    assert_eq!(upsert_override(false, Some("t"), None).unwrap_err(), no_overrides_reply());
    check(&upsert_override_reply(Ok(None)), 200, r#"{"status": "upserted"}"#);
    assert_eq!(delete_override_reply("i", Some(Ok(false))).status, 404);
    check(
        &delete_override_reply("i", Some(Ok(true))),
        200,
        r#"{"status": "deleted", "id": "i"}"#,
    );
    assert_eq!(list_overrides_reply(None).status, 503);
    check(&usage_rows_reply(Some(Ok(vec![]))), 200, r#"{"usage": [], "count": 0}"#);
    assert_eq!(rate_limit_tenant(&consumer()), TenantId::consumer());
    assert_eq!(
        rate_limit_tenant(&caller(IdentityKind::Operator { aegis_role: AegisRole::Admin })),
        TenantId::system()
    );
}

#[test]
fn usage_is_shown_against_every_limit() {
    let window = RateLimitWindow {
        bucket: RateLimitBucket::Hourly,
        limit: 100,
        window_seconds: 3600,
    };
    let policies = vec![
        ResourcePolicy {
            resource_type: RateLimitResourceType::LlmCall,
            windows: Some(vec![window]),
        },
        ResourcePolicy {
            resource_type: RateLimitResourceType::SealToolCall { tool_pattern: "fs.*".to_string() },
            windows: Some(vec![window]),
        },
        ResourcePolicy { resource_type: RateLimitResourceType::LlmToken, windows: None },
    ];
    let rows = vec![UsageRow {
        resource_type: "llm_call".to_string(),
        bucket: "hourly".to_string(),
        counter: 42,
        window_start: 1_000_000_000,
    }];
    assert!(usage_in_range(&rows, &policies, 5));
    let usage = user_rate_limit_usage(&rows, &policies, 5);
    assert_eq!(usage.len(), 2);
    assert_eq!(usage[0].current_count, 42);
    assert_eq!(usage[0].limit_value, 100);
    assert_eq!(usage[0].resets_at, 3_601_000_000_000);
    assert_eq!(usage[1].resource_type, "seal_tool:fs.*");
    assert_eq!(usage[1].current_count, 0);
    assert_eq!(usage[1].resets_at, 3_600_000_000_005);
    assert!(!usage_in_range(&rows, &policies, i128::MAX));
    check(
        &user_usage_reply(&usage.into_iter().take(1).collect()),
        200,
        r#"{"usage": [{"resource_type": "llm_call", "bucket": "hourly", "current_count": 42,
            "limit_value": 100, "window_seconds": 3600, "resets_at": "1970-01-01T01:00:01Z"}], "count": 1}"#,
    );
    let lookup = user_usage_lookup(true, &consumer()).ok().unwrap();
    assert_eq!((lookup.scope_type, lookup.scope_id), ("user", consumer().sub));
    assert_eq!(lookup.tenant_id, TenantId::consumer());
    assert_eq!(user_usage_lookup(false, &consumer()).err().unwrap().status, 503);
    assert_eq!(bucket_to_str(&RateLimitBucket::PerMinute), "per_minute");
    assert_eq!(resource_type_to_db_str(&RateLimitResourceType::AgentExecution), "agent_execution");
}

#[test]
fn decisions_are_answered() {
    let id = uuid::Uuid::new_v4();
    assert_eq!(request_id(&id.to_string()), Ok(id.as_u128()));
    assert_eq!(request_id_of(Some(3)), Ok(3));
    check(&request_id("x").unwrap_err(), 200, r#"{"error": "Invalid request ID"}"#);
    check(
        &decision_reply(Decision::Reject, "i", None),
        200,
        r#"{"status": "rejected", "request_id": "i"}"#,
    );
    check(&decision_reply(Decision::Approve, "i", Some("x")), 200, r#"{"error": "x"}"#);
    check(
        &list_pending_reply(vec![Json::Null]),
        200,
        r#"{"pending_requests": [null], "count": 1}"#,
    );
    check(
        &get_pending_reply(None),
        200,
        r#"{"error": "Request not found or already completed"}"#,
    );
}

#[test]
fn readiness_follows_the_dependencies() {
    check(
        &health_reply(5),
        200,
        r#"{"status": "healthy", "mode": "live", "uptime_seconds": 5}"#,
    );
    let deps = Dependencies {
        temporal_configured: true,
        temporal_connected: false,
        database_configured: false,
        has_registry: false,
    };
    check(
        &readiness_reply(deps, 5),
        200,
        r#"{"status": "degraded", "uptime_seconds": 5, "dependencies":
            {"database": true, "temporal": false, "cluster_repository": false}}"#,
    );
    let deps = Dependencies { temporal_connected: true, ..deps };
    assert_eq!(readiness_reply(deps, 5).body.unwrap().get_str("status"), Some("ready"));
}

#[test]
fn swarms_are_shown() {
    let swarm = |id: &str| Swarm {
        id: id.to_string(),
        parent_execution_id: "e".to_string(),
        member_ids: vec!["a".to_string(), "b".to_string()],
        status: "Active".to_string(),
        created_at: 1,
        dissolved_at: None,
    };
    let view = swarm_view(&swarm("s"), 2, 3);
    assert_eq!((view.member_count, view.lock_count, view.recent_message_count), (2, 2, 3));
    assert_eq!(view.status, "active");
    let message = SwarmMessage {
        from: "a".to_string(),
        to: "b".to_string(),
        payload: vec![1, 2, 3],
        sent_at: 4,
    };
    let lock = SwarmLockView {
        resource_id: "r".to_string(),
        held_by: "a".to_string(),
        acquired_at: 1,
        expires_at: 2,
    };
    let shown = get_swarm(Some(swarm("s")), vec![lock], &vec![message]).unwrap();
    assert_eq!((shown.swarm.lock_count, shown.swarm.recent_message_count), (1, 1));
    assert_eq!(shown.locks[0].resource_id, "r");
    assert_eq!((shown.recent_messages[0].payload_bytes, shown.recent_messages[0].sent_at), (3, 4));
    check(
        &Reply::json(200, shown.render()),
        200,
        r#"{"swarm": {"swarm_id": "s", "parent_execution_id": "e", "member_ids": ["a", "b"],
                "member_count": 2, "status": "active",
                "created_at": "1970-01-01T00:00:00.000000001Z", "dissolved_at": null,
                "lock_count": 1, "recent_message_count": 1},
            "locks": [{"resource_id": "r", "held_by": "a",
                "acquired_at": "1970-01-01T00:00:00.000000001Z",
                "expires_at": "1970-01-01T00:00:00.000000002Z"}],
            "recent_messages": [{"from": "a", "to": "b", "payload_bytes": 3,
                "sent_at": "1970-01-01T00:00:00.000000004Z"}]}"#,
    );
    assert!(get_swarm(None, vec![], &vec![]).is_none());
    let all = vec![swarm("s"), swarm("t"), swarm("u")];
    let ids: Vec<String> = swarms_to_list(all, Some(2)).into_iter().map(|s| s.id).collect();
    assert_eq!(ids, vec!["s".to_string(), "t".to_string()]);
    let listed = list_swarms(&vec![(swarm("s"), 1, 2), (swarm("t"), 3, 4)]);
    assert_eq!((listed[1].swarm_id.as_str(), listed[1].lock_count), ("t", 3));
}

#[test]
fn consumers_are_provisioned() {
    assert_eq!(keycloak_event("LOGIN", false), KeycloakEventAction::Answer(200));
    assert_eq!(keycloak_event("REGISTER", false), KeycloakEventAction::Answer(503));
    assert_eq!(
        keycloak_event("REGISTER", true),
        KeycloakEventAction::Provision(ZaruTier::Free)
    );
    assert_eq!(keycloak_event_status(true), 201);
    assert_eq!(keycloak_event_status(false), 500);
    assert_eq!(ensure_provisioned(Some(&consumer()), true), Ok(ZaruTier::Pro));
    assert_eq!(ensure_provisioned(Some(&consumer()), false).unwrap_err().status, 503);
    assert_eq!(ensure_provisioned(None, true).unwrap_err().status, 401);
    let operator = caller(IdentityKind::Operator { aegis_role: AegisRole::Admin });
    assert_eq!(ensure_provisioned(Some(&operator), false).unwrap_err(), Reply::empty(204));
    assert_eq!(ensure_provisioned_reply(ProvisioningOutcome::Done).status, 204);
    assert_eq!(ensure_provisioned_reply(ProvisioningOutcome::UserNotReady).status, 503);
    assert_eq!(ensure_provisioned_reply(ProvisioningOutcome::Failed).status, 500);
}

#[test]
fn activity_is_paged() {
    let row = |id: &str| ActivityRow {
        execution_id: id.to_string(),
        agent_id: "a".to_string(),
        status: "Running".to_string(),
        started_at: 0,
        ended_at: None,
        iteration_count: 2,
    };
    let rows = vec![row("1"), row("2"), row("3")];
    let ids = |limit, offset| {
        agent_logs_snapshot(&rows, limit, offset)
            .iter()
            .map(|j| j.get_str("execution_id").unwrap().to_string())
            .collect::<Vec<_>>()
    };
    assert_eq!(ids(1, 1), vec!["2".to_string()]);
    assert_eq!(ids(9, 1), vec!["2".to_string(), "3".to_string()]);
    assert_eq!(ids(1, 9), Vec::<String>::new());
    assert_eq!(activity_lookup_limit(2, 3), 5);
    assert_eq!(rows[0].show().get_str("status"), Some("running"));
    assert_eq!(rows[0].show().get_str("started_at"), Some("1970-01-01T00:00:00Z"));
    assert_eq!(rows[0].show().get("ended_at"), Some(&Json::Null));
}

#[test]
fn workflow_requests_name_the_execution() {
    let cancel = cancel_workflow_execution("ns".to_string(), "e".to_string());
    assert_eq!(cancel.namespace, "ns");
    assert_eq!(cancel.workflow_id, "e");
    assert_eq!(cancel.reason, "Cancelled via aegis.workflow.cancel tool");
    let again = cancel_workflow_execution("ns".to_string(), "e".to_string());
    assert_ne!(cancel.request_id, again.request_id);
    assert_eq!(uuid::Uuid::from_u128(cancel.request_id).get_version_num(), 4);
    let remove = remove_workflow_execution("ns".to_string(), "e".to_string());
    assert_eq!((remove.workflow_id.as_str(), remove.run_id.as_str()), ("e", ""));
    assert_eq!(signal_workflow_execution(true), Ok(()));
    assert_eq!(
        signal_workflow_execution(false),
        Err("Temporal client not yet connected".to_string())
    );
}

fn subscription(stripe_subscription_id: Option<&str>) -> TenantSubscription {
    TenantSubscription {
        tenant_id: TenantId::new("t-1"),
        stripe_customer_id: "cus".to_string(),
        stripe_subscription_id: stripe_subscription_id.map(|s| s.to_string()),
        tier: TenantTier::Business,
        status: SubscriptionStatus::Active,
        current_period_end: None,
        cancel_at_period_end: false,
        created_at: 1,
        updated_at: 1,
        seat_count: 3,
    }
}

#[test]
fn seats_follow_the_members() {
    let sync = |record| SeatSync {
        tenant_id: TenantId::new("t-1"),
        active_member_count: 4,
        record,
    };
    let error = |action| match action {
        SeatSyncAction::Finish(Err(e)) => e,
        _ => panic!("a failure"),
    };
    let begun = |configured| sync(None).step(SeatSyncEvent::Begun { configured });
    assert!(matches!(begun(true), SeatSyncAction::Load));
    assert!(matches!(error(begun(false)), BillingServiceError::NotConfigured));
    let loaded = |found| error(sync(None).step(SeatSyncEvent::Loaded(found)));
    assert!(matches!(
        loaded(Ok(Some(subscription(None)))),
        BillingServiceError::NoActiveSubscription
    ));
    assert!(matches!(
        loaded(Ok(None)),
        BillingServiceError::NoSubscription(t) if t == "t-1"
    ));
    assert!(matches!(loaded(Err("db".to_string())), BillingServiceError::Repository(_)));
    let mut known = sync(None);
    assert!(matches!(
        known.step(SeatSyncEvent::Loaded(Ok(Some(subscription(Some("sub")))))),
        SeatSyncAction::Retrieve { subscription } if subscription == "sub"
    ));
    assert!(matches!(
        error(sync_with(Err("no id".to_string()))),
        BillingServiceError::InvalidStripeId(m) if m == "no id"
    ));
    assert!(matches!(
        sync_with(Ok("other".to_string())),
        SeatSyncAction::Retrieve { subscription } if subscription == "other"
    ));
    assert!(matches!(
        error(known.step(SeatSyncEvent::Retrieved(Ok(vec![])))),
        BillingServiceError::Stripe(m) if m == "subscription has no items"
    ));
    let items = vec!["si".to_string(), "sj".to_string()];
    assert!(matches!(
        known.step(SeatSyncEvent::Retrieved(Ok(items))),
        SeatSyncAction::Update { subscription, item, quantity: 4, proration: Proration::Unstated }
            if subscription == "sub" && item == "si"
    ));
    let told = |failure: Option<&str>| SeatSyncEvent::Updated {
        failure: failure.map(|f| f.to_string()),
        now: 9,
    };
    assert!(matches!(
        error(known.step(told(Some("x")))),
        BillingServiceError::Stripe(m) if m == "x"
    ));
    assert!(matches!(
        known.step(told(None)),
        SeatSyncAction::Store { record, previous: 3 }
            if record.seat_count == 4 && record.updated_at == 9
                && record.tier == TenantTier::Business
    ));
    assert!(matches!(
        known.step(SeatSyncEvent::Stored { failure: None, previous: 3 }),
        SeatSyncAction::Finish(Ok(3))
    ));
    let lost = SeatSyncEvent::Stored { failure: Some("db".to_string()), previous: 3 };
    assert!(matches!(error(known.step(lost)), BillingServiceError::Repository(_)));
}

#[test]
fn team_customers_are_made() {
    let tenant = TenantId::new("t-1");
    assert_eq!(
        team_customer_metadata(&tenant, "team"),
        vec![
            ("tenant_id".to_string(), "t-1".to_string()),
            ("team_id".to_string(), "team".to_string()),
            ("tenant_kind".to_string(), "team".to_string()),
        ]
    );
    let order = TeamProvision {
        tenant_id: tenant,
        team_id: "team".to_string(),
        owner_email: "o@x".to_string(),
        tier: TenantTier::Business,
    };
    let begun = |configured| {
        provision_team_customer(&order, TeamProvisionEvent::Begun { configured })
    };
    assert!(matches!(
        begun(true),
        TeamProvisionAction::Create { email, metadata } if email == "o@x" && metadata.len() == 3
    ));
    assert!(matches!(
        begun(false),
        TeamProvisionAction::Finish(Err(BillingServiceError::NotConfigured))
    ));
    let made = |made| provision_team_customer(&order, TeamProvisionEvent::Created { made, now: 7 });
    assert!(matches!(
        made(Err("x".to_string())),
        TeamProvisionAction::Finish(Err(BillingServiceError::Stripe(m))) if m == "x"
    ));
    match made(Ok("cus".to_string())) {
        TeamProvisionAction::Store { record, customer } => {
            assert_eq!(customer, "cus");
            assert_eq!(record.stripe_customer_id, "cus");
            assert_eq!(record.status, SubscriptionStatus::Unsubscribed);
            assert_eq!((record.seat_count, record.created_at), (1, 7));
        }
        _ => panic!("the record is stored"),
    }
    let stored = |failure: Option<String>| {
        let customer = "cus".to_string();
        provision_team_customer(&order, TeamProvisionEvent::Stored { failure, customer })
    };
    assert!(matches!(stored(None), TeamProvisionAction::Finish(Ok(c)) if c == "cus"));
    assert!(matches!(
        stored(Some("db".to_string())),
        TeamProvisionAction::Finish(Err(BillingServiceError::Repository(m))) if m == "db"
    ));
    assert!(matches!(stripe_client_key(None), Err(BillingServiceError::NotConfigured)));
    assert_eq!(stripe_client_key(Some("sk".to_string())).ok(), Some("sk".to_string()));
}

#[test]
fn nothing_is_stored_where_the_provider_does_not_cancel() {
    let mut cancel = TeamCancel { record: None };
    let mut step = |event| cancel_team_subscription(&mut cancel, event);
    assert!(matches!(
        step(TeamCancelEvent::Begun { configured: false }),
        TeamCancelAction::Finish(Err(BillingServiceError::NotConfigured))
    ));
    assert!(matches!(step(TeamCancelEvent::Begun { configured: true }), TeamCancelAction::Load));
    assert!(matches!(
        step(TeamCancelEvent::Loaded { found: Err("db".to_string()), now: 8 }),
        TeamCancelAction::Finish(Err(BillingServiceError::Repository(m))) if m == "db"
    ));
    assert!(matches!(
        step(TeamCancelEvent::Loaded { found: Ok(None), now: 8 }),
        TeamCancelAction::Finish(Ok(()))
    ));
    assert!(matches!(
        step(TeamCancelEvent::Loaded { found: Ok(Some(subscription(None))), now: 8 }),
        TeamCancelAction::Store { record }
            if record.status == SubscriptionStatus::Canceled && record.updated_at == 8
    ));
    assert!(matches!(
        step(TeamCancelEvent::Loaded { found: Ok(Some(subscription(Some("sub")))), now: 8 }),
        TeamCancelAction::Cancel { subscription } if subscription == "sub"
    ));
    assert!(matches!(
        cancel_with(Err("no id".to_string())),
        TeamCancelAction::Finish(Err(BillingServiceError::InvalidStripeId(m))) if m == "no id"
    ));
    assert!(matches!(
        cancel_with(Ok("other".to_string())),
        TeamCancelAction::Cancel { subscription } if subscription == "other"
    ));
    assert!(matches!(
        step(TeamCancelEvent::Cancelled { failure: Some("x".to_string()), now: 9 }),
        TeamCancelAction::Finish(Err(BillingServiceError::Stripe(m))) if m == "x"
    ));
    assert!(matches!(
        step(TeamCancelEvent::Cancelled { failure: None, now: 9 }),
        TeamCancelAction::Store { record }
            if record.status == SubscriptionStatus::Canceled && record.updated_at == 9
                && record.seat_count == 3
    ));
    assert!(matches!(
        step(TeamCancelEvent::Stored { failure: None }),
        TeamCancelAction::Finish(Ok(()))
    ));
    assert!(matches!(
        step(TeamCancelEvent::Stored { failure: Some("db".to_string()) }),
        TeamCancelAction::Finish(Err(BillingServiceError::Repository(_)))
    ));
}

#[test]
fn texts_are_cut_as_expected() {
    assert_eq!(text::trim(" \u{a0}a b\u{3000}\n"), "a b");
    assert_eq!(text::trim_start("\t a "), "a ");
    assert_eq!(text::lines("a\r\nb\n\nc\r"), vec!["a", "b", "", "c\r"]);
    assert_eq!(text::split("a,b,,", ','), vec!["a", "b", "", ""]);
    assert_eq!(text::replace("aaa", "aa", "b"), "ba");
    assert_eq!(text::parse_i64("-9223372036854775808"), Some(i64::MIN));
    assert_eq!(text::parse_i64("9223372036854775808"), None);
    assert_eq!(text::parse_i64("+5"), Some(5));
    assert_eq!(text::parse_i64(""), None);
    assert_eq!(text::parse_u32("4294967295"), Some(u32::MAX));
    assert_eq!(text::parse_u32("-1"), None);
    assert_eq!(text::i64_text(i64::MIN), "-9223372036854775808");
    assert_eq!(text::u64_text(u64::MAX), "18446744073709551615");
    for c in (0..=0x10ffffu32).filter_map(char::from_u32) {
        assert_eq!(text::is_whitespace(c), c.is_whitespace());
    }
}

#[test]
fn a_map_keeps_one_value_per_key() {
    let mut map: StringMap<u32> = StringMap::new();
    map.insert("a", 1);
    map.insert("b", 2);
    map.insert("a", 3);
    assert_eq!(map.len(), 2);
    assert_eq!(map.get("a"), Some(&3));
    map.retain_keys(&vec!["b".to_string()]);
    assert_eq!(map.get("a"), None);
    assert_eq!(map.value_at(0), &2);
    map.remove("b");
    assert_eq!(map.len(), 0);
}

#[test]
fn members_of_an_object_are_read_back() {
    let object = Json::object().with("a", Json::Int(1)).with("b", Json::Int(2));
    assert_eq!(object.get("a"), Some(&Json::Int(1)));
    assert_eq!(object.get("b"), Some(&Json::Int(2)));
    assert_eq!(object.get("c"), None);
    let object = object.with("a", Json::Int(3));
    assert_eq!(
        object.members().unwrap(),
        &vec![("a".to_string(), Json::Int(3)), ("b".to_string(), Json::Int(2))]
    );
    assert_eq!(Json::Int(-1).as_u64(), None);
    assert_eq!(Json::Int(-1).as_i64(), Some(-1));
    assert_eq!(Json::Int(u64::MAX as i128).as_i64(), None);
}
