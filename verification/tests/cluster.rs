use aegis_daemon::cluster_helpers::{
    cluster_node_view, cluster_role_to_string, cluster_source, cluster_status_view,
    configured_node_id, count_status, fallback_cluster_node, health_counts, load_cluster_nodes,
    node_id_or, node_status_to_string, own_cluster_node, registered_nodes, render_nodes,
    ClusterConfig, HealthCounts, NodeCapabilities, NodeConfig, NodePeer, NodePeerStatus,
    NodeResources, NodeRole,
};
use aegis_daemon::handlers::cluster::{cluster_nodes, listed};
use aegis_daemon::json::Json;
use aegis_daemon::relay_server::{
    dispatches_to_relay, plan_relay, run_relay_coordinator, GrpcAuthConfig, RelayAction,
    RelayClusterConfig, RelayConfig, RelayEvent, RelayStart, SecretsSource,
};

fn relay_config(node_id: &str, role: NodeRole) -> RelayConfig {
    RelayConfig {
        node_id: node_id.to_string(),
        bind_address: None,
        cluster: Some(RelayClusterConfig {
            role,
            cluster_grpc_port: 50056,
            public_endpoint: None,
            stale_threshold_secs: None,
            sweep_interval_secs: None,
        }),
        public_url: None,
        grpc_auth: None,
        has_storage: false,
        has_secrets_backend: true,
    }
}

#[test]
fn relay_coordinator_dispatch_gate_matches_role_with_no_storage() {
    let mut config = relay_config("aegis-relay-coordinator-1", NodeRole::RelayCoordinator);
    config.cluster.as_mut().unwrap().public_endpoint =
        Some("https://relay.myzaru.com".to_string());
    assert!(
        dispatches_to_relay(&config),
        "RelayCoordinator role must trigger relay dispatch"
    );
    assert!(!config.has_storage);
    assert!(run_relay_coordinator(&config, true, false).is_ok());
}

#[test]
fn controller_role_does_not_trigger_relay_dispatch() {
    let config = relay_config("aegis-controller-1", NodeRole::Controller);
    assert!(
        !dispatches_to_relay(&config),
        "Controller role must take the full daemon boot path (storage required)"
    );
}

#[test]
fn a_relay_is_planned_from_its_configuration() {
    let id = uuid::Uuid::new_v4();
    let mut config = relay_config(&id.to_string(), NodeRole::RelayCoordinator);
    let plan = match run_relay_coordinator(&config, true, true) {
        Ok(plan) => plan,
        Err(e) => panic!("{e}"),
    };
    assert_eq!(plan.cluster_addr, "0.0.0.0:50056");
    assert_eq!(plan.cluster_grpc_port, 50056);
    assert_eq!(plan.node_id, id.as_u128());
    assert_eq!(plan.issuer_url, "aegis-relay-coordinator");
    assert_eq!(plan.public_endpoint, "0.0.0.0:50056");
    assert_eq!(plan.stale_threshold_secs, 90);
    assert_eq!(plan.sweep_interval_secs, 30);
    assert!(plan.grpc_auth.is_some());

    config.bind_address = Some("10.0.0.1".to_string());
    config.public_url = Some("https://x".to_string());
    config.grpc_auth = Some(GrpcAuthConfig { enabled: false, exempt_methods: vec![] });
    let plan = plan_relay(&config, true, true, 3).ok().unwrap();
    assert_eq!(plan.cluster_addr, "10.0.0.1:50056");
    assert_eq!(plan.issuer_url, "https://x");
    assert_eq!(plan.node_id, 3);
    assert!(plan.grpc_auth.is_none());

    assert!(run_relay_coordinator(&config, false, true)
        .err()
        .unwrap()
        .starts_with("RelayCoordinator role requires spec.database"));
}

fn failure(action: RelayAction) -> (String, Option<String>) {
    match action {
        RelayAction::Fail { message, cause } => (message, cause),
        _ => panic!("a failure"),
    }
}

#[test]
fn a_relay_opens_its_secrets_first() {
    let mut start = RelayStart {
        config: relay_config("n", NodeRole::RelayCoordinator),
        has_database: false,
        has_iam: true,
    };
    assert!(matches!(
        start.step(RelayEvent::Begun),
        RelayAction::OpenSecrets(SecretsSource::Backend)
    ));
    let (message, cause) = failure(start.step(RelayEvent::SecretsOpened(Err("x".to_string()))));
    assert_eq!(message, "Failed to initialize OpenBao secrets manager for relay-coordinator");
    assert_eq!(cause, Some("x".to_string()));
    let (message, cause) = failure(start.step(RelayEvent::SecretsOpened(Ok(()))));
    assert!(message.starts_with("RelayCoordinator role requires spec.database"));
    assert_eq!(cause, None);

    start.has_database = true;
    start.config.has_secrets_backend = false;
    assert!(matches!(
        start.step(RelayEvent::Begun),
        RelayAction::OpenSecrets(SecretsSource::InMemory)
    ));
    match start.step(RelayEvent::SecretsOpened(Ok(()))) {
        RelayAction::ReadAddress { address } => assert_eq!(address, "0.0.0.0:50056"),
        _ => panic!("an address"),
    }
    let (message, cause) = failure(start.step(RelayEvent::AddressRead(Err("y".to_string()))));
    assert_eq!(message, "Failed to parse cluster gRPC address: 0.0.0.0:50056");
    assert_eq!(cause, Some("y".to_string()));
    match start.step(RelayEvent::AddressRead(Ok(()))) {
        RelayAction::Serve(plan) => assert!(plan.grpc_auth.unwrap().exempt_methods.is_empty()),
        _ => panic!("a plan"),
    }
    assert!(matches!(start.step(RelayEvent::ServerEnded), RelayAction::End));
}

fn peer(id: u128, role: NodeRole, status: NodePeerStatus) -> NodePeer {
    NodePeer {
        node_id: id,
        role,
        public_key: vec![],
        capabilities: NodeCapabilities {
            gpu_count: 1,
            vram_gb: 2,
            cpu_cores: 3,
            available_memory_gb: 4,
            supported_runtimes: vec!["docker".to_string()],
            tags: vec!["t".to_string()],
        },
        grpc_address: "a:1".to_string(),
        status,
        last_heartbeat_at: 5,
        registered_at: 6,
    }
}

#[test]
fn a_node_is_shown_once_and_first_come_stays_first() {
    let lists = vec![
        Some(vec![
            peer(1, NodeRole::Worker, NodePeerStatus::Active),
            peer(2, NodeRole::Controller, NodePeerStatus::Active),
        ]),
        None,
        Some(vec![
            peer(1, NodeRole::Worker, NodePeerStatus::Draining),
            peer(3, NodeRole::Hybrid, NodePeerStatus::Unhealthy),
        ]),
    ];
    let nodes = registered_nodes(lists);
    let ids: Vec<&str> = nodes.iter().map(|n| n.node_id.as_str()).collect();
    assert_eq!(
        ids,
        vec![
            "00000000-0000-0000-0000-000000000001",
            "00000000-0000-0000-0000-000000000002",
            "00000000-0000-0000-0000-000000000003",
        ]
    );
    assert_eq!(nodes[0].status, "active");
    assert_eq!(count_status(&nodes, "active"), 2);
    assert_eq!(health_counts(&nodes), HealthCounts { active: 2, draining: 0, unhealthy: 1 });
    let view = cluster_status_view(nodes, true, "degraded".to_string());
    assert_eq!(view.source, "cluster_repository");
    assert_eq!(view.controller_node_id, Some("00000000-0000-0000-0000-000000000002".to_string()));
    assert_eq!(
        (view.total_nodes, view.active_nodes, view.draining_nodes, view.unhealthy_nodes),
        (3, 2, 0, 1)
    );
    assert_eq!(view.cluster_health, "degraded");
}

#[test]
fn names_of_roles_and_statuses() {
    assert_eq!(cluster_role_to_string(&NodeRole::Controller), "controller");
    assert_eq!(cluster_role_to_string(&NodeRole::RelayCoordinator), "relaycoordinator");
    assert_eq!(node_status_to_string(NodePeerStatus::Draining), "draining");
    assert_eq!(cluster_source(false), "local_fallback");
    let shown = cluster_node_view(&peer(9, NodeRole::Worker, NodePeerStatus::Active));
    assert_eq!(shown.role, "worker");
    assert_eq!(shown.supported_runtimes, vec!["docker".to_string()]);
    assert_eq!((shown.gpu_count, shown.available_memory_gb), (1, 4));
    let rendered = shown.render();
    assert_eq!(rendered.get_str("node_id"), Some("00000000-0000-0000-0000-000000000009"));
    assert_eq!(rendered.get_str("registered_at"), Some("1970-01-01T00:00:00.000000006Z"));
    assert_eq!(rendered.get("available_memory_gb"), Some(&Json::Int(4)));
    assert_eq!(render_nodes(&vec![shown]), vec![rendered]);
}

#[test]
fn without_a_registry_the_node_shows_itself() {
    let mut config = NodeConfig {
        node_id: "n".to_string(),
        tags: vec!["edge".to_string()],
        resources: Some(NodeResources { gpu_count: 1, vram_gb: 8, cpu_cores: 4, memory_gb: 16 }),
        cluster: Some(ClusterConfig {
            role: NodeRole::Hybrid,
            cluster_grpc_port: 50056,
            controller_endpoint: None,
        }),
        bind_address: Some("10.0.0.2".to_string()),
    };
    let me = fallback_cluster_node(&config, 4, NodeRole::Worker, 77);
    assert_eq!(me.grpc_address, "10.0.0.2:50056");
    assert_eq!(me.role, NodeRole::Hybrid);
    assert_eq!(me.capabilities.available_memory_gb, 16);
    assert_eq!(me.registered_at, 77);
    let nodes = load_cluster_nodes(None, &me);
    assert_eq!(nodes.len(), 1);
    assert_eq!(nodes[0].tags, vec!["edge".to_string()]);
    config.cluster = None;
    config.bind_address = None;
    let me = fallback_cluster_node(&config, 4, NodeRole::Worker, 77);
    assert_eq!(me.grpc_address, "127.0.0.1:0");
    assert_eq!(me.role, NodeRole::Worker);
    config.node_id = "6ba7b810-9dad-11d1-80b4-00c04fd430c8".to_string();
    let me = own_cluster_node(&config, NodeRole::Worker, 78);
    assert_eq!(me.last_heartbeat_at, 78);
    assert_eq!(cluster_node_view(&me).node_id, config.node_id);
    config.node_id = "not-a-uuid".to_string();
    let (one, other) = (
        own_cluster_node(&config, NodeRole::Worker, 78),
        own_cluster_node(&config, NodeRole::Worker, 78),
    );
    assert_ne!(one.node_id, other.node_id);
}

#[test]
fn a_configured_id_is_kept_and_another_is_drawn() {
    let id = uuid::Uuid::new_v4();
    assert_eq!(configured_node_id(&id.to_string()), id.as_u128());
    assert_ne!(configured_node_id("my-node"), configured_node_id("my-node"));
    assert_eq!(node_id_or(None, 5), 5);
    assert_eq!(node_id_or(Some(4), 5), 4);
}

#[test]
fn lists_are_cut_at_the_limit() {
    assert_eq!(listed(vec![1, 2, 3], Some(2)), vec![1, 2]);
    assert_eq!(listed(vec![1, 2, 3], Some(0)), vec![1]);
    assert_eq!(listed(vec![1, 2, 3], None), vec![1, 2, 3]);
    let nodes = registered_nodes(vec![Some(vec![
        peer(1, NodeRole::Worker, NodePeerStatus::Active),
        peer(2, NodeRole::Worker, NodePeerStatus::Active),
    ])]);
    let (source, shown) = cluster_nodes(nodes, false, Some(1));
    assert_eq!(source, "local_fallback");
    assert_eq!(shown.len(), 1);
}
