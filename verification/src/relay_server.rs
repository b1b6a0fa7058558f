//! How a relay coordinator starts: the role that brokers streams between edge
//! daemons and the orchestrator, and hosts nothing else.

use crate::cluster_helpers::NodeRole;
use crate::{cluster_helpers, primitives, text};
use vstd::prelude::*;

verus! {

/// Which calls need a token, where tokens are asked for.
pub struct GrpcAuthConfig {
    pub enabled: bool,
    pub exempt_methods: Vec<String>,
}

/// The cluster part of a relay's configuration.
pub struct RelayClusterConfig {
    pub role: NodeRole,
    pub cluster_grpc_port: u16,
    /// The endpoint that is told to others, where one is configured and can be
    /// resolved.
    pub public_endpoint: Option<String>,
    pub stale_threshold_secs: Option<u64>,
    pub sweep_interval_secs: Option<u64>,
}

/// What a relay's configuration says, as far as its start depends on it.
pub struct RelayConfig {
    pub node_id: String,
    pub bind_address: Option<String>,
    pub cluster: Option<RelayClusterConfig>,
    /// The public address of the client application, where one is configured and
    /// can be resolved.
    pub public_url: Option<String>,
    pub grpc_auth: Option<GrpcAuthConfig>,
    pub has_storage: bool,
    pub has_secrets_backend: bool,
}

/// Whether a node starts as a relay coordinator.
pub open spec fn is_relay(cluster: Option<RelayClusterConfig>) -> bool {
    cluster is Some && cluster->Some_0.role == NodeRole::RelayCoordinator
}

/// Whether a node starts as a relay coordinator, which needs no storage.
pub fn dispatches_to_relay(config: &RelayConfig) -> (r: bool)
    ensures
        r == is_relay(config.cluster),
{
    match &config.cluster {
        Some(cluster) => match cluster.role {
            NodeRole::RelayCoordinator => true,
            _ => false,
        },
        None => false,
    }
}

/// Where a relay keeps its secrets.
#[derive(Clone, Copy, PartialEq, Eq, Structural, Debug)]
pub enum SecretsSource {
    /// In the backend that is configured.
    Backend,
    /// In memory, for development alone.
    InMemory,
}

/// How a relay is to be started.
pub struct RelayPlan {
    pub cluster_addr: String,
    pub cluster_grpc_port: u16,
    pub node_id: u128,
    pub issuer_url: String,
    pub public_endpoint: String,
    /// How callers are authenticated; missing where they are not.
    pub grpc_auth: Option<GrpcAuthConfig>,
    pub stale_threshold_secs: u64,
    pub sweep_interval_secs: u64,
}

/// The port that a relay listens on.
pub open spec fn relay_port(cluster: Option<RelayClusterConfig>) -> u16 {
    match cluster {
        Some(c) => c.cluster_grpc_port,
        None => 50056,
    }
}

/// The address that a relay listens on.
pub open spec fn relay_addr(config: RelayConfig) -> Seq<char> {
    (match config.bind_address {
        Some(bind) => bind@,
        None => "0.0.0.0"@,
    }) + ":"@ + text::decimal(relay_port(config.cluster) as nat)
}

/// The endpoint that a relay tells others.
pub open spec fn relay_endpoint(config: RelayConfig) -> Seq<char> {
    if config.cluster is Some && config.cluster->Some_0.public_endpoint is Some {
        config.cluster->Some_0.public_endpoint->Some_0@
    } else {
        relay_addr(config)
    }
}

/// Whether a relay authenticates its callers: it can where there is an identity
/// provider, and does unless the configuration says otherwise.
pub open spec fn authenticates(has_iam: bool, auth: Option<GrpcAuthConfig>) -> bool {
    has_iam && (match auth {
        Some(a) => a.enabled,
        None => true,
    })
}

/// A number of seconds of the cluster part, or the default.
pub open spec fn seconds_or(
    cluster: Option<RelayClusterConfig>,
    pick: spec_fn(RelayClusterConfig) -> Option<u64>,
    default: u64,
) -> u64 {
    match cluster {
        Some(c) => match pick(c) {
            Some(n) => n,
            None => default,
        },
        None => default,
    }
}

/// Whether a plan starts a relay as its configuration says.
pub open spec fn planned(config: RelayConfig, has_iam: bool, plan: RelayPlan) -> bool {
    &&& plan.cluster_addr@ == relay_addr(config)
    &&& plan.cluster_grpc_port == relay_port(config.cluster)
    &&& plan.issuer_url@ == (match config.public_url {
        Some(url) => url@,
        None => "aegis-relay-coordinator"@,
    })
    &&& plan.public_endpoint@ == relay_endpoint(config)
    &&& plan.grpc_auth is Some == authenticates(has_iam, config.grpc_auth)
    &&& plan.grpc_auth is Some ==> plan.grpc_auth->Some_0.enabled && text::views(
        plan.grpc_auth->Some_0.exempt_methods@,
    ) == (match config.grpc_auth {
        Some(a) => text::views(a.exempt_methods@),
        None => Seq::empty(),
    })
    &&& plan.stale_threshold_secs == seconds_or(
        config.cluster,
        |c: RelayClusterConfig| c.stale_threshold_secs,
        90,
    )
    &&& plan.sweep_interval_secs == seconds_or(
        config.cluster,
        |c: RelayClusterConfig| c.sweep_interval_secs,
        30,
    )
}

/// The message where a relay has no database.
pub open spec fn no_database() -> Seq<char> {
    "RelayCoordinator role requires spec.database; the cluster repositories (NodeRegistry, ChallengeRepo, EdgeDaemonRepo, EnrolmentTokenRepo) require PostgreSQL persistence."@
}

fn no_database_message() -> (r: String)
    ensures
        r@ == no_database(),
{
    "RelayCoordinator role requires spec.database; the cluster repositories (NodeRegistry, ChallengeRepo, EdgeDaemonRepo, EnrolmentTokenRepo) require PostgreSQL persistence.".to_owned()
}

/// The address that a relay listens on.
pub fn relay_address(config: &RelayConfig) -> (r: String)
    ensures
        r@ == relay_addr(*config),
{
    let bind = match &config.bind_address {
        Some(b) => b.clone(),
        None => "0.0.0.0".to_owned(),
    };
    let port: u16 = match &config.cluster {
        Some(c) => c.cluster_grpc_port,
        None => 50056,
    };
    bind.concat(":").concat(text::u64_text(port as u64).as_str())
}

/// Plans the start of a relay, given whether a database and an identity provider
/// are there, and the identifier of the node.
pub fn plan_relay(config: &RelayConfig, has_database: bool, has_iam: bool, node_id: u128) -> (r:
    Result<RelayPlan, String>)
    ensures
        if has_database {
            r matches Ok(plan) && planned(*config, has_iam, plan) && plan.node_id == node_id
        } else {
            r matches Err(message) && message@ == no_database()
        },
{
    if !has_database {
        return Err(no_database_message());
    }
    let port: u16 = match &config.cluster {
        Some(c) => c.cluster_grpc_port,
        None => 50056,
    };
    let cluster_addr = relay_address(config);
    let issuer_url = match &config.public_url {
        Some(url) => url.clone(),
        None => "aegis-relay-coordinator".to_owned(),
    };
    let configured_endpoint = match &config.cluster {
        Some(c) => c.public_endpoint.clone(),
        None => None,
    };
    let public_endpoint = match configured_endpoint {
        Some(e) => e,
        None => cluster_addr.clone(),
    };
    let grpc_auth = if !has_iam {
        None
    } else {
        match &config.grpc_auth {
            Some(a) => if a.enabled {
                Some(
                    GrpcAuthConfig { enabled: true, exempt_methods: text::copied(&a.exempt_methods) },
                )
            } else {
                None
            },
            None => {
                let none: Vec<String> = Vec::new();
                assert(text::views(none@) =~= Seq::empty());
                Some(GrpcAuthConfig { enabled: true, exempt_methods: none })
            },
        }
    };
    let stale_threshold_secs: u64 = match &config.cluster {
        Some(c) => match c.stale_threshold_secs {
            Some(n) => n,
            None => 90,
        },
        None => 90,
    };
    let sweep_interval_secs: u64 = match &config.cluster {
        Some(c) => match c.sweep_interval_secs {
            Some(n) => n,
            None => 30,
        },
        None => 30,
    };
    Ok(
        RelayPlan {
            cluster_addr,
            cluster_grpc_port: port,
            node_id,
            issuer_url,
            public_endpoint,
            grpc_auth,
            stale_threshold_secs,
            sweep_interval_secs,
        },
    )
}

/// Whether a plan's node is identified as the configuration says, or by a random
/// identifier where that is no UUID.
pub open spec fn identified(config: RelayConfig, plan: RelayPlan) -> bool {
    match primitives::parsed_uuid(config.node_id@) {
        Some(id) => plan.node_id == id,
        None => primitives::is_random_uuid(plan.node_id),
    }
}

/// Plans the start of a relay whose node is identified as its configuration says,
/// or by a random identifier where that is no UUID.
pub fn run_relay_coordinator(config: &RelayConfig, has_database: bool, has_iam: bool) -> (r: Result<
    RelayPlan,
    String,
>)
    ensures
        if has_database {
            r matches Ok(plan) && planned(*config, has_iam, plan) && identified(*config, plan)
        } else {
            r matches Err(message) && message@ == no_database()
        },
{
    let node_id: u128 = cluster_helpers::configured_node_id(config.node_id.as_str());
    plan_relay(config, has_database, has_iam, node_id)
}

/// What was learnt in the start of a relay.
pub enum RelayEvent {
    Begun,
    /// The secrets were opened; the message is that of the backend.
    SecretsOpened(Result<(), String>),
    /// The address was read; the message says why it is none.
    AddressRead(Result<(), String>),
    /// The server has ended.
    ServerEnded,
}

/// What is done next in the start of a relay.
pub enum RelayAction {
    OpenSecrets(SecretsSource),
    /// Read a text as the address to listen on.
    ReadAddress { address: String },
    /// Serve, and sweep over the nodes meanwhile, until the server ends.
    Serve(RelayPlan),
    /// Fail, with what failed and the cause where there is one.
    Fail { message: String, cause: Option<String> },
    End,
}

/// A relay on its start.
pub struct RelayStart {
    pub config: RelayConfig,
    pub has_database: bool,
    pub has_iam: bool,
}

impl RelayStart {
    /// Whether an action is what follows from an event: the secrets come first, the
    /// database next, the address after it.
    pub open spec fn follows(self, event: RelayEvent, action: RelayAction) -> bool {
        match event {
            RelayEvent::Begun => action == RelayAction::OpenSecrets(
                if self.config.has_secrets_backend {
                    SecretsSource::Backend
                } else {
                    SecretsSource::InMemory
                },
            ),
            RelayEvent::SecretsOpened(Err(e)) => {
                &&& action matches RelayAction::Fail { message, cause }
                &&& message@
                    == "Failed to initialize OpenBao secrets manager for relay-coordinator"@
                &&& cause == Some(e)
            },
            RelayEvent::SecretsOpened(Ok(_)) => if self.has_database {
                action matches RelayAction::ReadAddress { address } && address@ == relay_addr(
                    self.config,
                )
            } else {
                &&& action matches RelayAction::Fail { message, cause }
                &&& message@ == no_database()
                &&& cause is None
            },
            RelayEvent::AddressRead(Err(e)) => {
                &&& action matches RelayAction::Fail { message, cause }
                &&& message@ == "Failed to parse cluster gRPC address: "@ + relay_addr(self.config)
                &&& cause == Some(e)
            },
            RelayEvent::AddressRead(Ok(_)) => if self.has_database {
                &&& action matches RelayAction::Serve(plan)
                &&& planned(self.config, self.has_iam, plan)
                &&& identified(self.config, plan)
            } else {
                &&& action matches RelayAction::Fail { message, cause }
                &&& message@ == no_database()
                &&& cause is None
            },
            RelayEvent::ServerEnded => action is End,
        }
    }

    /// One step of the start of a relay: takes what was learnt and says what to do next.
    pub fn step(&self, event: RelayEvent) -> (action: RelayAction)
        ensures
            self.follows(event, action),
    {
        match event {
            RelayEvent::Begun => RelayAction::OpenSecrets(
                if self.config.has_secrets_backend {
                    SecretsSource::Backend
                } else {
                    SecretsSource::InMemory
                },
            ),
            RelayEvent::SecretsOpened(outcome) => match outcome {
                Err(e) => RelayAction::Fail {
                    message:
                        "Failed to initialize OpenBao secrets manager for relay-coordinator".to_owned(),
                    cause: Some(e),
                },
                Ok(_) => if self.has_database {
                    RelayAction::ReadAddress { address: relay_address(&self.config) }
                } else {
                    RelayAction::Fail { message: no_database_message(), cause: None }
                },
            },
            RelayEvent::AddressRead(outcome) => match outcome {
                Err(e) => RelayAction::Fail {
                    message: "Failed to parse cluster gRPC address: ".to_owned().concat(
                        relay_address(&self.config).as_str(),
                    ),
                    cause: Some(e),
                },
                Ok(_) => match run_relay_coordinator(
                    &self.config,
                    self.has_database,
                    self.has_iam,
                ) {
                    Ok(plan) => RelayAction::Serve(plan),
                    Err(message) => RelayAction::Fail { message, cause: None },
                },
            },
            RelayEvent::ServerEnded => RelayAction::End,
        }
    }
}

/// A relay starts without storage: whether storage is configured changes neither
/// whether a node is a relay nor how it is started.
pub proof fn law_relay_needs_no_storage(
    config: RelayConfig,
    without: RelayConfig,
    has_iam: bool,
    plan: RelayPlan,
)
    requires
        without == (RelayConfig { has_storage: false, ..config }),
    ensures
        is_relay(without.cluster) == is_relay(config.cluster),
        planned(without, has_iam, plan) == planned(config, has_iam, plan),
{
}

/// A relay with an identity provider authenticates every call, unless its configuration
/// speaks of the authentication.
pub proof fn law_relays_authenticate_by_default(config: RelayConfig, plan: RelayPlan)
    requires
        config.grpc_auth is None,
        planned(config, true, plan),
    ensures
        plan.grpc_auth is Some,
        plan.grpc_auth->Some_0.enabled,
        plan.grpc_auth->Some_0.exempt_methods@.len() == 0,
{
    assert(text::views(plan.grpc_auth->Some_0.exempt_methods@).len() == 0);
}

/// No relay serves without a database, and none before its secrets are open.
pub proof fn law_no_service_without_a_database(
    start: RelayStart,
    event: RelayEvent,
    action: RelayAction,
)
    requires
        start.follows(event, action),
        action is Serve,
    ensures
        start.has_database,
        !(event is Begun),
        !(event is SecretsOpened),
{
}

/// A relay listens on the address and the port that it is given, or on all addresses and
/// the usual port, and is reached at its public endpoint where it has one.
pub proof fn law_where_a_relay_listens(
    config: RelayConfig,
    cluster: RelayClusterConfig,
    bind: String,
    endpoint: String,
)
    ensures
        config.cluster == Some(cluster) && config.bind_address == Some(bind) ==> relay_addr(config)
            == bind@ + ":"@ + text::decimal(cluster.cluster_grpc_port as nat),
        config.cluster == Some(cluster) && config.bind_address is None ==> relay_addr(config)
            == "0.0.0.0"@ + ":"@ + text::decimal(cluster.cluster_grpc_port as nat),
        config.cluster is None && config.bind_address == Some(bind) ==> relay_addr(config)
            == bind@ + ":"@ + text::decimal(50056),
        config.cluster == Some(cluster) && cluster.public_endpoint == Some(endpoint)
            ==> relay_endpoint(config) == endpoint@,
        config.cluster == Some(cluster) && cluster.public_endpoint is None ==> relay_endpoint(
            config,
        ) == relay_addr(config),
        config.cluster is None ==> relay_endpoint(config) == relay_addr(config),
        config.cluster == Some(cluster) ==> (is_relay(config.cluster) <==> cluster.role
            == NodeRole::RelayCoordinator),
        config.cluster is None ==> !is_relay(config.cluster),
{
}

/// The plan of a relay is what its configuration says, with ninety seconds before a node is
/// stale, thirty between sweeps and a name of its own where nothing else is said.
pub proof fn law_a_relay_is_planned(
    config: RelayConfig,
    cluster: RelayClusterConfig,
    has_iam: bool,
    plan: RelayPlan,
    url: String,
    n: u64,
)
    requires
        planned(config, has_iam, plan),
        config.cluster == Some(cluster),
    ensures
        plan.cluster_addr@ == relay_addr(config),
        plan.cluster_grpc_port == cluster.cluster_grpc_port,
        config.public_url == Some(url) ==> plan.issuer_url@ == url@,
        config.public_url is None ==> plan.issuer_url@ == "aegis-relay-coordinator"@,
        plan.public_endpoint@ == relay_endpoint(config),
        cluster.stale_threshold_secs == Some(n) ==> plan.stale_threshold_secs == n,
        cluster.stale_threshold_secs is None ==> plan.stale_threshold_secs == 90,
        cluster.sweep_interval_secs == Some(n) ==> plan.sweep_interval_secs == n,
        cluster.sweep_interval_secs is None ==> plan.sweep_interval_secs == 30,
        !has_iam ==> plan.grpc_auth is None,
        has_iam && (config.grpc_auth matches Some(a) ==> a.enabled) ==> plan.grpc_auth is Some,
        config.grpc_auth matches Some(a) && !a.enabled ==> plan.grpc_auth is None,
        config.grpc_auth matches Some(a) ==> (plan.grpc_auth matches Some(auth) ==> text::views(
            auth.exempt_methods@,
        ) == text::views(a.exempt_methods@)),
{
}

/// A relay opens its secrets, reads its address, serves and ends, in this order; what fails
/// on the way is told with its cause.
pub proof fn law_a_relay_starts_step_by_step(
    start: RelayStart,
    action: RelayAction,
    e: String,
)
    requires
        start.has_database,
    ensures
        start.follows(RelayEvent::Begun, action) && start.config.has_secrets_backend ==> action
            == RelayAction::OpenSecrets(SecretsSource::Backend),
        start.follows(RelayEvent::Begun, action) && !start.config.has_secrets_backend ==> action
            == RelayAction::OpenSecrets(SecretsSource::InMemory),
        start.follows(RelayEvent::SecretsOpened(Ok(())), action) ==> (
        action matches RelayAction::ReadAddress { address } && address@ == relay_addr(
            start.config,
        )),
        start.follows(RelayEvent::SecretsOpened(Err(e)), action) ==> (
        action matches RelayAction::Fail { cause, .. } && cause == Some(e)),
        start.follows(RelayEvent::AddressRead(Ok(())), action) ==> (
        action matches RelayAction::Serve(plan) && planned(start.config, start.has_iam, plan)),
        start.follows(RelayEvent::AddressRead(Err(e)), action) ==> (
        action matches RelayAction::Fail { cause, .. } && cause == Some(e)),
        start.follows(RelayEvent::ServerEnded, action) ==> action is End,
{
}

/// A relay keeps the identifier that it is given, and draws one where that denotes none.
pub proof fn law_relays_are_identified(config: RelayConfig, plan: RelayPlan, id: u128)
    requires
        identified(config, plan),
    ensures
        primitives::parsed_uuid(config.node_id@) == Some(id) ==> plan.node_id == id,
        primitives::parsed_uuid(config.node_id@) is None ==> primitives::is_random_uuid(
            plan.node_id,
        ),
{
}

/// A start that fails says at which step, and names the address where that is at fault.
pub proof fn law_failed_starts_say_where(start: RelayStart, action: RelayAction, e: String)
    ensures
        start.follows(RelayEvent::SecretsOpened(Err(e)), action) ==> (
        action matches RelayAction::Fail { message, .. } && message@
            == "Failed to initialize OpenBao secrets manager for relay-coordinator"@),
        start.has_database && start.follows(RelayEvent::AddressRead(Err(e)), action) ==> (
        action matches RelayAction::Fail { message, .. } && message@
            == "Failed to parse cluster gRPC address: "@ + relay_addr(start.config)),
        !start.has_database && start.follows(RelayEvent::SecretsOpened(Ok(())), action) ==> (
        action matches RelayAction::Fail { message, cause } && message@ == no_database()
            && cause is None),
{
}

} // verus!
