//! The nodes of a cluster, as they are shown to operators.

use crate::json::{Json, JsonView};
use crate::operator_read_models::Moment;
use crate::{json, operator_read_models, primitives, text};
use vstd::prelude::*;

verus! {

/// What a node is in its cluster.
#[derive(Clone, Copy, PartialEq, Eq, Structural, Debug)]
pub enum NodeRole {
    Controller,
    Worker,
    Hybrid,
    RelayCoordinator,
}

/// Whether a node takes part in its cluster.
#[derive(Clone, Copy, PartialEq, Eq, Structural, Debug)]
pub enum NodePeerStatus {
    Active,
    Draining,
    Unhealthy,
}

/// The name under which a role is shown.
pub open spec fn role_name(role: NodeRole) -> Seq<char> {
    match role {
        NodeRole::Controller => "controller"@,
        NodeRole::Worker => "worker"@,
        NodeRole::Hybrid => "hybrid"@,
        NodeRole::RelayCoordinator => "relaycoordinator"@,
    }
}

/// The name under which a role is shown.
pub fn cluster_role_to_string(role: &NodeRole) -> (r: String)
    ensures
        r@ == role_name(*role),
{
    match role {
        NodeRole::Controller => "controller".to_owned(),
        NodeRole::Worker => "worker".to_owned(),
        NodeRole::Hybrid => "hybrid".to_owned(),
        NodeRole::RelayCoordinator => "relaycoordinator".to_owned(),
    }
}

/// The name under which a status is shown.
pub open spec fn status_name(status: NodePeerStatus) -> Seq<char> {
    match status {
        NodePeerStatus::Active => "active"@,
        NodePeerStatus::Draining => "draining"@,
        NodePeerStatus::Unhealthy => "unhealthy"@,
    }
}

/// The name under which a status is shown.
pub fn node_status_to_string(status: NodePeerStatus) -> (r: String)
    ensures
        r@ == status_name(status),
{
    match status {
        NodePeerStatus::Active => "active".to_owned(),
        NodePeerStatus::Draining => "draining".to_owned(),
        NodePeerStatus::Unhealthy => "unhealthy".to_owned(),
    }
}

/// What a node can do.
pub struct NodeCapabilities {
    pub gpu_count: u32,
    pub vram_gb: u32,
    pub cpu_cores: u32,
    pub available_memory_gb: u32,
    pub supported_runtimes: Vec<String>,
    pub tags: Vec<String>,
}

/// A node of a cluster.
pub struct NodePeer {
    pub node_id: u128,
    pub role: NodeRole,
    pub public_key: Vec<u8>,
    pub capabilities: NodeCapabilities,
    pub grpc_address: String,
    pub status: NodePeerStatus,
    pub last_heartbeat_at: Moment,
    pub registered_at: Moment,
}

/// What is shown of a node.
pub struct ClusterNodeView {
    pub node_id: String,
    pub role: String,
    pub status: String,
    pub grpc_address: String,
    pub gpu_count: u32,
    pub vram_gb: u32,
    pub cpu_cores: u32,
    pub available_memory_gb: u32,
    pub supported_runtimes: Vec<String>,
    pub tags: Vec<String>,
    pub last_heartbeat_at: Moment,
    pub registered_at: Moment,
}

/// The mathematical content of what is shown of a node.
pub struct ClusterNodeModel {
    pub node_id: Seq<char>,
    pub role: Seq<char>,
    pub status: Seq<char>,
    pub grpc_address: Seq<char>,
    pub gpu_count: u32,
    pub vram_gb: u32,
    pub cpu_cores: u32,
    pub available_memory_gb: u32,
    pub supported_runtimes: Seq<Seq<char>>,
    pub tags: Seq<Seq<char>>,
    pub last_heartbeat_at: Moment,
    pub registered_at: Moment,
}

impl View for ClusterNodeView {
    type V = ClusterNodeModel;

    open spec fn view(&self) -> ClusterNodeModel {
        ClusterNodeModel {
            node_id: self.node_id@,
            role: self.role@,
            status: self.status@,
            grpc_address: self.grpc_address@,
            gpu_count: self.gpu_count,
            vram_gb: self.vram_gb,
            cpu_cores: self.cpu_cores,
            available_memory_gb: self.available_memory_gb,
            supported_runtimes: text::views(self.supported_runtimes@),
            tags: text::views(self.tags@),
            last_heartbeat_at: self.last_heartbeat_at,
            registered_at: self.registered_at,
        }
    }
}

impl NodePeer {
    /// What is shown of the node.
    pub open spec fn shown(&self) -> ClusterNodeModel {
        ClusterNodeModel {
            node_id: primitives::uuid_chars(self.node_id),
            role: role_name(self.role),
            status: status_name(self.status),
            grpc_address: self.grpc_address@,
            gpu_count: self.capabilities.gpu_count,
            vram_gb: self.capabilities.vram_gb,
            cpu_cores: self.capabilities.cpu_cores,
            available_memory_gb: self.capabilities.available_memory_gb,
            supported_runtimes: text::views(self.capabilities.supported_runtimes@),
            tags: text::views(self.capabilities.tags@),
            last_heartbeat_at: self.last_heartbeat_at,
            registered_at: self.registered_at,
        }
    }
}

/// What is shown of a node.
pub fn cluster_node_view(peer: &NodePeer) -> (r: ClusterNodeView)
    ensures
        r@ == peer.shown(),
{
    ClusterNodeView {
        node_id: primitives::uuid_text(peer.node_id),
        role: cluster_role_to_string(&peer.role),
        status: node_status_to_string(peer.status),
        grpc_address: peer.grpc_address.clone(),
        gpu_count: peer.capabilities.gpu_count,
        vram_gb: peer.capabilities.vram_gb,
        cpu_cores: peer.capabilities.cpu_cores,
        available_memory_gb: peer.capabilities.available_memory_gb,
        supported_runtimes: text::copied(&peer.capabilities.supported_runtimes),
        tags: text::copied(&peer.capabilities.tags),
        last_heartbeat_at: peer.last_heartbeat_at,
        registered_at: peer.registered_at,
    }
}

/// The resources that a configuration gives a node.
pub struct NodeResources {
    pub gpu_count: u32,
    pub vram_gb: u32,
    pub cpu_cores: u32,
    pub memory_gb: u32,
}

/// The cluster part of a configuration.
pub struct ClusterConfig {
    pub role: NodeRole,
    pub cluster_grpc_port: u16,
    pub controller_endpoint: Option<String>,
}

/// What the configuration of a node says about the node.
pub struct NodeConfig {
    pub node_id: String,
    pub tags: Vec<String>,
    pub resources: Option<NodeResources>,
    pub cluster: Option<ClusterConfig>,
    pub bind_address: Option<String>,
}

/// The identifier of a node: the one that its configuration gives, or a fresh one
/// where that is no UUID.
pub fn node_id_or(configured: Option<u128>, fresh: u128) -> (r: u128)
    ensures
        r == (match configured {
            Some(id) => id,
            None => fresh,
        }),
{
    match configured {
        Some(id) => id,
        None => fresh,
    }
}

/// The identifier of a node: the one that its configuration gives, or a random one
/// where that is no UUID.
pub fn configured_node_id(configured: &str) -> (r: u128)
    ensures
        match primitives::parsed_uuid(configured@) {
            Some(id) => r == id,
            None => primitives::is_random_uuid(r),
        },
{
    node_id_or(primitives::parse_uuid(configured), primitives::random_uuid())
}

/// The port of a configuration's cluster part, or 0.
pub open spec fn port_of(cluster: Option<ClusterConfig>) -> u16 {
    match cluster {
        Some(c) => c.cluster_grpc_port,
        None => 0,
    }
}

/// The address at which a node that is alone is reached: that of its controller, or
/// the one that it binds, or the loopback one.
pub open spec fn fallback_address(config: NodeConfig) -> Seq<char> {
    if config.cluster is Some && config.cluster->Some_0.controller_endpoint is Some {
        config.cluster->Some_0.controller_endpoint->Some_0@
    } else {
        (match config.bind_address {
            Some(bind) => bind@,
            None => "127.0.0.1"@,
        }) + ":"@ + text::decimal(port_of(config.cluster) as nat)
    }
}

/// What the node that stands for its cluster is: what its configuration says, with the
/// role of a node that is given none. It is active, and was heard of just now.
pub open spec fn stands_for(
    peer: NodePeer,
    config: NodeConfig,
    default_role: NodeRole,
    now: Moment,
) -> bool {
    &&& peer.role == (match config.cluster {
        Some(c) => c.role,
        None => default_role,
    })
    &&& peer.public_key@.len() == 0
    &&& match config.resources {
        Some(n) => peer.capabilities.gpu_count == n.gpu_count && peer.capabilities.vram_gb
            == n.vram_gb && peer.capabilities.cpu_cores == n.cpu_cores
            && peer.capabilities.available_memory_gb == n.memory_gb,
        None => peer.capabilities.gpu_count == 0 && peer.capabilities.vram_gb == 0
            && peer.capabilities.cpu_cores == 0 && peer.capabilities.available_memory_gb == 0,
    }
    &&& peer.capabilities.supported_runtimes@.len() == 0
    &&& text::views(peer.capabilities.tags@) == text::views(config.tags@)
    &&& peer.grpc_address@ == fallback_address(config)
    &&& peer.status == NodePeerStatus::Active
    &&& peer.last_heartbeat_at == now
    &&& peer.registered_at == now
}

/// The node that stands for the cluster where there is no registry of nodes, with
/// its identifier, the role of a node that is given none, and the time.
pub fn fallback_cluster_node(
    config: &NodeConfig,
    node_id: u128,
    default_role: NodeRole,
    now: Moment,
) -> (r: NodePeer)
    ensures
        r.node_id == node_id,
        stands_for(r, *config, default_role, now),
{
    let role = match &config.cluster {
        Some(c) => c.role,
        None => default_role,
    };
    let (gpu_count, vram_gb, cpu_cores, available_memory_gb): (u32, u32, u32, u32) =
        match &config.resources {
        Some(n) => (n.gpu_count, n.vram_gb, n.cpu_cores, n.memory_gb),
        None => (0, 0, 0, 0),
    };
    let endpoint = match &config.cluster {
        Some(c) => c.controller_endpoint.clone(),
        None => None,
    };
    let port: u16 = match &config.cluster {
        Some(c) => c.cluster_grpc_port,
        None => 0,
    };
    let grpc_address = match endpoint {
        Some(e) => e,
        None => {
            let host = match &config.bind_address {
                Some(bind) => bind.clone(),
                None => "127.0.0.1".to_owned(),
            };
            host.concat(":").concat(text::u64_text(port as u64).as_str())
        },
    };
    NodePeer {
        node_id,
        role,
        public_key: Vec::new(),
        capabilities: NodeCapabilities {
            gpu_count,
            vram_gb,
            cpu_cores,
            available_memory_gb,
            supported_runtimes: Vec::new(),
            tags: text::copied(&config.tags),
        },
        grpc_address,
        status: NodePeerStatus::Active,
        last_heartbeat_at: now,
        registered_at: now,
    }
}

/// The node that stands for its cluster, from its configuration alone: under the
/// identifier that the configuration gives, or under a random one.
pub fn own_cluster_node(config: &NodeConfig, default_role: NodeRole, now: Moment) -> (r: NodePeer)
    ensures
        match primitives::parsed_uuid(config.node_id@) {
            Some(id) => r.node_id == id,
            None => primitives::is_random_uuid(r.node_id),
        },
        stands_for(r, *config, default_role, now),
{
    let node_id: u128 = configured_node_id(config.node_id.as_str());
    fallback_cluster_node(config, node_id, default_role, now)
}

/// The peers of several lists, one list after the other. A list that could not be
/// read is missing.
pub open spec fn joined(lists: Seq<Option<Vec<NodePeer>>>) -> Seq<NodePeer>
    decreases lists.len(),
{
    if lists.len() == 0 {
        Seq::empty()
    } else {
        joined(lists.drop_last()) + (match lists.last() {
            Some(peers) => peers@,
            None => Seq::empty(),
        })
    }
}

/// Whether a peer with the given identifier is there.
pub open spec fn has_id(peers: Seq<NodePeer>, id: u128) -> bool {
    exists|i: int| 0 <= i < peers.len() && (#[trigger] peers[i]).node_id == id
}

/// The peers without those whose identifier stood before them.
pub open spec fn distinct(peers: Seq<NodePeer>) -> Seq<NodePeer>
    decreases peers.len(),
{
    if peers.len() == 0 {
        Seq::empty()
    } else {
        let before = distinct(peers.drop_last());
        if has_id(peers.drop_last(), peers.last().node_id) {
            before
        } else {
            before.push(peers.last())
        }
    }
}

/// What is shown of peers.
pub open spec fn shown_nodes(peers: Seq<NodePeer>) -> Seq<ClusterNodeModel> {
    peers.map_values(|p: NodePeer| p.shown())
}

/// The views of what is shown of nodes.
pub open spec fn node_models(nodes: Seq<ClusterNodeView>) -> Seq<ClusterNodeModel> {
    nodes.map_values(|n: ClusterNodeView| n@)
}

fn note_peer(peers: &Vec<NodePeer>, upto: usize, id: u128) -> (r: bool)
    requires
        upto <= peers@.len(),
    ensures
        r == has_id(peers@.take(upto as int), id),
{
    let mut i: usize = 0;
    while i < upto
        invariant
            i <= upto <= peers@.len(),
            forall|k: int| 0 <= k < i ==> (#[trigger] peers@[k]).node_id != id,
        decreases upto - i,
    {
        if peers[i].node_id == id {
            assert(peers@.take(upto as int)[i as int].node_id == id);
            return true;
        }
        i += 1;
    }
    assert forall|k: int| 0 <= k < upto implies (#[trigger] peers@.take(
        upto as int,
    )[k]).node_id != id by {
        assert(peers@.take(upto as int)[k] == peers@[k]);
    }
    false
}

/// The nodes of a registry: those of each list in turn, each node once.
pub fn registered_nodes(lists: Vec<Option<Vec<NodePeer>>>) -> (r: Vec<ClusterNodeView>)
    ensures
        node_models(r@) == shown_nodes(distinct(joined(lists@))),
{
    let ghost all = lists@;
    let mut lists = lists;
    let mut peers: Vec<NodePeer> = Vec::new();
    let mut from_end: Vec<Option<Vec<NodePeer>>> = Vec::new();
    while lists.len() > 0
        invariant
            all =~= lists@ + from_end@.reverse(),
        decreases lists@.len(),
    {
        let ghost before = lists@;
        if let Some(last) = lists.pop() {
            from_end.push(last);
            assert(before =~= lists@.push(last));
        }
    }
    assert(all =~= from_end@.reverse());
    let ghost mut taken: int = 0;
    assert(all.take(0) =~= Seq::empty());
    while from_end.len() > 0
        invariant
            0 <= taken <= all.len(),
            all.skip(taken) =~= from_end@.reverse(),
            peers@ == joined(all.take(taken)),
        decreases from_end@.len(),
    {
        let ghost rest = from_end@;
        if let Some(list) = from_end.pop() {
            assert(all.skip(taken).len() == rest.reverse().len());
            assert(rest.reverse()[0] == rest.last());
            assert(all.skip(taken)[0] == list);
            assert(all.take(taken + 1).drop_last() =~= all.take(taken));
            assert(all.take(taken + 1).last() == list);
            assert(from_end@.reverse() =~= rest.reverse().skip(1));
            assert(all.skip(taken).skip(1) =~= all.skip(taken + 1));
            if let Some(mut items) = list {
                peers.append(&mut items);
            }
            proof {
                taken = taken + 1;
            }
        }
    }
    assert(all.take(taken) =~= all);
    let mut nodes: Vec<ClusterNodeView> = Vec::new();
    let mut i: usize = 0;
    while i < peers.len()
        invariant
            i <= peers@.len(),
            node_models(nodes@) == shown_nodes(distinct(peers@.take(i as int))),
        decreases peers@.len() - i,
    {
        assert(peers@.take(i + 1).drop_last() =~= peers@.take(i as int));
        assert(peers@.take(i + 1).last() == peers@[i as int]);
        if !note_peer(&peers, i, peers[i].node_id) {
            let ghost old_nodes = nodes@;
            nodes.push(cluster_node_view(&peers[i]));
            assert(node_models(nodes@) =~= node_models(old_nodes).push(peers@[i as int].shown()));
            assert(shown_nodes(distinct(peers@.take(i + 1))) =~= shown_nodes(
                distinct(peers@.take(i as int)),
            ).push(peers@[i as int].shown()));
        }
        i += 1;
    }
    assert(peers@.take(peers@.len() as int) =~= peers@);
    nodes
}

/// The nodes of a cluster: those of the registry where there is one, else the node
/// that stands for the cluster.
pub fn load_cluster_nodes(registry: Option<Vec<Option<Vec<NodePeer>>>>, fallback: &NodePeer) -> (r:
    Vec<ClusterNodeView>)
    ensures
        node_models(r@) == (match registry {
            Some(lists) => shown_nodes(distinct(joined(lists@))),
            None => seq![fallback.shown()],
        }),
{
    match registry {
        Some(lists) => registered_nodes(lists),
        None => {
            let mut nodes: Vec<ClusterNodeView> = Vec::new();
            nodes.push(cluster_node_view(fallback));
            assert(node_models(nodes@) =~= seq![fallback.shown()]);
            nodes
        },
    }
}

/// What is shown of a cluster.
pub struct ClusterStatusView {
    pub source: String,
    pub controller_node_id: Option<String>,
    pub total_nodes: usize,
    pub active_nodes: usize,
    pub draining_nodes: usize,
    pub unhealthy_nodes: usize,
    pub cluster_health: String,
    pub nodes: Vec<ClusterNodeView>,
}

/// The number of nodes that are shown with a status.
pub open spec fn count_with_status(nodes: Seq<ClusterNodeModel>, status: Seq<char>) -> nat {
    nodes.filter(|n: ClusterNodeModel| n.status == status).len()
}

/// The number of nodes that are shown with a status.
pub fn count_status(nodes: &Vec<ClusterNodeView>, status: &str) -> (r: usize)
    ensures
        r == count_with_status(node_models(nodes@), status@),
{
    let ghost models = node_models(nodes@);
    let ghost wanted = |n: ClusterNodeModel| n.status == status@;
    let mut count: usize = 0;
    let mut i: usize = 0;
    assert(models.take(0) =~= Seq::empty());
    assert(models.take(0).filter(wanted).len() == 0) by {
        reveal(Seq::filter);
    }
    while i < nodes.len()
        invariant
            i <= nodes@.len(),
            count <= i,
            models == node_models(nodes@),
            wanted == (|n: ClusterNodeModel| n.status == status@),
            count == models.take(i as int).filter(wanted).len(),
        decreases nodes@.len() - i,
    {
        assert(models.take(i + 1).drop_last() =~= models.take(i as int));
        assert(models.take(i + 1).last() == nodes@[i as int]@);
        proof {
            reveal(Seq::filter);
        }
        if text::str_eq(nodes[i].status.as_str(), status) {
            count += 1;
        }
        i += 1;
    }
    assert(models.take(models.len() as int) =~= models);
    count
}

/// The numbers of nodes by which the health of a cluster is judged.
#[derive(Clone, Copy, PartialEq, Eq, Structural, Debug)]
pub struct HealthCounts {
    pub active: usize,
    pub draining: usize,
    pub unhealthy: usize,
}

/// The numbers of nodes by which the health of a cluster is judged.
pub fn health_counts(nodes: &Vec<ClusterNodeView>) -> (r: HealthCounts)
    ensures
        r.active == count_with_status(node_models(nodes@), "active"@),
        r.draining == count_with_status(node_models(nodes@), "draining"@),
        r.unhealthy == count_with_status(node_models(nodes@), "unhealthy"@),
{
    HealthCounts {
        active: count_status(nodes, "active"),
        draining: count_status(nodes, "draining"),
        unhealthy: count_status(nodes, "unhealthy"),
    }
}

/// The identifier of the first node that is shown as the controller, or else of the
/// first node.
pub open spec fn controller_of(nodes: Seq<ClusterNodeModel>) -> Option<Seq<char>> {
    match first_controller(nodes) {
        Some(id) => Some(id),
        None => if nodes.len() > 0 {
            Some(nodes[0].node_id)
        } else {
            None
        },
    }
}

/// The identifier of the first node that is shown as the controller.
pub open spec fn first_controller(nodes: Seq<ClusterNodeModel>) -> Option<Seq<char>>
    decreases nodes.len(),
{
    if nodes.len() == 0 {
        None
    } else if nodes[0].role == "controller"@ {
        Some(nodes[0].node_id)
    } else {
        first_controller(nodes.skip(1))
    }
}

fn find_controller(nodes: &Vec<ClusterNodeView>) -> (r: Option<String>)
    ensures
        text::opt_view(r) == controller_of(node_models(nodes@)),
{
    let ghost models = node_models(nodes@);
    let mut i: usize = 0;
    assert(models.skip(0) =~= models);
    while i < nodes.len()
        invariant
            i <= nodes@.len(),
            models == node_models(nodes@),
            first_controller(models) == first_controller(models.skip(i as int)),
        decreases nodes@.len() - i,
    {
        assert(models.skip(i as int)[0] == nodes@[i as int]@);
        assert(models.skip(i as int).skip(1) =~= models.skip(i + 1));
        if text::str_eq(nodes[i].role.as_str(), "controller") {
            return Some(nodes[i].node_id.clone());
        }
        i += 1;
    }
    if nodes.len() > 0 {
        assert(models[0] == nodes@[0]@);
        Some(nodes[0].node_id.clone())
    } else {
        None
    }
}

/// Where the nodes that are shown come from.
pub open spec fn source_name(has_registry: bool) -> Seq<char> {
    if has_registry {
        "cluster_repository"@
    } else {
        "local_fallback"@
    }
}

/// Where the nodes that are shown come from.
pub fn cluster_source(has_registry: bool) -> (r: &'static str)
    ensures
        r@ == source_name(has_registry),
{
    if has_registry {
        "cluster_repository"
    } else {
        "local_fallback"
    }
}

/// What is shown of a cluster, given the word for its health: the one that the numbers
/// of `health_counts` give.
pub fn cluster_status_view(nodes: Vec<ClusterNodeView>, has_registry: bool, health: String) -> (r:
    ClusterStatusView)
    ensures
        r.source@ == source_name(has_registry),
        text::opt_view(r.controller_node_id) == controller_of(node_models(nodes@)),
        r.total_nodes == nodes@.len(),
        r.active_nodes == count_with_status(node_models(nodes@), "active"@),
        r.draining_nodes == count_with_status(node_models(nodes@), "draining"@),
        r.unhealthy_nodes == count_with_status(node_models(nodes@), "unhealthy"@),
        r.cluster_health == health,
        r.nodes == nodes,
{
    let counts = health_counts(&nodes);
    ClusterStatusView {
        source: cluster_source(has_registry).to_owned(),
        controller_node_id: find_controller(&nodes),
        total_nodes: nodes.len(),
        active_nodes: counts.active,
        draining_nodes: counts.draining,
        unhealthy_nodes: counts.unhealthy,
        cluster_health: health,
        nodes,
    }
}

/// Every node that a registry lists is shown once, and no other.
pub proof fn law_nodes_are_shown_once(peers: Seq<NodePeer>)
    ensures
        forall|i: int, j: int|
            0 <= i < j < distinct(peers).len() ==> (#[trigger] distinct(peers)[i]).node_id != (
            #[trigger] distinct(peers)[j]).node_id,
        forall|id: u128| has_id(distinct(peers), id) == has_id(peers, id),
    decreases peers.len(),
{
    if peers.len() > 0 {
        let front = peers.drop_last();
        law_nodes_are_shown_once(front);
        let before = distinct(front);
        let all = distinct(peers);
        assert forall|id: u128| has_id(all, id) == has_id(peers, id) by {
            if has_id(peers, id) {
                let k = choose|k: int| 0 <= k < peers.len() && (#[trigger] peers[k]).node_id == id;
                if k < front.len() {
                    assert(front[k].node_id == id);
                    assert(has_id(front, id));
                    let m = choose|m: int|
                        0 <= m < before.len() && (#[trigger] before[m]).node_id == id;
                    assert(all[m] == before[m]);
                } else if has_id(front, id) {
                    let m = choose|m: int|
                        0 <= m < before.len() && (#[trigger] before[m]).node_id == id;
                    assert(all[m] == before[m]);
                } else {
                    assert(all[all.len() - 1] == peers.last());
                }
            }
            if has_id(all, id) {
                let m = choose|m: int| 0 <= m < all.len() && (#[trigger] all[m]).node_id == id;
                if m < before.len() {
                    assert(before[m] == all[m]);
                    assert(has_id(front, id));
                    let k = choose|k: int|
                        0 <= k < front.len() && (#[trigger] front[k]).node_id == id;
                    assert(peers[k] == front[k]);
                } else {
                    assert(peers[peers.len() - 1] == peers.last());
                }
            }
        }
        if !has_id(front, peers.last().node_id) {
            assert forall|i: int, j: int| 0 <= i < j < all.len() implies (
            #[trigger] all[i]).node_id != (#[trigger] all[j]).node_id by {
                assert(all[i] == before[i]);
                if j < before.len() {
                    assert(all[j] == before[j]);
                } else {
                    if before[i].node_id == peers.last().node_id {
                        assert(has_id(before, peers.last().node_id));
                    }
                }
            }
        }
    }
}

impl ClusterNodeModel {
    /// The JSON in which a node is shown.
    pub open spec fn rendered(self) -> JsonView {
        JsonView::object().with(
            "node_id"@,
            JsonView::Str(self.node_id),
        ).with(
            "role"@,
            JsonView::Str(self.role),
        ).with(
            "status"@,
            JsonView::Str(self.status),
        ).with(
            "grpc_address"@,
            JsonView::Str(self.grpc_address),
        ).with(
            "gpu_count"@,
            JsonView::Int(self.gpu_count as int),
        ).with(
            "vram_gb"@,
            JsonView::Int(self.vram_gb as int),
        ).with(
            "cpu_cores"@,
            JsonView::Int(self.cpu_cores as int),
        ).with(
            "available_memory_gb"@,
            JsonView::Int(self.available_memory_gb as int),
        ).with(
            "supported_runtimes"@,
            JsonView::texts(self.supported_runtimes),
        ).with(
            "tags"@,
            JsonView::texts(self.tags),
        ).with(
            "last_heartbeat_at"@,
            operator_read_models::moment_shown(self.last_heartbeat_at),
        ).with(
            "registered_at"@,
            operator_read_models::moment_shown(self.registered_at),
        )
    }
}

impl ClusterNodeView {
    /// The JSON in which a node is shown.
    pub fn render(&self) -> (r: Json)
        ensures
            r@ == self@.rendered(),
    {
        Json::object().with(
            "node_id",
            Json::text(self.node_id.as_str()),
        ).with(
            "role",
            Json::text(self.role.as_str()),
        ).with(
            "status",
            Json::text(self.status.as_str()),
        ).with(
            "grpc_address",
            Json::text(self.grpc_address.as_str()),
        ).with(
            "gpu_count",
            Json::Int(self.gpu_count as i128),
        ).with(
            "vram_gb",
            Json::Int(self.vram_gb as i128),
        ).with(
            "cpu_cores",
            Json::Int(self.cpu_cores as i128),
        ).with(
            "available_memory_gb",
            Json::Int(self.available_memory_gb as i128),
        ).with(
            "supported_runtimes",
            Json::texts(&self.supported_runtimes),
        ).with(
            "tags",
            Json::texts(&self.tags),
        ).with(
            "last_heartbeat_at",
            operator_read_models::show_moment(self.last_heartbeat_at),
        ).with(
            "registered_at",
            operator_read_models::show_moment(self.registered_at),
        )
    }
}

/// The JSON in which nodes are shown.
pub open spec fn rendered_nodes(nodes: Seq<ClusterNodeView>) -> Seq<JsonView> {
    nodes.map_values(|n: ClusterNodeView| n@.rendered())
}

/// The JSON in which nodes are shown.
pub fn render_nodes(nodes: &Vec<ClusterNodeView>) -> (r: Vec<Json>)
    ensures
        json::json_views(r@) == rendered_nodes(nodes@),
{
    let mut out: Vec<Json> = Vec::new();
    for i in 0..nodes.len()
        invariant
            out@.len() == i,
            forall|j: int| 0 <= j < i ==> #[trigger] out@[j]@ == nodes@[j]@.rendered(),
    {
        out.push(nodes[i].render());
    }
    assert(json::json_views(out@) =~= rendered_nodes(nodes@));
    out
}

impl ClusterStatusView {
    /// The JSON in which a cluster is shown.
    pub open spec fn rendered(self) -> JsonView {
        JsonView::object().with(
            "source"@,
            JsonView::Str(self.source@),
        ).with(
            "controller_node_id"@,
            JsonView::opt_text(text::opt_view(self.controller_node_id)),
        ).with(
            "total_nodes"@,
            JsonView::Int(self.total_nodes as int),
        ).with(
            "active_nodes"@,
            JsonView::Int(self.active_nodes as int),
        ).with(
            "draining_nodes"@,
            JsonView::Int(self.draining_nodes as int),
        ).with(
            "unhealthy_nodes"@,
            JsonView::Int(self.unhealthy_nodes as int),
        ).with(
            "cluster_health"@,
            JsonView::Str(self.cluster_health@),
        ).with(
            "nodes"@,
            JsonView::Arr(rendered_nodes(self.nodes@)),
        )
    }

    /// The JSON in which a cluster is shown.
    pub fn render(&self) -> (r: Json)
        ensures
            r@ == self.rendered(),
    {
        Json::object().with(
            "source",
            Json::text(self.source.as_str()),
        ).with(
            "controller_node_id",
            Json::opt_text(&self.controller_node_id),
        ).with(
            "total_nodes",
            Json::Int(self.total_nodes as i128),
        ).with(
            "active_nodes",
            Json::Int(self.active_nodes as i128),
        ).with(
            "draining_nodes",
            Json::Int(self.draining_nodes as i128),
        ).with(
            "unhealthy_nodes",
            Json::Int(self.unhealthy_nodes as i128),
        ).with(
            "cluster_health",
            Json::text(self.cluster_health.as_str()),
        ).with(
            "nodes",
            Json::array(render_nodes(&self.nodes)),
        )
    }
}

/// The JSON in which a node is shown: each part is found under its own name, as it is.
pub proof fn law_cluster_node_model_rendered_holds_its_parts(
    row: ClusterNodeModel,
)
    ensures
        row.rendered().get("node_id"@) == Some(JsonView::Str(row.node_id)),
        row.rendered().get("role"@) == Some(JsonView::Str(row.role)),
        row.rendered().get("status"@) == Some(JsonView::Str(row.status)),
        row.rendered().get("grpc_address"@) == Some(JsonView::Str(row.grpc_address)),
        row.rendered().get("gpu_count"@) == Some(JsonView::Int(row.gpu_count as int)),
        row.rendered().get("vram_gb"@) == Some(JsonView::Int(row.vram_gb as int)),
        row.rendered().get("cpu_cores"@) == Some(JsonView::Int(row.cpu_cores as int)),
        row.rendered().get("available_memory_gb"@) == Some(JsonView::Int(row.available_memory_gb as int)),
        row.rendered().get("supported_runtimes"@) == Some(JsonView::texts(row.supported_runtimes)),
        row.rendered().get("tags"@) == Some(JsonView::texts(row.tags)),
        row.rendered().get("last_heartbeat_at"@) == Some(operator_read_models::moment_shown(row.last_heartbeat_at)),
        row.rendered().get("registered_at"@) == Some(operator_read_models::moment_shown(row.registered_at)),
{
    broadcast use crate::json::lemma_get_with;

    reveal_strlit("node_id");
    reveal_strlit("role");
    reveal_strlit("status");
    reveal_strlit("grpc_address");
    reveal_strlit("gpu_count");
    reveal_strlit("vram_gb");
    reveal_strlit("cpu_cores");
    reveal_strlit("available_memory_gb");
    reveal_strlit("supported_runtimes");
    reveal_strlit("tags");
    reveal_strlit("last_heartbeat_at");
    reveal_strlit("registered_at");
    assert("node_id"@.len() == 7 && "role"@.len() == 4 && "status"@.len() == 6 && "grpc_address"@.len() == 12 && "gpu_count"@.len() == 9 && "vram_gb"@.len() == 7 && "cpu_cores"@.len() == 9 && "available_memory_gb"@.len() == 19 && "supported_runtimes"@.len() == 18 && "tags"@.len() == 4 && "last_heartbeat_at"@.len() == 17 && "registered_at"@.len() == 13 && "vram_gb"@[0] == 'v' && "node_id"@[0] == 'n' && "cpu_cores"@[0] == 'c' && "gpu_count"@[0] == 'g' && "tags"@[0] == 't' && "role"@[0] == 'r');
}

/// The JSON in which a cluster is shown: each part is found under its own name, as it
/// is.
pub proof fn law_cluster_status_view_rendered_holds_its_parts(
    row: ClusterStatusView,
)
    ensures
        row.rendered().get("source"@) == Some(JsonView::Str(row.source@)),
        row.rendered().get("controller_node_id"@) == Some(JsonView::opt_text(text::opt_view(row.controller_node_id))),
        row.rendered().get("total_nodes"@) == Some(JsonView::Int(row.total_nodes as int)),
        row.rendered().get("active_nodes"@) == Some(JsonView::Int(row.active_nodes as int)),
        row.rendered().get("draining_nodes"@) == Some(JsonView::Int(row.draining_nodes as int)),
        row.rendered().get("unhealthy_nodes"@) == Some(JsonView::Int(row.unhealthy_nodes as int)),
        row.rendered().get("cluster_health"@) == Some(JsonView::Str(row.cluster_health@)),
        row.rendered().get("nodes"@) == Some(JsonView::Arr(rendered_nodes(row.nodes@))),
{
    broadcast use crate::json::lemma_get_with;

    reveal_strlit("source");
    reveal_strlit("controller_node_id");
    reveal_strlit("total_nodes");
    reveal_strlit("active_nodes");
    reveal_strlit("draining_nodes");
    reveal_strlit("unhealthy_nodes");
    reveal_strlit("cluster_health");
    reveal_strlit("nodes");
    assert("source"@.len() == 6 && "controller_node_id"@.len() == 18 && "total_nodes"@.len() == 11 && "active_nodes"@.len() == 12 && "draining_nodes"@.len() == 14 && "unhealthy_nodes"@.len() == 15 && "cluster_health"@.len() == 14 && "nodes"@.len() == 5 && "cluster_health"@[0] == 'c' && "draining_nodes"@[0] == 'd');
}

/// Roles and statuses go by their names, each by one of its own.
pub proof fn law_roles_and_statuses_go_by_their_names(role: NodeRole, status: NodePeerStatus)
    ensures
        role_name(role) == "controller"@ <==> role == NodeRole::Controller,
        role_name(role) == "worker"@ <==> role == NodeRole::Worker,
        role_name(role) == "hybrid"@ <==> role == NodeRole::Hybrid,
        role_name(role) == "relaycoordinator"@ <==> role == NodeRole::RelayCoordinator,
        status_name(status) == "active"@ <==> status == NodePeerStatus::Active,
        status_name(status) == "draining"@ <==> status == NodePeerStatus::Draining,
        status_name(status) == "unhealthy"@ <==> status == NodePeerStatus::Unhealthy,
{
    reveal_strlit("controller");
    reveal_strlit("worker");
    reveal_strlit("hybrid");
    reveal_strlit("relaycoordinator");
    reveal_strlit("active");
    reveal_strlit("draining");
    reveal_strlit("unhealthy");
    assert("controller"@.len() == 10 && "worker"@.len() == 6 && "hybrid"@.len() == 6 && "relaycoordinator"@.len() == 16 && "active"@.len() == 6 && "draining"@.len() == 8 && "unhealthy"@.len() == 9 && "hybrid"@[0] == 'h' && "worker"@[0] == 'w' && "active"@[0] == 'a');
}

/// A node is shown as what it is: with its own identifier, role, status, address,
/// capabilities and times; and a list shows one entry for each node, in their order.
pub proof fn law_nodes_are_shown_as_they_are(peers: Seq<NodePeer>, i: int)
    requires
        0 <= i < peers.len(),
    ensures
        shown_nodes(peers).len() == peers.len(),
        shown_nodes(peers)[i].node_id == primitives::uuid_chars(peers[i].node_id),
        shown_nodes(peers)[i].role == role_name(peers[i].role),
        shown_nodes(peers)[i].status == status_name(peers[i].status),
        shown_nodes(peers)[i].grpc_address == peers[i].grpc_address@,
        shown_nodes(peers)[i].gpu_count == peers[i].capabilities.gpu_count,
        shown_nodes(peers)[i].vram_gb == peers[i].capabilities.vram_gb,
        shown_nodes(peers)[i].cpu_cores == peers[i].capabilities.cpu_cores,
        shown_nodes(peers)[i].available_memory_gb == peers[i].capabilities.available_memory_gb,
        shown_nodes(peers)[i].supported_runtimes == text::views(
            peers[i].capabilities.supported_runtimes@,
        ),
        shown_nodes(peers)[i].tags == text::views(peers[i].capabilities.tags@),
        shown_nodes(peers)[i].last_heartbeat_at == peers[i].last_heartbeat_at,
        shown_nodes(peers)[i].registered_at == peers[i].registered_at,
{
}

/// Every node of every list that was found is among those that are gathered.
pub proof fn law_all_lists_are_gathered(lists: Seq<Option<Vec<NodePeer>>>, i: int, k: int)
    requires
        0 <= i < lists.len(),
        lists[i] is Some,
        0 <= k < lists[i]->Some_0@.len(),
    ensures
        joined(lists).contains(lists[i]->Some_0@[k]),
    decreases lists.len(),
{
    let before = joined(lists.drop_last());
    let wanted = lists[i]->Some_0@[k];
    if i < lists.len() - 1 {
        assert(lists.drop_last()[i] == lists[i]);
        law_all_lists_are_gathered(lists.drop_last(), i, k);
        let m = choose|m: int| 0 <= m < before.len() && before[m] == wanted;
        assert(joined(lists)[m] == wanted);
    } else {
        assert(joined(lists)[before.len() + k] == wanted);
    }
}

/// Of the nodes with one identifier the first one is shown, and every identifier is.
pub proof fn law_every_node_is_shown(peers: Seq<NodePeer>, i: int)
    requires
        0 <= i < peers.len(),
        forall|j: int| 0 <= j < i ==> (#[trigger] peers[j]).node_id != peers[i].node_id,
    ensures
        distinct(peers).contains(peers[i]),
    decreases peers.len(),
{
    let before = distinct(peers.drop_last());
    if i < peers.len() - 1 {
        assert(peers.drop_last()[i] == peers[i]);
        assert forall|j: int| 0 <= j < i implies (#[trigger] peers.drop_last()[j]).node_id
            != peers.drop_last()[i].node_id by {
            assert(peers.drop_last()[j] == peers[j]);
        }
        law_every_node_is_shown(peers.drop_last(), i);
        let m = choose|m: int| 0 <= m < before.len() && before[m] == peers[i];
        assert(distinct(peers)[m] == peers[i]);
    } else {
        if has_id(peers.drop_last(), peers.last().node_id) {
            let j = choose|j: int|
                0 <= j < peers.drop_last().len() && (#[trigger] peers.drop_last()[j]).node_id
                    == peers.last().node_id;
            assert(peers[j].node_id == peers[i].node_id);
        }
        assert(distinct(peers)[before.len() as int] == peers[i]);
    }
}

/// One node more of a status makes that status one more, and no other.
pub proof fn law_nodes_are_counted_by_status(
    nodes: Seq<ClusterNodeModel>,
    node: ClusterNodeModel,
    status: Seq<char>,
)
    ensures
        count_with_status(Seq::empty(), status) == 0,
        count_with_status(nodes.push(node), status) == count_with_status(nodes, status) + (
        if node.status == status {
            1int
        } else {
            0
        }),
{
    reveal(Seq::filter);
    assert(nodes.push(node).drop_last() =~= nodes);
}

/// The controller of a cluster is its first node in that role, or its first node where none
/// is; an empty cluster has none.
pub proof fn law_the_first_controller_controls(nodes: Seq<ClusterNodeModel>, at: int)
    requires
        0 <= at <= nodes.len(),
        forall|j: int| 0 <= j < at ==> (#[trigger] nodes[j]).role != "controller"@,
        at < nodes.len() ==> nodes[at].role == "controller"@,
    ensures
        first_controller(nodes) == (if at < nodes.len() {
            Some(nodes[at].node_id)
        } else {
            None
        }),
        at < nodes.len() ==> controller_of(nodes) == Some(nodes[at].node_id),
        at == nodes.len() > 0 ==> controller_of(nodes) == Some(nodes[0].node_id),
        nodes.len() == 0 ==> controller_of(nodes) is None,
    decreases nodes.len(),
{
    if at > 0 {
        assert(nodes[0].role != "controller"@);
        let rest = nodes.skip(1);
        assert forall|j: int| 0 <= j < at - 1 implies (#[trigger] rest[j]).role
            != "controller"@ by {
            assert(rest[j] == nodes[j + 1]);
        }
        law_the_first_controller_controls(rest, at - 1);
    }
}

/// A node that stands alone is reached where its controller is, or else where it listens
/// itself, by default on the local address.
pub proof fn law_a_lone_node_is_reached_where_it_listens(
    config: NodeConfig,
    cluster: ClusterConfig,
    endpoint: String,
    bind: String,
)
    ensures
        config.cluster == Some(cluster) && cluster.controller_endpoint == Some(endpoint)
            ==> fallback_address(config) == endpoint@,
        config.cluster == Some(cluster) && cluster.controller_endpoint is None && config.bind_address
            == Some(bind) ==> fallback_address(config) == bind@ + ":"@ + text::decimal(
            cluster.cluster_grpc_port as nat,
        ),
        config.cluster is None && config.bind_address is None ==> fallback_address(config)
            == "127.0.0.1"@ + ":"@ + text::decimal(0),
        source_name(true) == "cluster_repository"@ && source_name(false) == "local_fallback"@,
{
}

/// A node without a cluster stands for itself: in the role of its configuration, with its
/// resources and tags, active, and heard of now.
pub proof fn law_a_lone_node_stands_for_itself(
    peer: NodePeer,
    config: NodeConfig,
    default_role: NodeRole,
    now: Moment,
)
    requires
        stands_for(peer, config, default_role, now),
    ensures
        config.cluster matches Some(c) ==> peer.role == c.role,
        config.cluster is None ==> peer.role == default_role,
        config.resources matches Some(n) ==> peer.capabilities.gpu_count == n.gpu_count
            && peer.capabilities.vram_gb == n.vram_gb && peer.capabilities.cpu_cores == n.cpu_cores
            && peer.capabilities.available_memory_gb == n.memory_gb,
        config.resources is None ==> peer.capabilities.gpu_count == 0
            && peer.capabilities.cpu_cores == 0 && peer.capabilities.vram_gb == 0
            && peer.capabilities.available_memory_gb == 0,
        text::views(peer.capabilities.tags@) == text::views(config.tags@),
        peer.grpc_address@ == fallback_address(config),
        peer.status == NodePeerStatus::Active,
        peer.last_heartbeat_at == now,
        peer.registered_at == now,
{
}

} // verus!
