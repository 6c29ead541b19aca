//! The node registry of a local cluster: registered nodes by name and
//! index, their clients and peer ports, which nodes are stopped or
//! restarting, and the decisions built on it (new node names, restart
//! option checks, readiness targets, the network readiness wait). Spawning,
//! stopping and probing processes is the caller's part.

use vstd::prelude::*;

use crate::k8s::manual::{canonical_node_name, node_name};
use crate::named_map::NamedMap;
use crate::scenario::StartNodeOptions;
use crate::text::{
    decimal, is_whitespace, owned, starts_with, strip_prefix, trim, trim_end, trim_start, trim_str, u64_to_decimal, views,
};

verus! {

/// Failures of the local node manager.
#[derive(Debug, PartialEq, Eq)]
pub enum NodeManagerError {
    /// Building a node's configuration failed.
    Config { source: String },
    /// Spawning a node failed.
    Spawn { source: String },
    /// An argument is invalid.
    InvalidArgument { message: String },
    /// No free port could be allocated.
    PortAllocation { message: String },
    /// Patching a node's configuration failed.
    ConfigPatch { message: String },
    /// No node has this name.
    NodeName { name: String },
    /// Restarting a node failed.
    Restart { source: String },
    /// A readiness check failed.
    Readiness { source: String },
}

impl NodeManagerError {
    /// The human-readable message of the error.
    pub open spec fn message_view(&self) -> Seq<char> {
        match self {
            NodeManagerError::Config { source } => "failed to generate node config: "@ + source@,
            NodeManagerError::Spawn { source } => "failed to spawn node: "@ + source@,
            NodeManagerError::InvalidArgument { message } => message@,
            NodeManagerError::PortAllocation { message } => message@,
            NodeManagerError::ConfigPatch { message } => "node config patch failed: "@ + message@,
            NodeManagerError::NodeName { name } => "node name '"@ + name@ + "' is unknown"@,
            NodeManagerError::Restart { source } => "failed to restart node: "@ + source@,
            NodeManagerError::Readiness { source } => "failed readiness check: "@ + source@,
        }
    }

    /// The human-readable message of the error.
    pub fn message(&self) -> (r: String)
        ensures
            r@ == self.message_view(),
    {
        match self {
            NodeManagerError::Config { source } => {
                let mut r = owned("failed to generate node config: ");
                r.append(source.as_str());
                r
            },
            NodeManagerError::Spawn { source } => {
                let mut r = owned("failed to spawn node: ");
                r.append(source.as_str());
                r
            },
            NodeManagerError::InvalidArgument { message } => message.clone(),
            NodeManagerError::PortAllocation { message } => message.clone(),
            NodeManagerError::ConfigPatch { message } => {
                let mut r = owned("node config patch failed: ");
                r.append(message.as_str());
                r
            },
            NodeManagerError::NodeName { name } => {
                let mut r = owned("node name '");
                r.append(name.as_str());
                r.append("' is unknown");
                r
            },
            NodeManagerError::Restart { source } => {
                let mut r = owned("failed to restart node: ");
                r.append(source.as_str());
                r
            },
            NodeManagerError::Readiness { source } => {
                let mut r = owned("failed readiness check: ");
                r.append(source.as_str());
                r
            },
        }
    }
}

/// The name a start request gives a node: the default `node-<index>` for a
/// blank request, the request itself when it starts with `node-`, and
/// `node-<request>` otherwise.
pub open spec fn normalized_node_name(index: nat, requested: Seq<char>) -> Seq<char> {
    if trim(requested).len() == 0 {
        node_name(index)
    } else if strip_prefix(requested, "node-"@) is Some {
        requested
    } else {
        "node-"@ + requested
    }
}

/// A sequence whose first character is not white space keeps a character
/// after trailing white space is removed.
proof fn lemma_trim_end_nonempty(s: Seq<char>)
    requires
        s.len() > 0,
        !is_whitespace(s[0]),
    ensures
        trim_end(s).len() > 0,
    decreases s.len(),
{
    if is_whitespace(s.last()) {
        lemma_trim_end_nonempty(s.drop_last());
    }
}

/// Normalizing a node name twice gives the once-normalized name: every
/// normalized name starts with `node-`.
pub proof fn lemma_normalize_idempotent(index: nat, requested: Seq<char>)
    ensures
        normalized_node_name(index, normalized_node_name(index, requested)) == normalized_node_name(index, requested),
{
    let n = normalized_node_name(index, requested);
    reveal_strlit("node-");
    if trim(requested).len() == 0 {
        assert(n.take(5) =~= "node-"@);
    } else if strip_prefix(requested, "node-"@) is Some {
        assert(n.take(5) =~= "node-"@);
    } else {
        assert(n.take(5) =~= "node-"@);
    }
    assert(n[0] == n.take(5)[0]);
    assert(!is_whitespace(n[0]));
    assert(trim_start(n) == n);
    lemma_trim_end_nonempty(n);
    assert(strip_prefix(n, "node-"@) is Some);
}

/// The default label of node `index`: `node-<index>`.
pub fn default_node_label(index: usize) -> (r: String)
    ensures
        r@ == node_name(index as nat),
{
    canonical_node_name(index)
}

/// Normalizes a requested node name.
pub fn normalize_node_name(index: usize, requested_name: &str) -> (r: String)
    ensures
        r@ == normalized_node_name(index as nat, requested_name@),
{
    if trim_str(requested_name).as_str().unicode_len() == 0 {
        return default_node_label(index);
    }
    if starts_with(requested_name, "node-") {
        return owned(requested_name);
    }
    let mut r = owned("node-");
    r.append(requested_name);
    r
}

/// The message of a restart option the local backend cannot honor.
pub open spec fn restart_override_message(field: Seq<char>) -> Seq<char> {
    "restart_node_with does not support "@ + field + " overrides"@
}

/// The error of a restart option the local backend cannot honor.
pub fn unsupported_restart_override(field: &str) -> (r: NodeManagerError)
    ensures
        r matches NodeManagerError::InvalidArgument { message } && message@ == restart_override_message(field@),
{
    let mut message = owned("restart_node_with does not support ");
    message.append(field);
    message.append(" overrides");
    NodeManagerError::InvalidArgument { message }
}

/// The field of the first restart option the local backend cannot honor:
/// a restarted process keeps its configuration and directories.
pub open spec fn unsupported_restart_field(options: StartNodeOptions) -> Option<Seq<char>> {
    if options.peers is Some {
        Some("peer selection"@)
    } else if options.config_override is Some {
        Some("config override"@)
    } else if options.has_config_patch {
        Some("config patch"@)
    } else if options.persist_dir is Some {
        Some("persist dir"@)
    } else if options.snapshot_dir is Some {
        Some("snapshot dir"@)
    } else {
        None
    }
}

/// Rejects restart options the local backend cannot honor.
pub fn validate_restart_options(options: &StartNodeOptions) -> (r: Result<(), NodeManagerError>)
    ensures
        unsupported_restart_field(*options) is None ==> r is Ok,
        unsupported_restart_field(*options) matches Some(f) ==> (r matches Err(
            NodeManagerError::InvalidArgument { message },
        ) && message@ == restart_override_message(f)),
{
    if options.peers.is_some() {
        return Err(unsupported_restart_override("peer selection"));
    }
    if options.config_override.is_some() {
        return Err(unsupported_restart_override("config override"));
    }
    if options.has_config_patch {
        return Err(unsupported_restart_override("config patch"));
    }
    if options.persist_dir.is_some() {
        return Err(unsupported_restart_override("persist dir"));
    }
    if options.snapshot_dir.is_some() {
        return Err(unsupported_restart_override("snapshot dir"));
    }
    Ok(())
}

/// The ports of the named peers of a start request, in the order named;
/// the first name that is not a known peer is the error.
pub fn resolve_peer_ports(peer_ports_by_name: &NamedMap<u16>, names: &Vec<String>) -> (r: Result<Vec<u16>, NodeManagerError>)
    requires
        peer_ports_by_name.wf(),
    ensures
        r is Ok <==> forall|i: int| 0 <= i < names@.len() ==> peer_ports_by_name@.contains_key(#[trigger] names@[i]@),
        r matches Ok(ports) ==> ports@.len() == names@.len() && forall|i: int|
            0 <= i < names@.len() ==> #[trigger] ports@[i] == peer_ports_by_name@[names@[i]@],
        r matches Err(e) ==> exists|i: int|
            0 <= i < names@.len() && !peer_ports_by_name@.contains_key(#[trigger] names@[i]@) && (forall|j: int|
                0 <= j < i ==> peer_ports_by_name@.contains_key(#[trigger] names@[j]@)) && (e matches NodeManagerError::InvalidArgument {
                message,
            } && message@ == "unknown peer name '"@ + names@[i]@ + "'"@),
{
    let mut ports: Vec<u16> = Vec::new();
    let mut i: usize = 0;
    while i < names.len()
        invariant
            i <= names.len(),
            peer_ports_by_name.wf(),
            ports@.len() == i,
            forall|j: int| 0 <= j < i ==> peer_ports_by_name@.contains_key(#[trigger] names@[j]@),
            forall|j: int| 0 <= j < i ==> #[trigger] ports@[j] == peer_ports_by_name@[names@[j]@],
        decreases names.len() - i,
    {
        match peer_ports_by_name.get(names[i].as_str()) {
            Some(p) => {
                ports.push(*p);
            },
            None => {
                let mut message = owned("unknown peer name '");
                message.append(names[i].as_str());
                message.append("'");
                return Err(NodeManagerError::InvalidArgument { message });
            },
        }
        i = i + 1;
    }
    Ok(ports)
}

/// The error of a UDP port that could not be reserved for `label`.
pub fn udp_port_allocation_error(label: &str) -> (r: NodeManagerError)
    ensures
        r matches NodeManagerError::PortAllocation { message } && message@ == "failed to allocate free UDP port for "@
            + label@,
{
    let mut message = owned("failed to allocate free UDP port for ");
    message.append(label);
    NodeManagerError::PortAllocation { message }
}

/// The starting point of a node manager: nodes and peer ports that exist
/// before it registers any.
#[derive(Debug, PartialEq, Eq)]
pub struct NodeManagerSeed {
    /// Number of nodes already counted.
    pub node_count: usize,
    /// Peer ports already known, in order.
    pub peer_ports: Vec<u16>,
    /// Peer ports already known, by node name.
    pub peer_ports_by_name: NamedMap<u16>,
}

impl NodeManagerSeed {
    /// No node and no peer.
    pub fn default() -> (r: Self)
        ensures
            r.node_count == 0,
            r.peer_ports@.len() == 0,
            r.peer_ports_by_name.wf(),
            r.peer_ports_by_name@ == Map::<Seq<char>, u16>::empty(),
    {
        NodeManagerSeed { node_count: 0, peer_ports: Vec::new(), peer_ports_by_name: NamedMap::new() }
    }
}

/// One registered node.
#[derive(Debug)]
struct NodeSlot<N> {
    name: String,
    named: bool,
    node: Option<N>,
    api_port: u16,
}

/// What a network readiness wait does next.
#[derive(Debug, PartialEq, Eq)]
pub enum NetworkWaitStep {
    /// Probe these API ports.
    Probe(Vec<u16>),
    /// Nothing was ever registered: ready.
    Ready,
    /// Poll again after this many milliseconds.
    RetryAfterMillis(u64),
    /// Give up with this message.
    Fail(String),
}

/// Milliseconds a network readiness wait waits out restarting nodes.
pub const RESTART_SETTLE_TIMEOUT_MS: u64 = 60000;

/// Milliseconds between polls while nodes restart.
pub const RESTART_POLL_INTERVAL_MS: u64 = 100;

/// The abstract state of a node registry.
pub struct NodeRegistryModel<C, T> {
    /// Number of nodes counted, including seeded ones.
    pub node_count: nat,
    /// Peer ports, in registration order.
    pub peer_ports: Seq<u16>,
    /// Peer ports by node name.
    pub peer_ports_by_name: Map<Seq<char>, u16>,
    /// Clients by node name.
    pub clients: Map<Seq<char>, C>,
    /// Registered node names, by index.
    pub names: Seq<Seq<char>>,
    /// Whether each registered node is still found by its name: a later
    /// registration under the same name supersedes it.
    pub named: Seq<bool>,
    /// Whether each registered node is in place (not taken out for a
    /// lifecycle operation).
    pub present: Seq<bool>,
    /// API port of each registered node.
    pub api_ports: Seq<u16>,
    /// Readiness timeout override (seconds) by node name.
    pub timeouts: Map<Seq<char>, Option<u64>>,
    /// Names of stopped nodes.
    pub stopped: Set<Seq<char>>,
    /// Names of restarting nodes.
    pub restarting: Set<Seq<char>>,
    /// Configuration reused as a template for later nodes.
    pub template: Option<T>,
    /// Nodes put back after their index was cleared.
    pub orphans: nat,
}

impl<C, T> NodeRegistryModel<C, T> {
    /// Index of the registered node `name`, if any.
    pub open spec fn index_of(self, name: Seq<char>) -> Option<int> {
        if exists|i: int| 0 <= i < self.names.len() && self.named[i] && self.names[i] == name {
            Some(choose|i: int| 0 <= i < self.names.len() && self.named[i] && self.names[i] == name)
        } else {
            None
        }
    }

    /// Per-node tables have one entry per registered node and the names
    /// of the nodes still found by name are distinct.
    pub open spec fn wf(self) -> bool {
        &&& self.present.len() == self.names.len()
        &&& self.named.len() == self.names.len()
        &&& self.api_ports.len() == self.names.len()
        &&& forall|i: int, j: int|
            0 <= i < j < self.names.len() && self.named[i] && self.named[j] ==> self.names[i] != self.names[j]
    }

    /// Whether registered node `i` is probed by a network readiness wait:
    /// it is found by its name, in place and not stopped.
    pub open spec fn probed(self, i: int) -> bool {
        self.named[i] && self.present[i] && !self.stopped.contains(self.names[i])
    }
}

/// The API ports of the probed nodes among the first `n`, in index order.
pub open spec fn probe_ports<C, T>(m: NodeRegistryModel<C, T>, n: nat) -> Seq<u16>
    decreases n,
{
    if n == 0 {
        Seq::empty()
    } else {
        let prev = probe_ports(m, (n - 1) as nat);
        if m.probed(n - 1) {
            prev.push(m.api_ports[n - 1])
        } else {
            prev
        }
    }
}

/// Number of nodes found by name among the first `n`.
pub open spec fn named_count<C, T>(m: NodeRegistryModel<C, T>, n: nat) -> nat
    decreases n,
{
    if n == 0 {
        0
    } else {
        named_count(m, (n - 1) as nat) + if m.named[n - 1] {
            1nat
        } else {
            0nat
        }
    }
}

/// The names of the nodes found by name among the first `n`, in index
/// order.
pub open spec fn named_names<C, T>(m: NodeRegistryModel<C, T>, n: nat) -> Seq<Seq<char>>
    decreases n,
{
    if n == 0 {
        Seq::empty()
    } else {
        let prev = named_names(m, (n - 1) as nat);
        if m.named[n - 1] {
            prev.push(m.names[n - 1])
        } else {
            prev
        }
    }
}

/// The names of the slots of `m` after registering `name`: a node already
/// found by that name no longer is.
pub open spec fn named_after_register<C, T>(m: NodeRegistryModel<C, T>, name: Seq<char>) -> Seq<bool> {
    match m.index_of(name) {
        Some(k) => m.named.update(k, false),
        None => m.named,
    }.push(true)
}

/// The message of a wait on a cluster whose nodes all stopped.
pub open spec fn all_stopped_message(total: nat) -> Seq<char> {
    "all "@ + decimal(total) + " nodes are stopped; no running nodes to await readiness"@
}

/// The message of a wait whose restarting nodes did not come back.
pub open spec fn restart_timeout_message(restarting: nat) -> Seq<char> {
    decimal(restarting) + " restarting nodes did not return within 60s"@
}

/// The registry of a local cluster's nodes. `N` is a node process handle,
/// `C` a node client, `T` a node configuration.
pub struct LocalNodeRegistry<N, C, T> {
    node_count: usize,
    peer_ports: Vec<u16>,
    peer_ports_by_name: NamedMap<u16>,
    clients_by_name: NamedMap<C>,
    slots: Vec<NodeSlot<N>>,
    runtime_by_name: NamedMap<Option<u64>>,
    stopped_names: NamedMap<()>,
    restarting_names: NamedMap<()>,
    template_config: Option<T>,
    orphans: Vec<N>,
}

impl<N, C, T> View for LocalNodeRegistry<N, C, T> {
    type V = NodeRegistryModel<C, T>;

    closed spec fn view(&self) -> NodeRegistryModel<C, T> {
        NodeRegistryModel {
            node_count: self.node_count as nat,
            peer_ports: self.peer_ports@,
            peer_ports_by_name: self.peer_ports_by_name@,
            clients: self.clients_by_name@,
            names: self.slots@.map_values(|s: NodeSlot<N>| s.name@),
            named: self.slots@.map_values(|s: NodeSlot<N>| s.named),
            present: self.slots@.map_values(|s: NodeSlot<N>| s.node is Some),
            api_ports: self.slots@.map_values(|s: NodeSlot<N>| s.api_port),
            timeouts: self.runtime_by_name@,
            stopped: self.stopped_names@.dom(),
            restarting: self.restarting_names@.dom(),
            template: self.template_config,
            orphans: self.orphans@.len(),
        }
    }
}

impl<N, C, T> LocalNodeRegistry<N, C, T> {
    /// The state invariant.
    pub closed spec fn inv(&self) -> bool {
        &&& self@.wf()
        &&& self.peer_ports_by_name.wf()
        &&& self.clients_by_name.wf()
        &&& self.runtime_by_name.wf()
        &&& self.stopped_names.wf()
        &&& self.restarting_names.wf()
    }

    /// The node handles of the registered nodes, by index: `None` for a
    /// node taken out.
    pub closed spec fn slot_handles(&self) -> Seq<Option<N>> {
        self.slots@.map_values(|s: NodeSlot<N>| s.node)
    }

    /// The handles of the nodes kept under no name, in the order they were
    /// put back.
    pub closed spec fn orphan_handles(&self) -> Seq<N> {
        self.orphans@
    }

    /// Every handle the registry holds: the registered nodes' by index, then
    /// the nameless ones.
    pub open spec fn all_handles(&self) -> Seq<Option<N>> {
        self.slot_handles() + self.orphan_handles().map_values(|n: N| Some(n))
    }

    /// A registry with no registered node, starting from `seed`.
    pub fn new(seed: &NodeManagerSeed) -> (r: Self)
        requires
            seed.peer_ports_by_name.wf(),
        ensures
            r.inv(),
            r@.node_count == seed.node_count,
            r@.peer_ports == seed.peer_ports@,
            r@.peer_ports_by_name == seed.peer_ports_by_name@,
            r@.clients == Map::<Seq<char>, C>::empty(),
            r@.names.len() == 0,
            r@.timeouts == Map::<Seq<char>, Option<u64>>::empty(),
            r@.stopped == Set::<Seq<char>>::empty(),
            r@.restarting == Set::<Seq<char>>::empty(),
            r@.template is None,
            r@.orphans == 0,
            r.slot_handles() == Seq::<Option<N>>::empty(),
            r.orphan_handles() == Seq::<N>::empty(),
    {
        let r = LocalNodeRegistry::<N, C, T> {
            node_count: seed.node_count,
            peer_ports: copy_ports(&seed.peer_ports),
            peer_ports_by_name: copy_named_ports(&seed.peer_ports_by_name),
            clients_by_name: NamedMap::new(),
            slots: Vec::new(),
            runtime_by_name: NamedMap::new(),
            stopped_names: NamedMap::new(),
            restarting_names: NamedMap::new(),
            template_config: None,
            orphans: Vec::new(),
        };
        assert(r@.names =~= Seq::<Seq<char>>::empty());
        assert(r@.named =~= Seq::<bool>::empty());
        assert(r@.present =~= Seq::<bool>::empty());
        assert(r.slot_handles() =~= Seq::<Option<N>>::empty());
        assert(r@.api_ports =~= Seq::<u16>::empty());
        assert(r@.stopped =~= Set::<Seq<char>>::empty());
        assert(r@.restarting =~= Set::<Seq<char>>::empty());
        r
    }

    /// Forgets every registered node and returns to `seed`, as stopping all
    /// nodes does; the node handles are returned for the caller to stop.
    /// Restarting marks are kept.
    pub fn reset_to_seed(&mut self, seed: &NodeManagerSeed) -> (r: Vec<Option<N>>)
        requires
            old(self).inv(),
            seed.peer_ports_by_name.wf(),
        ensures
            final(self).inv(),
            r@ == old(self).all_handles(),
            final(self).slot_handles() == Seq::<Option<N>>::empty(),
            final(self).orphan_handles() == Seq::<N>::empty(),
            final(self)@ == (NodeRegistryModel::<C, T> {
                node_count: seed.node_count as nat,
                peer_ports: seed.peer_ports@,
                peer_ports_by_name: seed.peer_ports_by_name@,
                clients: Map::<Seq<char>, C>::empty(),
                names: Seq::<Seq<char>>::empty(),
                named: Seq::<bool>::empty(),
                present: Seq::<bool>::empty(),
                api_ports: Seq::<u16>::empty(),
                timeouts: Map::<Seq<char>, Option<u64>>::empty(),
                stopped: Set::<Seq<char>>::empty(),
                restarting: old(self)@.restarting,
                template: None,
                orphans: 0,
            }),
    {
        let nodes = self.take_slots();
        self.peer_ports = copy_ports(&seed.peer_ports);
        self.peer_ports_by_name = copy_named_ports(&seed.peer_ports_by_name);
        self.clients_by_name.clear();
        self.runtime_by_name.clear();
        self.stopped_names.clear();
        self.node_count = seed.node_count;
        self.template_config = None;
        proof {
            assert(self@.stopped =~= Set::<Seq<char>>::empty());
        }
        nodes
    }

    /// Forgets every registered node and every peer, as re-initializing
    /// with a fresh node set does; the node handles are returned for the
    /// caller to drop.
    pub fn clear_registered_nodes(&mut self) -> (r: Vec<Option<N>>)
        requires
            old(self).inv(),
        ensures
            final(self).inv(),
            r@ == old(self).all_handles(),
            final(self).slot_handles() == Seq::<Option<N>>::empty(),
            final(self).orphan_handles() == Seq::<N>::empty(),
            final(self)@ == (NodeRegistryModel::<C, T> {
                node_count: 0,
                peer_ports: Seq::<u16>::empty(),
                peer_ports_by_name: Map::<Seq<char>, u16>::empty(),
                clients: Map::<Seq<char>, C>::empty(),
                names: Seq::<Seq<char>>::empty(),
                named: Seq::<bool>::empty(),
                present: Seq::<bool>::empty(),
                api_ports: Seq::<u16>::empty(),
                timeouts: Map::<Seq<char>, Option<u64>>::empty(),
                stopped: Set::<Seq<char>>::empty(),
                restarting: Set::<Seq<char>>::empty(),
                template: None,
                orphans: 0,
            }),
    {
        let nodes = self.take_slots();
        self.peer_ports = Vec::new();
        self.peer_ports_by_name.clear();
        self.clients_by_name.clear();
        self.runtime_by_name.clear();
        self.stopped_names.clear();
        self.restarting_names.clear();
        self.node_count = 0;
        self.template_config = None;
        proof {
            assert(self@.peer_ports =~= Seq::<u16>::empty());
            assert(self@.stopped =~= Set::<Seq<char>>::empty());
            assert(self@.restarting =~= Set::<Seq<char>>::empty());
        }
        nodes
    }

    fn take_slots(&mut self) -> (r: Vec<Option<N>>)
        requires
            old(self).inv(),
        ensures
            r@ == old(self).all_handles(),
            final(self).slots@.len() == 0,
            final(self).orphans@.len() == 0,
            final(self).node_count == old(self).node_count,
            final(self).peer_ports == old(self).peer_ports,
            final(self).peer_ports_by_name == old(self).peer_ports_by_name,
            final(self).clients_by_name == old(self).clients_by_name,
            final(self).runtime_by_name == old(self).runtime_by_name,
            final(self).stopped_names == old(self).stopped_names,
            final(self).restarting_names == old(self).restarting_names,
            final(self).template_config == old(self).template_config,
            final(self)@.names == Seq::<Seq<char>>::empty(),
            final(self)@.named == Seq::<bool>::empty(),
            final(self)@.present == Seq::<bool>::empty(),
            final(self)@.api_ports == Seq::<u16>::empty(),
    {
        let mut slots: Vec<NodeSlot<N>> = Vec::new();
        std::mem::swap(&mut slots, &mut self.slots);
        let mut orphans: Vec<N> = Vec::new();
        std::mem::swap(&mut orphans, &mut self.orphans);
        let ghost old_slots = slots@;
        let ghost old_orphans = orphans@;
        let ghost first = old_slots.map_values(|s: NodeSlot<N>| s.node);
        let ghost second = old_orphans.map_values(|n: N| Some(n));
        let mut nodes: Vec<Option<N>> = Vec::new();
        let n = slots.len();
        let mut rest = slots;
        while rest.len() > 0
            invariant
                n == old_slots.len(),
                nodes@.len() + rest@.len() == n,
                rest@ == old_slots.skip(nodes@.len() as int),
                nodes@ == first.take(nodes@.len() as int),
                first == old_slots.map_values(|s: NodeSlot<N>| s.node),
            decreases rest@.len(),
        {
            let ghost k: int = nodes@.len() as int;
            let slot = rest.remove(0);
            assert(slot == old_slots[k as int]);
            nodes.push(slot.node);
            assert(rest@ =~= old_slots.skip(k + 1));
            assert(nodes@ =~= first.take(k + 1));
        }
        assert(nodes@ =~= first);
        let m = orphans.len();
        let mut taken: usize = 0;
        while orphans.len() > 0
            invariant
                m == old_orphans.len(),
                taken + orphans@.len() == m,
                orphans@ == old_orphans.skip(taken as int),
                nodes@ == first + second.take(taken as int),
                second == old_orphans.map_values(|n: N| Some(n)),
            decreases orphans@.len(),
        {
            let node = orphans.remove(0);
            assert(node == old_orphans[taken as int]);
            nodes.push(Some(node));
            assert(orphans@ =~= old_orphans.skip(taken + 1));
            assert(nodes@ =~= first + second.take(taken + 1));
            taken = taken + 1;
        }
        assert(second.take(m as int) =~= second);
        assert(self@.names =~= Seq::<Seq<char>>::empty());
        assert(self@.named =~= Seq::<bool>::empty());
        assert(self@.present =~= Seq::<bool>::empty());
        assert(self@.api_ports =~= Seq::<u16>::empty());
        nodes
    }

    /// Number of nodes counted, including seeded ones.
    pub fn node_count(&self) -> (r: usize)
        ensures
            r == self@.node_count,
    {
        self.node_count
    }

    /// Peer ports, in registration order.
    pub fn peer_ports(&self) -> (r: &Vec<u16>)
        ensures
            r@ == self@.peer_ports,
    {
        &self.peer_ports
    }

    /// Peer ports by node name.
    pub fn peer_ports_by_name(&self) -> (r: &NamedMap<u16>)
        requires
            self.inv(),
        ensures
            r.wf(),
            r@ == self@.peer_ports_by_name,
    {
        &self.peer_ports_by_name
    }

    /// The configuration reused as a template, if any.
    pub fn template_config(&self) -> (r: &Option<T>)
        ensures
            *r == self@.template,
    {
        &self.template_config
    }

    /// Remembers the first configuration of a node started from a snapshot
    /// as the template of later nodes.
    pub fn remember_template(&mut self, config: T, from_snapshot: bool)
        requires
            old(self).inv(),
        ensures
            final(self).slot_handles() == old(self).slot_handles(),
            final(self).orphan_handles() == old(self).orphan_handles(),
            final(self).inv(),
            final(self)@ == (NodeRegistryModel {
                template: if old(self)@.template is None && from_snapshot {
                    Some(config)
                } else {
                    old(self)@.template
                },
                ..old(self)@
            }),
    {
        if self.template_config.is_none() && from_snapshot {
            self.template_config = Some(config);
        }
    }

    fn slot_of(&self, name: &str) -> (r: Option<usize>)
        requires
            self.inv(),
        ensures
            match self@.index_of(name@) {
                Some(i) => r == Some(i as usize),
                None => r is None,
            },
            r matches Some(i) ==> i < self.slots@.len() && self@.named[i as int] && self@.names[i as int] == name@,
    {
        let mut i: usize = 0;
        while i < self.slots.len()
            invariant
                i <= self.slots.len(),
                self.inv(),
                forall|j: int| 0 <= j < i ==> !(self@.named[j] && self@.names[j] == name@),
            decreases self.slots.len() - i,
        {
            if self.slots[i].named && crate::text::str_eq(self.slots[i].name.as_str(), name) {
                proof {
                    assert(self@.named[i as int] && self@.names[i as int] == name@);
                    let c = choose|c: int| 0 <= c < self@.names.len() && self@.named[c] && self@.names[c] == name@;
                    if c != i {
                        if c < i {
                            assert(!(self@.named[c] && self@.names[c] == name@));
                        } else {
                            assert(self@.names[i as int] != self@.names[c]);
                        }
                    }
                }
                return Some(i);
            }
            i = i + 1;
        }
        None
    }

    /// Whether a node of this name is registered.
    pub fn is_registered(&self, name: &str) -> (r: bool)
        requires
            self.inv(),
        ensures
            r == (self@.index_of(name@) is Some),
    {
        self.slot_of(name).is_some()
    }

    /// The name a start request gives its node, which must not name a known
    /// peer yet.
    pub fn validate_new_node_name(&self, requested_name: &str) -> (r: Result<String, NodeManagerError>)
        requires
            self.inv(),
        ensures
            ({
                let label = normalized_node_name(self@.node_count, requested_name@);
                &&& !self@.peer_ports_by_name.contains_key(label) ==> (r matches Ok(n) && n@ == label)
                &&& self@.peer_ports_by_name.contains_key(label) ==> (r matches Err(
                    NodeManagerError::InvalidArgument { message },
                ) && message@ == "node name '"@ + label + "' already exists"@)
            }),
    {
        let label = normalize_node_name(self.node_count, requested_name);
        if self.peer_ports_by_name.contains(label.as_str()) {
            let mut message = owned("node name '");
            message.append(label.as_str());
            message.append("' already exists");
            return Err(NodeManagerError::InvalidArgument { message });
        }
        Ok(label)
    }

    /// Registers a spawned node under `name` at the next index: its peer
    /// port and client are recorded by name, its readiness timeout override
    /// is stored, and the node count grows by one. A node registered earlier
    /// under the same name keeps its index but is no longer found by name.
    pub fn register_node(
        &mut self,
        name: String,
        network_port: u16,
        client: C,
        start_timeout_secs: Option<u64>,
        node: N,
        api_port: u16,
    )
        requires
            old(self).inv(),
            old(self)@.node_count < usize::MAX,
        ensures
            final(self).inv(),
            final(self).slot_handles() == old(self).slot_handles().push(Some(node)),
            final(self).orphan_handles() == old(self).orphan_handles(),
            final(self)@ == (NodeRegistryModel {
                node_count: old(self)@.node_count + 1,
                peer_ports: old(self)@.peer_ports.push(network_port),
                peer_ports_by_name: old(self)@.peer_ports_by_name.insert(name@, network_port),
                clients: old(self)@.clients.insert(name@, client),
                names: old(self)@.names.push(name@),
                named: named_after_register(old(self)@, name@),
                present: old(self)@.present.push(true),
                api_ports: old(self)@.api_ports.push(api_port),
                timeouts: old(self)@.timeouts.insert(name@, start_timeout_secs),
                ..old(self)@
            }),
    {
        let ghost before = self@;
        let existing = self.slot_of(name.as_str());
        match existing {
            Some(k) => {
                let mut flag = false;
                std::mem::swap(&mut flag, &mut self.slots[k].named);
            },
            None => {},
        }
        let ghost updated = self@;
        proof {
            assert(updated.names =~= before.names);
            assert(updated.present =~= before.present);
            assert(updated.api_ports =~= before.api_ports);
            match before.index_of(name@) {
                Some(k) => {
                    assert(updated.named =~= before.named.update(k, false));
                },
                None => {
                    assert(updated.named =~= before.named);
                },
            }
        }
        self.peer_ports.push(network_port);
        self.peer_ports_by_name.insert(name.clone(), network_port);
        self.clients_by_name.insert(name.clone(), client);
        self.runtime_by_name.insert(name.clone(), start_timeout_secs);
        self.node_count = self.node_count + 1;
        self.slots.push(NodeSlot { name, named: true, node: Some(node), api_port });
        proof {
            assert(self.slot_handles() =~= old(self).slot_handles().push(Some(node)));
            assert(self@.names =~= before.names.push(name@));
            assert(self@.named =~= named_after_register(before, name@));
            assert(self@.present =~= before.present.push(true));
            assert(self@.api_ports =~= before.api_ports.push(api_port));
            assert forall|i: int, j: int|
                0 <= i < j < self@.names.len() && self@.named[i] && self@.named[j] implies self@.names[i]
                != self@.names[j] by {
                if j == before.names.len() {
                    if before.names[i] == name@ {
                        assert(before.named[i]);
                        let k = choose|c: int| 0 <= c < before.names.len() && before.named[c] && before.names[c] == name@;
                        if k != i {
                            if k < i {
                                assert(before.names[k] != before.names[i]);
                            } else {
                                assert(before.names[i] != before.names[k]);
                            }
                        }
                        assert(before.index_of(name@) == Some(i));
                    }
                } else {
                    assert(before.named[i] && before.named[j]);
                }
            }
        }
    }

    /// Takes node `name` out for a lifecycle operation, returning its index
    /// and handle; unknown and already taken nodes are an error.
    pub fn take_node(&mut self, name: &str) -> (r: Result<(usize, N), NodeManagerError>)
        requires
            old(self).inv(),
        ensures
            final(self).inv(),
            final(self).orphan_handles() == old(self).orphan_handles(),
            r matches Ok((j, n)) ==> j < old(self).slot_handles().len() && old(self).slot_handles()[j as int] == Some(n)
                && final(self).slot_handles() == old(self).slot_handles().update(j as int, None),
            r is Err ==> final(self).slot_handles() == old(self).slot_handles(),
            match old(self)@.index_of(name@) {
                Some(i) => if old(self)@.present[i] {
                    r matches Ok((j, _)) && j == i && final(self)@ == (NodeRegistryModel {
                        present: old(self)@.present.update(i, false),
                        ..old(self)@
                    })
                } else {
                    r matches Err(NodeManagerError::NodeName { name: n }) && n@ == name@ && final(self)@ == old(self)@
                },
                None => r matches Err(NodeManagerError::NodeName { name: n }) && n@ == name@ && final(self)@ == old(
                    self,
                )@,
            },
    {
        let index = match self.slot_of(name) {
            Some(i) => i,
            None => {
                return Err(NodeManagerError::NodeName { name: owned(name) });
            },
        };
        let ghost before = self@;
        let mut taken: Option<N> = None;
        std::mem::swap(&mut taken, &mut self.slots[index].node);
        match taken {
            Some(node) => {
                proof {
                    assert(self.slot_handles() =~= old(self).slot_handles().update(index as int, None));
                    assert(self@.names =~= before.names);
                    assert(self@.named =~= before.named);
                    assert(self@.present =~= before.present.update(index as int, false));
                    assert(self@.api_ports =~= before.api_ports);
                }
                Ok((index, node))
            },
            None => {
                proof {
                    assert(self.slot_handles() =~= old(self).slot_handles());
                    assert(self@.names =~= before.names);
                    assert(self@.named =~= before.named);
                    assert(self@.present =~= before.present);
                    assert(self@.api_ports =~= before.api_ports);
                }
                Err(NodeManagerError::NodeName { name: owned(name) })
            },
        }
    }

    /// Puts a taken node back at `index`. When the registry no longer has
    /// that index (it was cleared meanwhile), the node is kept under no name
    /// until the next reset.
    pub fn put_node_back(&mut self, index: usize, node: N)
        requires
            old(self).inv(),
        ensures
            final(self).inv(),
            index < old(self)@.names.len() ==> final(self)@ == (NodeRegistryModel {
                present: old(self)@.present.update(index as int, true),
                ..old(self)@
            }),
            index >= old(self)@.names.len() ==> final(self)@ == (NodeRegistryModel {
                orphans: old(self)@.orphans + 1,
                ..old(self)@
            }),
            index < old(self)@.names.len() ==> final(self).slot_handles() == old(self).slot_handles().update(
                index as int,
                Some(node),
            ) && final(self).orphan_handles() == old(self).orphan_handles(),
            index >= old(self)@.names.len() ==> final(self).slot_handles() == old(self).slot_handles()
                && final(self).orphan_handles() == old(self).orphan_handles().push(node),
    {
        if index >= self.slots.len() {
            let ghost before = self@;
            self.orphans.push(node);
            proof {
                assert(self.slot_handles() =~= old(self).slot_handles());
                assert(self@.names =~= before.names);
                assert(self@.named =~= before.named);
                assert(self@.present =~= before.present);
                assert(self@.api_ports =~= before.api_ports);
            }
            return;
        }
        let ghost before = self@;
        let mut placed = Some(node);
        std::mem::swap(&mut placed, &mut self.slots[index].node);
        proof {
            assert(self.slot_handles() =~= old(self).slot_handles().update(index as int, Some(node)));
            assert(self@.names =~= before.names);
            assert(self@.named =~= before.named);
            assert(self@.present =~= before.present.update(index as int, true));
            assert(self@.api_ports =~= before.api_ports);
        }
    }

    /// Records that node `name` stopped.
    pub fn mark_node_stopped(&mut self, name: &str)
        requires
            old(self).inv(),
        ensures
            final(self).slot_handles() == old(self).slot_handles(),
            final(self).orphan_handles() == old(self).orphan_handles(),
            final(self).inv(),
            final(self)@ == (NodeRegistryModel {
                stopped: old(self)@.stopped.insert(name@),
                restarting: old(self)@.restarting.remove(name@),
                ..old(self)@
            }),
    {
        self.stopped_names.insert(owned(name), ());
        self.restarting_names.remove(name);
        proof {
            assert(self@.stopped =~= old(self)@.stopped.insert(name@));
            assert(self@.restarting =~= old(self)@.restarting.remove(name@));
        }
    }

    /// Records that node `name` runs again.
    pub fn mark_node_running(&mut self, name: &str)
        requires
            old(self).inv(),
        ensures
            final(self).slot_handles() == old(self).slot_handles(),
            final(self).orphan_handles() == old(self).orphan_handles(),
            final(self).inv(),
            final(self)@ == (NodeRegistryModel {
                stopped: old(self)@.stopped.remove(name@),
                restarting: old(self)@.restarting.remove(name@),
                ..old(self)@
            }),
    {
        self.stopped_names.remove(name);
        self.restarting_names.remove(name);
        proof {
            assert(self@.stopped =~= old(self)@.stopped.remove(name@));
            assert(self@.restarting =~= old(self)@.restarting.remove(name@));
        }
    }

    /// Records that node `name` is restarting.
    pub fn mark_node_restarting(&mut self, name: &str)
        requires
            old(self).inv(),
        ensures
            final(self).slot_handles() == old(self).slot_handles(),
            final(self).orphan_handles() == old(self).orphan_handles(),
            final(self).inv(),
            final(self)@ == (NodeRegistryModel { restarting: old(self)@.restarting.insert(name@), ..old(self)@ }),
    {
        self.restarting_names.insert(owned(name), ());
        proof {
            assert(self@.restarting =~= old(self)@.restarting.insert(name@));
        }
    }

    /// Stores the readiness timeout override of node `name`.
    pub fn store_runtime_options(&mut self, name: &str, start_timeout_secs: Option<u64>)
        requires
            old(self).inv(),
        ensures
            final(self).slot_handles() == old(self).slot_handles(),
            final(self).orphan_handles() == old(self).orphan_handles(),
            final(self).inv(),
            final(self)@ == (NodeRegistryModel {
                timeouts: old(self)@.timeouts.insert(name@, start_timeout_secs),
                ..old(self)@
            }),
    {
        self.runtime_by_name.insert(owned(name), start_timeout_secs);
    }

    /// The client of node `name`.
    pub fn node_client(&self, name: &str) -> (r: Option<&C>)
        requires
            self.inv(),
        ensures
            r is Some <==> self@.clients.contains_key(name@),
            r matches Some(c) ==> *c == self@.clients[name@],
    {
        self.clients_by_name.get(name)
    }

    /// The index of node `name`, if registered.
    pub fn node_index(&self, name: &str) -> (r: Option<usize>)
        requires
            self.inv(),
        ensures
            match self@.index_of(name@) {
                Some(i) => r == Some(i as usize),
                None => r is None,
            },
    {
        self.slot_of(name)
    }

    /// The names of the registered nodes found by name, in index order.
    pub fn node_names(&self) -> (r: Vec<String>)
        requires
            self.inv(),
        ensures
            views(r@) == named_names(self@, self@.names.len()),
    {
        let mut r: Vec<String> = Vec::new();
        let mut i: usize = 0;
        while i < self.slots.len()
            invariant
                i <= self.slots.len(),
                self.inv(),
                views(r@) == named_names(self@, i as nat),
            decreases self.slots.len() - i,
        {
            if self.slots[i].named {
                let ghost prev = r@;
                r.push(self.slots[i].name.clone());
                assert(views(r@) =~= views(prev).push(self@.names[i as int]));
            }
            i = i + 1;
        }
        r
    }

    fn named_slot_count(&self) -> (r: usize)
        requires
            self.inv(),
        ensures
            r == named_count(self@, self@.names.len()),
    {
        let mut n: usize = 0;
        let mut i: usize = 0;
        while i < self.slots.len()
            invariant
                i <= self.slots.len(),
                self.inv(),
                n == named_count(self@, i as nat),
                n <= i,
            decreases self.slots.len() - i,
        {
            if self.slots[i].named {
                n = n + 1;
            }
            i = i + 1;
        }
        n
    }

    /// The API port and readiness timeout override of node `name`, which
    /// must be registered and in place.
    pub fn readiness_target(&self, name: &str) -> (r: Result<(u16, Option<u64>), NodeManagerError>)
        requires
            self.inv(),
        ensures
            match self@.index_of(name@) {
                Some(i) => if self@.present[i] {
                    r matches Ok((port, timeout)) && port == self@.api_ports[i] && timeout == (
                    if self@.timeouts.contains_key(name@) {
                        self@.timeouts[name@]
                    } else {
                        None
                    })
                } else {
                    r matches Err(NodeManagerError::NodeName { name: n }) && n@ == name@
                },
                None => r matches Err(NodeManagerError::NodeName { name: n }) && n@ == name@,
            },
    {
        let index = match self.slot_of(name) {
            Some(i) => i,
            None => {
                return Err(NodeManagerError::NodeName { name: owned(name) });
            },
        };
        if self.slots[index].node.is_none() {
            return Err(NodeManagerError::NodeName { name: owned(name) });
        }
        let timeout = match self.runtime_by_name.get(name) {
            Some(t) => *t,
            None => None,
        };
        Ok((self.slots[index].api_port, timeout))
    }

    /// The API ports of the nodes a network readiness wait probes: those in
    /// place and not stopped, in index order.
    pub fn running_probe_ports(&self) -> (r: Vec<u16>)
        requires
            self.inv(),
        ensures
            r@ == probe_ports(self@, self@.names.len()),
    {
        let mut r: Vec<u16> = Vec::new();
        let mut i: usize = 0;
        while i < self.slots.len()
            invariant
                i <= self.slots.len(),
                self.inv(),
                r@ == probe_ports(self@, i as nat),
            decreases self.slots.len() - i,
        {
            let in_place = self.slots[i].node.is_some();
            let stopped = self.stopped_names.contains(self.slots[i].name.as_str());
            if self.slots[i].named && in_place && !stopped {
                r.push(self.slots[i].api_port);
            }
            i = i + 1;
        }
        r
    }

    /// One poll of a network readiness wait, `elapsed_ms` after it began:
    /// probe the running nodes when there are any; succeed at once when no
    /// node is found by name; fail when every node stopped and none is
    /// restarting, or when restarting nodes did not come back within 60 s;
    /// otherwise poll again after 100 ms.
    pub fn network_wait_step(&self, elapsed_ms: u64) -> (r: NetworkWaitStep)
        requires
            self.inv(),
        ensures
            ({
                let ports = probe_ports(self@, self@.names.len());
                let total = named_count(self@, self@.names.len());
                let restarting = self@.restarting.len();
                &&& ports.len() > 0 ==> (r matches NetworkWaitStep::Probe(p) && p@ == ports)
                &&& ports.len() == 0 && total == 0 ==> r == NetworkWaitStep::Ready
                &&& ports.len() == 0 && total > 0 && restarting == 0 ==> (r matches NetworkWaitStep::Fail(m) && m@
                    == all_stopped_message(total))
                &&& ports.len() == 0 && total > 0 && restarting > 0 && elapsed_ms >= RESTART_SETTLE_TIMEOUT_MS ==> (
                r matches NetworkWaitStep::Fail(m) && m@ == restart_timeout_message(restarting))
                &&& ports.len() == 0 && total > 0 && restarting > 0 && elapsed_ms < RESTART_SETTLE_TIMEOUT_MS ==> r
                    == NetworkWaitStep::RetryAfterMillis(RESTART_POLL_INTERVAL_MS)
            }),
    {
        let ports = self.running_probe_ports();
        if ports.len() > 0 {
            return NetworkWaitStep::Probe(ports);
        }
        let total = self.named_slot_count();
        if total == 0 {
            return NetworkWaitStep::Ready;
        }
        let restarting = self.restarting_names.len();
        if restarting == 0 {
            let mut message = owned("all ");
            message.append(u64_to_decimal(total as u64).as_str());
            message.append(" nodes are stopped; no running nodes to await readiness");
            return NetworkWaitStep::Fail(message);
        }
        if elapsed_ms >= RESTART_SETTLE_TIMEOUT_MS {
            let mut message = u64_to_decimal(restarting as u64);
            message.append(" restarting nodes did not return within 60s");
            return NetworkWaitStep::Fail(message);
        }
        NetworkWaitStep::RetryAfterMillis(RESTART_POLL_INTERVAL_MS)
    }
}

fn copy_ports(v: &Vec<u16>) -> (r: Vec<u16>)
    ensures
        r@ == v@,
{
    let r = v.clone();
    assert(r@ =~= v@);
    r
}

fn copy_named_ports(m: &NamedMap<u16>) -> (r: NamedMap<u16>)
    requires
        m.wf(),
    ensures
        r.wf(),
        r@ == m@,
{
    let mut r: NamedMap<u16> = NamedMap::new();
    let entries = m.entries();
    let mut i: usize = 0;
    while i < entries.len()
        invariant
            i <= entries.len(),
            r.wf(),
            m.wf(),
            forall|k: int| 0 <= k < entries@.len() ==> m@.contains_key((#[trigger] entries@[k]).0@) && m@[entries@[k].0@] == entries@[k].1,
            forall|q: Seq<char>| m@.contains_key(q) ==> exists|k: int| 0 <= k < entries@.len() && (#[trigger] entries@[k]).0@ == q,
            forall|q: Seq<char>| #[trigger] r@.contains_key(q) ==> m@.contains_key(q) && r@[q] == m@[q],
            forall|k: int| 0 <= k < i ==> r@.contains_key((#[trigger] entries@[k]).0@),
        decreases entries.len() - i,
    {
        r.insert(entries[i].0.clone(), entries[i].1);
        i = i + 1;
    }
    assert(r@ =~= m@) by {
        assert forall|q: Seq<char>| m@.contains_key(q) implies r@.contains_key(q) by {
            let k = choose|k: int| 0 <= k < entries@.len() && (#[trigger] entries@[k]).0@ == q;
        }
    }
    r
}

/// Taking a node out and putting it back at its index restores the
/// registry.
pub proof fn lemma_take_put_back_restores<C, T>(m: NodeRegistryModel<C, T>, i: int)
    requires
        m.wf(),
        0 <= i < m.names.len(),
        m.present[i],
    ensures
        (NodeRegistryModel {
            present: (NodeRegistryModel { present: m.present.update(i, false), ..m }).present.update(i, true),
            ..m
        }) == m,
{
    assert(m.present.update(i, false).update(i, true) =~= m.present);
}

/// While one node is taken out, every other node keeps its index, API port
/// and probing status.
pub proof fn lemma_taken_node_leaves_siblings<C, T>(m: NodeRegistryModel<C, T>, i: int, j: int)
    requires
        m.wf(),
        0 <= i < m.names.len(),
        0 <= j < m.names.len(),
        i != j,
    ensures
        ({
            let t = NodeRegistryModel { present: m.present.update(i, false), ..m };
            &&& t.index_of(m.names[j]) == m.index_of(m.names[j])
            &&& t.api_ports[j] == m.api_ports[j]
            &&& t.probed(j) == m.probed(j)
            &&& !t.probed(i)
        }),
{
    let t = NodeRegistryModel { present: m.present.update(i, false), ..m };
    assert(t.names == m.names);
    assert(t.present[j] == m.present[j]);
    assert(!t.present[i]);
}

/// A stopped node is not probed; marking it running again makes it probed
/// once it is in place.
pub proof fn lemma_stop_and_restart_probe_set<C, T>(m: NodeRegistryModel<C, T>, i: int)
    requires
        m.wf(),
        0 <= i < m.names.len(),
        m.named[i],
        m.present[i],
    ensures
        !(NodeRegistryModel { stopped: m.stopped.insert(m.names[i]), ..m }).probed(i),
        (NodeRegistryModel { stopped: m.stopped.insert(m.names[i]).remove(m.names[i]), ..m }).probed(i),
{
}

} // verus!
