//! A manually driven Kubernetes cluster: node naming, the checks that gate
//! starting, restarting and stopping nodes, and the bookkeeping of which
//! nodes run and which client belongs to which node.
//!
//! The Kubernetes calls themselves (scaling deployments, port-forwards,
//! readiness probes) are made by the caller; this module decides what to do
//! and records what happened.

use vstd::prelude::*;

use crate::k8s::forwarding::replace_at;
use crate::k8s::attach_provider::localhost;
use crate::k8s::model::ExistingCluster;
use crate::k8s::wait::{ClusterWaitError, NodeConfigPorts, NodePortAllocation};
use crate::scenario::StartNodeOptions;
use crate::text::{
    decimal, i64_to_decimal, lemma_parse_decimal, owned, parse_unsigned, parse_unsigned_exec,
    signed_decimal, str_chars, str_eq, strip_prefix, strip_prefix_str, u64_to_decimal,
};

verus! {


/// Failures of a manual cluster.
#[derive(Debug, PartialEq, Eq)]
pub enum ManualClusterError {
    /// The topology has no node.
    UnsupportedTopology { nodes: usize },
    /// The requested cluster name is not a DNS label.
    InvalidClusterName { name: String },
    /// The Kubernetes client could not be created.
    ClientInit { source: String },
    /// The chart assets could not be prepared.
    Assets { source: String },
    /// The Helm release could not be installed.
    InstallStack { source: String },
    /// Updating a node's cfgsync artifacts failed.
    CfgsyncUpdate { name: String, source: String },
    /// Waiting for the cluster's ports failed.
    NodePorts(ClusterWaitError),
    /// The start options ask for something the backend cannot do.
    UnsupportedStartOptions { message: String },
    /// A node name is not `node-<index>`.
    InvalidNodeName { name: String },
    /// A node index is beyond the topology.
    NodeIndexOutOfRange { index: usize, nodes: usize },
    /// The node already runs.
    NodeAlreadyRunning { name: String },
    /// The node does not run.
    NodeNotRunning { name: String },
    /// Patching a deployment failed.
    PatchDeployment { name: String, source: String },
    /// A deployment did not reach its replica count in time.
    ReplicaScaleTimeout { name: String, replicas: i32 },
    /// Deleting a deployment's pods failed.
    DeletePods { name: String, source: String },
    /// No client could be built for a node.
    NodeClient { name: String, source: String },
    /// A node did not become ready.
    NodeReadiness { name: String, source: String },
    /// The cluster did not become ready.
    NetworkReadiness { source: String },
    /// The cluster was closed.
    Closed,
}

impl ManualClusterError {
    /// The human-readable message of the error.
    pub open spec fn message_view(&self) -> Seq<char> {
        match self {
            ManualClusterError::UnsupportedTopology { nodes } =>
                "kubernetes runner requires at least one node (nodes="@ + decimal(*nodes as nat) + ")"@,
            ManualClusterError::InvalidClusterName { name } =>
                "invalid k8s cluster name '"@ + name@
                    + "'; use a short lowercase DNS label (letters, digits, and dashes)"@,
            ManualClusterError::ClientInit { source } =>
                "failed to initialise kubernetes client: "@ + source@,
            ManualClusterError::Assets { source } => "failed to prepare k8s assets: "@ + source@,
            ManualClusterError::InstallStack { source } => "failed to install k8s stack: "@ + source@,
            ManualClusterError::CfgsyncUpdate { name, source } =>
                "failed to update cfgsync artifacts for '"@ + name@ + "': "@ + source@,
            ManualClusterError::NodePorts(e) => e.message_view(),
            ManualClusterError::UnsupportedStartOptions { message } =>
                "unsupported start options for k8s manual cluster: "@ + message@,
            ManualClusterError::InvalidNodeName { name } =>
                "invalid node name '"@ + name@ + "'; expected node-<index>"@,
            ManualClusterError::NodeIndexOutOfRange { index, nodes } =>
                "node index "@ + decimal(*index as nat) + " is out of range for topology with "@
                    + decimal(*nodes as nat) + " nodes"@,
            ManualClusterError::NodeAlreadyRunning { name } => "node '"@ + name@ + "' is already running"@,
            ManualClusterError::NodeNotRunning { name } => "node '"@ + name@ + "' is not running"@,
            ManualClusterError::PatchDeployment { name, source } =>
                "failed to patch deployment "@ + name@ + ": "@ + source@,
            ManualClusterError::ReplicaScaleTimeout { name, replicas } =>
                "node '"@ + name@ + "' did not reach "@ + signed_decimal(*replicas as int)
                    + " replicas before the scale timeout"@,
            ManualClusterError::DeletePods { name, source } =>
                "failed to delete pods for deployment "@ + name@ + ": "@ + source@,
            ManualClusterError::NodeClient { name, source } =>
                "failed to discover node client for '"@ + name@ + "': "@ + source@,
            ManualClusterError::NodeReadiness { name, source } =>
                "node readiness failed for '"@ + name@ + "': "@ + source@,
            ManualClusterError::NetworkReadiness { source } =>
                "cluster network readiness failed: "@ + source@,
            ManualClusterError::Closed => "k8s manual cluster is no longer owned by an active run"@,
        }
    }

    /// The human-readable message of the error.
    pub fn message(&self) -> (r: String)
        ensures
            r@ == self.message_view(),
    {
        match self {
            ManualClusterError::UnsupportedTopology { nodes } => {
                let mut r = owned("kubernetes runner requires at least one node (nodes=");
                r.append(u64_to_decimal(*nodes as u64).as_str());
                r.append(")");
                r
            },
            ManualClusterError::InvalidClusterName { name } => {
                let mut r = owned("invalid k8s cluster name '");
                r.append(name.as_str());
                r.append("'; use a short lowercase DNS label (letters, digits, and dashes)");
                r
            },
            ManualClusterError::ClientInit { source } => {
                let mut r = owned("failed to initialise kubernetes client: ");
                r.append(source.as_str());
                r
            },
            ManualClusterError::Assets { source } => {
                let mut r = owned("failed to prepare k8s assets: ");
                r.append(source.as_str());
                r
            },
            ManualClusterError::InstallStack { source } => {
                let mut r = owned("failed to install k8s stack: ");
                r.append(source.as_str());
                r
            },
            ManualClusterError::CfgsyncUpdate { name, source } => {
                let mut r = owned("failed to update cfgsync artifacts for '");
                r.append(name.as_str());
                r.append("': ");
                r.append(source.as_str());
                r
            },
            ManualClusterError::NodePorts(e) => e.message(),
            ManualClusterError::UnsupportedStartOptions { message } => {
                let mut r = owned("unsupported start options for k8s manual cluster: ");
                r.append(message.as_str());
                r
            },
            ManualClusterError::InvalidNodeName { name } => {
                let mut r = owned("invalid node name '");
                r.append(name.as_str());
                r.append("'; expected node-<index>");
                r
            },
            ManualClusterError::NodeIndexOutOfRange { index, nodes } => {
                let mut r = owned("node index ");
                r.append(u64_to_decimal(*index as u64).as_str());
                r.append(" is out of range for topology with ");
                r.append(u64_to_decimal(*nodes as u64).as_str());
                r.append(" nodes");
                r
            },
            ManualClusterError::NodeAlreadyRunning { name } => {
                let mut r = owned("node '");
                r.append(name.as_str());
                r.append("' is already running");
                r
            },
            ManualClusterError::NodeNotRunning { name } => {
                let mut r = owned("node '");
                r.append(name.as_str());
                r.append("' is not running");
                r
            },
            ManualClusterError::PatchDeployment { name, source } => {
                let mut r = owned("failed to patch deployment ");
                r.append(name.as_str());
                r.append(": ");
                r.append(source.as_str());
                r
            },
            ManualClusterError::ReplicaScaleTimeout { name, replicas } => {
                let mut r = owned("node '");
                r.append(name.as_str());
                r.append("' did not reach ");
                r.append(i64_to_decimal(*replicas as i64).as_str());
                r.append(" replicas before the scale timeout");
                r
            },
            ManualClusterError::DeletePods { name, source } => {
                let mut r = owned("failed to delete pods for deployment ");
                r.append(name.as_str());
                r.append(": ");
                r.append(source.as_str());
                r
            },
            ManualClusterError::NodeClient { name, source } => {
                let mut r = owned("failed to discover node client for '");
                r.append(name.as_str());
                r.append("': ");
                r.append(source.as_str());
                r
            },
            ManualClusterError::NodeReadiness { name, source } => {
                let mut r = owned("node readiness failed for '");
                r.append(name.as_str());
                r.append("': ");
                r.append(source.as_str());
                r
            },
            ManualClusterError::NetworkReadiness { source } => {
                let mut r = owned("cluster network readiness failed: ");
                r.append(source.as_str());
                r
            },
            ManualClusterError::Closed => owned("k8s manual cluster is no longer owned by an active run"),
        }
    }
}

/// The canonical name `node-<index>` of a node.
pub open spec fn node_name(index: nat) -> Seq<char> {
    "node-"@ + decimal(index)
}

/// The index named by `node-<index>`, when `name` has that form and the
/// index fits in a `usize`.
pub open spec fn node_index(name: Seq<char>) -> Option<nat> {
    match strip_prefix(name, "node-"@) {
        Some(rest) => parse_unsigned(rest, usize::MAX as nat),
        None => None,
    }
}

/// Formats the canonical `node-<index>` name for a node index.
pub fn canonical_node_name(index: usize) -> (r: String)
    ensures
        r@ == node_name(index as nat),
{
    let mut r = owned("node-");
    r.append(u64_to_decimal(index as u64).as_str());
    r
}

/// Parses a canonical `node-<index>` name into its index.
pub fn parse_node_index(name: &str) -> (r: Option<usize>)
    ensures
        r matches Some(i) ==> node_index(name@) == Some(i as nat),
        r is None ==> node_index(name@) is None,
{
    match strip_prefix_str(name, "node-") {
        Some(rest) => {
            match parse_unsigned_exec(rest.as_str(), usize::MAX as u64) {
                Some(v) => Some(v as usize),
                None => None,
            }
        },
        None => None,
    }
}

/// The canonical name of a node parses back to its index.
pub proof fn lemma_node_name_round_trip(index: usize)
    ensures
        node_index(node_name(index as nat)) == Some(index as nat),
{
    let name = node_name(index as nat);
    reveal_strlit("node-");
    assert(name.take(5) =~= "node-"@);
    assert(name.skip(5) =~= decimal(index as nat));
    lemma_parse_decimal(index as nat, usize::MAX as nat);
}

/// Whether `c` may stand in a DNS label: a lowercase ASCII letter, a
/// digit, or a dash.
pub open spec fn is_label_char(c: char) -> bool {
    ('a' <= c && c <= 'z') || ('0' <= c && c <= '9') || c == '-'
}

/// Whether `name` is a DNS label: one to 63 lowercase letters, digits and
/// dashes that neither starts nor ends with a dash.
pub open spec fn is_dns_label(name: Seq<char>) -> bool {
    &&& 1 <= name.len() <= 63
    &&& forall|i: int| 0 <= i < name.len() ==> is_label_char(#[trigger] name[i])
    &&& name[0] != '-'
    &&& name.last() != '-'
}

/// Whether a cluster name is usable as a Kubernetes namespace and release
/// name.
pub fn is_valid_cluster_name(name: &str) -> (r: bool)
    ensures
        r == is_dns_label(name@),
{
    let v = str_chars(name);
    if v.len() == 0 || v.len() > 63 {
        return false;
    }
    let mut i: usize = 0;
    while i < v.len()
        invariant
            i <= v.len(),
            v@ == name@,
            forall|k: int| 0 <= k < i ==> is_label_char(#[trigger] v@[k]),
        decreases v.len() - i,
    {
        let c = v[i];
        if !(('a' <= c && c <= 'z') || ('0' <= c && c <= '9') || c == '-') {
            assert(!is_label_char(v@[i as int]));
            return false;
        }
        i = i + 1;
    }
    v[0] != '-' && v[v.len() - 1] != '-'
}

/// Checks the inputs of provisioning before any Kubernetes access: the
/// topology must have a node and a requested cluster name must be a DNS
/// label.
pub fn validate_provision_request(nodes: usize, cluster_name: Option<&str>) -> (r: Result<(), ManualClusterError>)
    ensures
        nodes == 0 ==> r == Err::<(), ManualClusterError>(ManualClusterError::UnsupportedTopology { nodes }),
        nodes > 0 ==> match cluster_name {
            Some(name) => if is_dns_label(name@) {
                r is Ok
            } else {
                r matches Err(ManualClusterError::InvalidClusterName { name: n }) && n@ == name@
            },
            None => r is Ok,
        },
{
    if nodes == 0 {
        return Err(ManualClusterError::UnsupportedTopology { nodes });
    }
    match cluster_name {
        Some(name) => {
            if !is_valid_cluster_name(name) {
                return Err(ManualClusterError::InvalidClusterName { name: owned(name) });
            }
            Ok(())
        },
        None => Ok(()),
    }
}

/// The error of start options that ask for something the backend cannot do.
pub open spec fn unsupported_options<T>(r: Result<T, ManualClusterError>, message: Seq<char>) -> bool {
    r matches Err(ManualClusterError::UnsupportedStartOptions { message: m }) && m@ == message
}

/// Rejects start options that name directories: a pod's storage is fixed by
/// its deployment.
pub fn validate_start_options(options: &StartNodeOptions) -> (r: Result<(), ManualClusterError>)
    ensures
        (options.persist_dir is Some || options.snapshot_dir is Some) ==> unsupported_options(
            r,
            "persist/snapshot directories are not supported"@,
        ),
        (options.persist_dir is None && options.snapshot_dir is None) ==> r is Ok,
{
    if options.persist_dir.is_some() || options.snapshot_dir.is_some() {
        return Err(
            ManualClusterError::UnsupportedStartOptions {
                message: owned("persist/snapshot directories are not supported"),
            },
        );
    }
    Ok(())
}

/// Rejects restart options the backend cannot honor: a restarted pod is
/// relaunched with the container arguments and timeouts of its deployment.
pub fn validate_restart_options(options: &StartNodeOptions) -> (r: Result<(), ManualClusterError>)
    ensures
        (options.persist_dir is Some || options.snapshot_dir is Some) ==> unsupported_options(
            r,
            "persist/snapshot directories are not supported"@,
        ),
        (options.persist_dir is None && options.snapshot_dir is None && options.args@.len() > 0)
            ==> unsupported_options(r, "extra process arguments are not supported on restart"@),
        (options.persist_dir is None && options.snapshot_dir is None && options.args@.len() == 0
            && options.start_timeout_secs is Some) ==> unsupported_options(
            r,
            "start timeout overrides are not supported on restart"@,
        ),
        r is Ok <==> (options.persist_dir is None && options.snapshot_dir is None
            && options.args@.len() == 0 && options.start_timeout_secs is None),
{
    validate_start_options(options)?;
    if options.args.len() > 0 {
        return Err(
            ManualClusterError::UnsupportedStartOptions {
                message: owned("extra process arguments are not supported on restart"),
            },
        );
    }
    if options.start_timeout_secs.is_some() {
        return Err(
            ManualClusterError::UnsupportedStartOptions {
                message: owned("start timeout overrides are not supported on restart"),
            },
        );
    }
    Ok(())
}

/// Accepts only start options that need no cfgsync override: default peers,
/// no configuration override and no configuration patch.
pub fn ensure_default_cfgsync_options(options: &StartNodeOptions) -> (r: Result<(), ManualClusterError>)
    ensures
        (options.default_peers() && options.config_override is None && !options.has_config_patch)
            ==> r is Ok,
        !(options.default_peers() && options.config_override is None && !options.has_config_patch)
            ==> unsupported_options(
            r,
            "cfgsync override support is not configured for these start options"@,
        ),
{
    if options.has_default_peers() && options.config_override.is_none() && !options.has_config_patch {
        return Ok(());
    }
    Err(
        ManualClusterError::UnsupportedStartOptions {
            message: owned("cfgsync override support is not configured for these start options"),
        },
    )
}

/// Whether a deployment has finished scaling down: no ready replica and a
/// desired count of zero (a missing desired count means one).
pub open spec fn scaled_down(ready_replicas: Option<i32>, desired_replicas: Option<i32>) -> bool {
    (match ready_replicas {
        Some(n) => n,
        None => 0,
    }) == 0 && (match desired_replicas {
        Some(n) => n,
        None => 1,
    }) == 0
}

/// One poll of a scale-down: `Ok` once the deployment is scaled down,
/// otherwise the retryable "still running" error for `node_name`.
pub fn scale_down_poll(node_name: &str, ready_replicas: Option<i32>, desired_replicas: Option<i32>) -> (r: Result<(), ManualClusterError>)
    ensures
        scaled_down(ready_replicas, desired_replicas) ==> r is Ok,
        !scaled_down(ready_replicas, desired_replicas) ==> (r matches Err(
            ManualClusterError::NodeAlreadyRunning { name },
        ) && name@ == node_name@),
{
    let ready = match ready_replicas {
        Some(n) => n,
        None => 0,
    };
    let current = match desired_replicas {
        Some(n) => n,
        None => 1,
    };
    if ready == 0 && current == 0 {
        Ok(())
    } else {
        Err(ManualClusterError::NodeAlreadyRunning { name: owned(node_name) })
    }
}

/// Whether an error is the retryable "still running" outcome of a
/// scale-down poll.
pub fn is_retryable_scale_error(error: &ManualClusterError) -> (r: bool)
    ensures
        r == (error is NodeAlreadyRunning),
{
    match error {
        ManualClusterError::NodeAlreadyRunning { .. } => true,
        _ => false,
    }
}

/// The outcome of a scale-down once retries stop: a poll that still saw the
/// node running becomes a scale timeout; any other outcome passes through.
pub fn finish_scale_down(result: Result<(), ManualClusterError>, node_name: &str, replicas: i32) -> (r: Result<(), ManualClusterError>)
    ensures
        result matches Err(ManualClusterError::NodeAlreadyRunning { .. }) ==> (r matches Err(
            ManualClusterError::ReplicaScaleTimeout { name, replicas: n },
        ) && name@ == node_name@ && n == replicas),
        !(result matches Err(ManualClusterError::NodeAlreadyRunning { .. })) ==> r == result,
{
    match result {
        Err(ManualClusterError::NodeAlreadyRunning { .. }) => Err(
            ManualClusterError::ReplicaScaleTimeout { name: owned(node_name), replicas },
        ),
        other => other,
    }
}

/// Milliseconds between the polls of a scale-down.
pub const SCALE_DOWN_POLL_INTERVAL_MS: u64 = 500;

/// Polls of a scale-down that may follow the first one.
pub const SCALE_DOWN_POLL_RETRIES: u32 = 240;

/// How a node's deployment is awaited after its replica count was patched.
#[derive(Clone, Copy, Debug, PartialEq, Eq)]
pub enum ReplicaWait {
    /// Wait for the deployment to become ready.
    UntilReady,
    /// Poll until the deployment is scaled down.
    UntilScaledDown,
}

/// A positive replica count is awaited as readiness, any other as a
/// scale-down.
pub fn replica_wait(replicas: i32) -> (r: ReplicaWait)
    ensures
        replicas > 0 ==> r == ReplicaWait::UntilReady,
        replicas <= 0 ==> r == ReplicaWait::UntilScaledDown,
{
    if replicas > 0 {
        ReplicaWait::UntilReady
    } else {
        ReplicaWait::UntilScaledDown
    }
}

/// What follows a poll of a scale-down.
#[derive(Debug, PartialEq, Eq)]
pub enum ScaleDownStep {
    /// Poll again, as poll number `next`, after the poll interval.
    PollAgain { next: u32 },
    /// The wait is over, with this outcome.
    Finished(Result<(), ManualClusterError>),
}

/// The step after poll number `attempt` (the first is zero) of the
/// scale-down of `node_name` to `replicas` gave `outcome`: a node still
/// running is polled again while retries are left and is otherwise a scale
/// timeout; any other outcome ends the wait as it is.
pub fn scale_down_step(attempt: u32, outcome: Result<(), ManualClusterError>, node_name: &str, replicas: i32) -> (r: ScaleDownStep)
    requires
        attempt <= SCALE_DOWN_POLL_RETRIES,
    ensures
        (outcome matches Err(ManualClusterError::NodeAlreadyRunning { .. })) && attempt < SCALE_DOWN_POLL_RETRIES
            ==> r == (ScaleDownStep::PollAgain { next: (attempt + 1) as u32 }),
        (outcome matches Err(ManualClusterError::NodeAlreadyRunning { .. })) && attempt == SCALE_DOWN_POLL_RETRIES
            ==> (r matches ScaleDownStep::Finished(Err(ManualClusterError::ReplicaScaleTimeout { name, replicas: n })) && name@
            == node_name@ && n == replicas),
        !(outcome matches Err(ManualClusterError::NodeAlreadyRunning { .. })) ==> r == ScaleDownStep::Finished(outcome),
{
    let still_running = match &outcome {
        Err(e) => is_retryable_scale_error(e),
        Ok(()) => false,
    };
    if still_running && attempt < SCALE_DOWN_POLL_RETRIES {
        ScaleDownStep::PollAgain { next: attempt + 1 }
    } else {
        ScaleDownStep::Finished(finish_scale_down(outcome, node_name, replicas))
    }
}

/// The label selector of the node services of a release.
pub open spec fn release_selector(release: Seq<char>) -> Seq<char> {
    "app.kubernetes.io/instance="@ + release
}

/// The abstract state of a manual cluster.
pub struct ManualClusterModel<C> {
    /// Namespace of the release.
    pub namespace: Seq<char>,
    /// Helm release name.
    pub release: Seq<char>,
    /// Host through which the nodes are reached.
    pub node_host: Seq<char>,
    /// Number of nodes of the topology.
    pub node_count: nat,
    /// Service ports of each node.
    pub node_ports: Seq<NodeConfigPorts>,
    /// Whether the cluster was closed.
    pub closed: bool,
    /// Whether each node runs.
    pub running: Seq<bool>,
    /// The client inventory: clients of managed nodes and external clients,
    /// in the order they were added.
    pub clients: Seq<C>,
    /// For each node, the position of its client in the inventory once it
    /// has one.
    pub slots: Seq<Option<usize>>,
    /// For each node, the host ports it is reached through once known.
    pub allocations: Seq<Option<NodePortAllocation>>,
}

impl<C> ManualClusterModel<C> {
    /// The state invariant: per-node tables have one entry per node, every
    /// recorded slot lies in the inventory, and no two nodes share a slot.
    pub open spec fn wf(self) -> bool {
        &&& self.running.len() == self.node_count
        &&& self.slots.len() == self.node_count
        &&& self.allocations.len() == self.node_count
        &&& self.node_ports.len() == self.node_count
        &&& forall|i: int|
            0 <= i < self.node_count && (#[trigger] self.slots[i]) is Some ==> self.slots[i]->0
                < self.clients.len()
        &&& forall|i: int, j: int|
            0 <= i < self.node_count && 0 <= j < self.node_count && i != j && (#[trigger] self.slots[i])
                is Some && (#[trigger] self.slots[j]) is Some ==> self.slots[i]->0 != self.slots[j]->0
    }

    /// The client recorded for node `index`, if any.
    pub open spec fn client_of(self, index: int) -> Option<C> {
        match self.slots[index] {
            Some(slot) => Some(self.clients[slot as int]),
            None => None,
        }
    }

    /// Whether any node has a client in the inventory.
    pub open spec fn any_registered(self) -> bool {
        exists|i: int| 0 <= i < self.slots.len() && (#[trigger] self.slots[i]) is Some
    }
}

/// The state after recording `client` as the client of node `index`: an
/// existing inventory entry of the node is replaced, otherwise the client is
/// appended and its position recorded.
pub open spec fn recorded<C>(m: ManualClusterModel<C>, index: int, client: C) -> ManualClusterModel<C> {
    match m.slots[index] {
        Some(s) => ManualClusterModel { clients: m.clients.update(s as int, client), ..m },
        None => ManualClusterModel {
            clients: m.clients.push(client),
            slots: m.slots.update(index, Some(m.clients.len() as usize)),
            ..m
        },
    }
}

/// The state after appending an external client to the inventory.
pub open spec fn appended<C>(m: ManualClusterModel<C>, client: C) -> ManualClusterModel<C> {
    ManualClusterModel { clients: m.clients.push(client), ..m }
}

/// The state after closing.
pub open spec fn closed_state<C>(m: ManualClusterModel<C>) -> ManualClusterModel<C> {
    ManualClusterModel { closed: true, ..m }
}

/// Recording a node's client keeps the state well formed and makes the
/// client the one found for that node.
pub proof fn lemma_record_then_lookup<C>(m: ManualClusterModel<C>, index: int, client: C)
    requires
        m.wf(),
        0 <= index < m.node_count,
        m.clients.len() < usize::MAX,
    ensures
        recorded(m, index, client).wf(),
        recorded(m, index, client).client_of(index) == Some(client),
{
    let r = recorded(m, index, client);
    if m.slots[index] is None {
        assert forall|i: int, j: int|
            0 <= i < r.node_count && 0 <= j < r.node_count && i != j && (#[trigger] r.slots[i]) is Some
                && (#[trigger] r.slots[j]) is Some implies r.slots[i]->0 != r.slots[j]->0 by {
            if i != index && j != index {
                assert(m.slots[i] is Some && m.slots[j] is Some);
            } else if i == index {
                assert(m.slots[j] is Some);
            } else {
                assert(m.slots[i] is Some);
            }
        }
    }
}

/// Recording the client of one node leaves every other node's client as it
/// was.
pub proof fn lemma_record_keeps_other_nodes<C>(m: ManualClusterModel<C>, index: int, other: int, client: C)
    requires
        m.wf(),
        0 <= index < m.node_count,
        0 <= other < m.node_count,
        index != other,
        m.clients.len() < usize::MAX,
    ensures
        recorded(m, index, client).client_of(other) == m.client_of(other),
{
    if m.slots[index] is Some && m.slots[other] is Some {
        assert(m.slots[index]->0 != m.slots[other]->0);
    }
}

/// A node's client enters the inventory once: the first record of a node
/// appends one entry and any later record of the same node replaces it in
/// place.
pub proof fn lemma_record_appends_once<C>(m: ManualClusterModel<C>, index: int, first: C, second: C)
    requires
        m.wf(),
        0 <= index < m.node_count,
        m.clients.len() + 1 < usize::MAX,
    ensures
        recorded(m, index, first).clients.len() <= m.clients.len() + 1,
        recorded(recorded(m, index, first), index, second).clients.len() == recorded(m, index, first).clients.len(),
        recorded(recorded(m, index, first), index, second).slots == recorded(m, index, first).slots,
        recorded(recorded(m, index, first), index, second).client_of(index) == Some(second),
{
    lemma_record_then_lookup(m, index, first);
    lemma_record_then_lookup(recorded(m, index, first), index, second);
}

/// Appending an external client keeps the state well formed and moves no
/// node's client.
pub proof fn lemma_external_keeps_node_clients<C>(m: ManualClusterModel<C>, client: C, index: int)
    requires
        m.wf(),
        0 <= index < m.node_count,
    ensures
        appended(m, client).wf(),
        appended(m, client).client_of(index) == m.client_of(index),
{
}

/// Closing is final: a closed cluster stays closed, and closing it again
/// changes nothing.
pub proof fn lemma_close_is_final<C>(m: ManualClusterModel<C>)
    ensures
        closed_state(m).closed,
        closed_state(closed_state(m)) == closed_state(m),
{
}

/// The first running node among the first `n` that has no port
/// allocation.
pub open spec fn first_unallocated(running: Seq<bool>, allocations: Seq<Option<NodePortAllocation>>, n: nat) -> Option<nat>
    decreases n,
{
    if n == 0 {
        None
    } else {
        match first_unallocated(running, allocations, (n - 1) as nat) {
            Some(i) => Some(i),
            None => if running[n - 1] && allocations[n - 1] is None {
                Some((n - 1) as nat)
            } else {
                None
            },
        }
    }
}

/// The API host ports of the running nodes among the first `n`, in index
/// order.
pub open spec fn running_api_ports(running: Seq<bool>, allocations: Seq<Option<NodePortAllocation>>, n: nat) -> Seq<u16>
    decreases n,
{
    if n == 0 {
        Seq::empty()
    } else {
        let prev = running_api_ports(running, allocations, (n - 1) as nat);
        if running[n - 1] {
            prev.push(
                match allocations[n - 1] {
                    Some(a) => a.api,
                    None => 0,
                },
            )
        } else {
            prev
        }
    }
}

/// Whether any of the first `n` nodes runs.
pub open spec fn any_running(running: Seq<bool>, n: nat) -> bool {
    exists|i: int| 0 <= i < n && #[trigger] running[i]
}

/// The message of a network readiness wait on a cluster whose nodes all
/// stopped.
pub open spec fn all_stopped_message(node_count: nat) -> Seq<char> {
    "all "@ + decimal(node_count) + " nodes are stopped; no running nodes to await readiness"@
}

/// The message of a node that has no port allocation.
pub open spec fn no_allocation_message() -> Seq<char> {
    "node has no active port-forward allocation"@
}

/// A manual cluster's naming and node bookkeeping. `C` is the type of a
/// node's client.
pub struct ManualCluster<C> {
    namespace: String,
    release: String,
    node_host: String,
    node_count: usize,
    node_ports: Vec<NodeConfigPorts>,
    closed: bool,
    running: Vec<bool>,
    node_clients: Vec<C>,
    inventory_slots: Vec<Option<usize>>,
    node_allocations: Vec<Option<NodePortAllocation>>,
}

impl<C> View for ManualCluster<C> {
    type V = ManualClusterModel<C>;

    closed spec fn view(&self) -> ManualClusterModel<C> {
        ManualClusterModel {
            namespace: self.namespace@,
            release: self.release@,
            node_host: self.node_host@,
            node_count: self.node_count as nat,
            node_ports: self.node_ports@,
            closed: self.closed,
            running: self.running@,
            clients: self.node_clients@,
            slots: self.inventory_slots@,
            allocations: self.node_allocations@,
        }
    }
}

fn repeat_none<T>(n: usize) -> (r: Vec<Option<T>>)
    ensures
        r@.len() == n,
        forall|i: int| 0 <= i < n ==> (#[trigger] r@[i]) is None,
{
    let mut r: Vec<Option<T>> = Vec::new();
    while r.len() < n
        invariant
            r@.len() <= n,
            forall|i: int| 0 <= i < r@.len() ==> (#[trigger] r@[i]) is None,
        decreases n - r@.len(),
    {
        r.push(None);
    }
    r
}

fn repeat_bool(n: usize, b: bool) -> (r: Vec<bool>)
    ensures
        r@.len() == n,
        forall|i: int| 0 <= i < n ==> r@[i] == b,
{
    let mut r: Vec<bool> = Vec::new();
    while r.len() < n
        invariant
            r@.len() <= n,
            forall|i: int| 0 <= i < r@.len() ==> r@[i] == b,
        decreases n - r@.len(),
    {
        r.push(b);
    }
    r
}

impl<C> ManualCluster<C> {
    /// A cluster provisioned with every node scaled down: nothing runs, no
    /// client and no allocation is known, and nodes are reached through
    /// port-forwards on the local host.
    pub fn on_demand(namespace: String, release: String, node_ports: Vec<NodeConfigPorts>) -> (r: Self)
        ensures
            r@.wf(),
            r@.namespace == namespace@,
            r@.release == release@,
            r@.node_host == "127.0.0.1"@,
            r@.node_count == node_ports@.len(),
            r@.node_ports == node_ports@,
            !r@.closed,
            forall|i: int| 0 <= i < r@.node_count ==> !r@.running[i],
            r@.clients.len() == 0,
            forall|i: int| 0 <= i < r@.node_count ==> (#[trigger] r@.slots[i]) is None,
            forall|i: int| 0 <= i < r@.node_count ==> (#[trigger] r@.allocations[i]) is None,
    {
        let n = node_ports.len();
        ManualCluster {
            namespace,
            release,
            node_host: localhost(),
            node_count: n,
            node_ports,
            closed: false,
            running: repeat_bool(n, false),
            node_clients: Vec::new(),
            inventory_slots: repeat_none(n),
            node_allocations: repeat_none(n),
        }
    }

    /// A cluster provisioned with every node started: node `i` runs, is
    /// reached through `allocations[i]` on `node_host`, and its client
    /// `clients[i]` sits at position `i` of the inventory.
    pub fn eager(
        namespace: String,
        release: String,
        node_host: String,
        node_ports: Vec<NodeConfigPorts>,
        allocations: Vec<NodePortAllocation>,
        clients: Vec<C>,
    ) -> (r: Self)
        requires
            allocations@.len() == node_ports@.len(),
            clients@.len() == node_ports@.len(),
        ensures
            r@.wf(),
            r@.namespace == namespace@,
            r@.release == release@,
            r@.node_host == node_host@,
            r@.node_count == node_ports@.len(),
            r@.node_ports == node_ports@,
            !r@.closed,
            forall|i: int| 0 <= i < r@.node_count ==> r@.running[i],
            r@.clients == clients@,
            forall|i: int| 0 <= i < r@.node_count ==> r@.slots[i] == Some(i as usize),
            forall|i: int| 0 <= i < r@.node_count ==> r@.allocations[i] == Some(allocations@[i]),
    {
        let n = node_ports.len();
        let mut slots: Vec<Option<usize>> = Vec::new();
        let mut allocs: Vec<Option<NodePortAllocation>> = Vec::new();
        let mut i: usize = 0;
        while i < n
            invariant
                i <= n,
                n == allocations@.len(),
                slots@.len() == i,
                allocs@.len() == i,
                forall|k: int| 0 <= k < i ==> slots@[k] == Some(k as usize),
                forall|k: int| 0 <= k < i ==> allocs@[k] == Some(allocations@[k]),
            decreases n - i,
        {
            slots.push(Some(i));
            allocs.push(Some(allocations[i]));
            i = i + 1;
        }
        ManualCluster {
            namespace,
            release,
            node_host,
            node_count: n,
            node_ports,
            closed: false,
            running: repeat_bool(n, true),
            node_clients: clients,
            inventory_slots: slots,
            node_allocations: allocs,
        }
    }

    /// Fails once the cluster is closed.
    pub fn ensure_open(&self) -> (r: Result<(), ManualClusterError>)
        ensures
            self@.closed ==> r == Err::<(), ManualClusterError>(ManualClusterError::Closed),
            !self@.closed ==> r is Ok,
    {
        if self.closed {
            return Err(ManualClusterError::Closed);
        }
        Ok(())
    }

    /// Marks the cluster closed. Returns `true` only on the first call: the
    /// caller then stops the nodes, shuts the port-forwards down and runs
    /// the release cleanup.
    pub fn close(&mut self) -> (first: bool)
        ensures
            first == !old(self)@.closed,
            final(self)@ == closed_state(old(self)@),
    {
        if self.closed {
            return false;
        }
        self.closed = true;
        true
    }

    /// Whether the cluster was closed.
    pub fn is_closed(&self) -> (r: bool)
        ensures
            r == self@.closed,
    {
        self.closed
    }

    /// Number of nodes of the topology.
    pub fn node_count(&self) -> (r: usize)
        ensures
            r == self@.node_count,
    {
        self.node_count
    }

    /// Whether nodes are reached through port-forwards on the local host,
    /// whose forwards must be refreshed when a node (re)starts.
    pub fn uses_port_forwards(&self) -> (r: bool)
        ensures
            r == (self@.node_host == "127.0.0.1"@),
    {
        str_eq(self.node_host.as_str(), "127.0.0.1")
    }

    /// Service ports of node `index`.
    pub fn node_service_ports(&self, index: usize) -> (r: NodeConfigPorts)
        requires
            self@.wf(),
            index < self@.node_count,
        ensures
            r == self@.node_ports[index as int],
    {
        self.node_ports[index]
    }

    /// The index of the node named `name`, which must exist in the topology.
    pub fn require_node_index(&self, name: &str) -> (r: Result<usize, ManualClusterError>)
        ensures
            node_index(name@) is None ==> (r matches Err(ManualClusterError::InvalidNodeName { name: n })
                && n@ == name@),
            node_index(name@) matches Some(i) ==> if i < self@.node_count {
                r == Ok::<usize, ManualClusterError>(i as usize)
            } else {
                r == Err::<usize, ManualClusterError>(
                    ManualClusterError::NodeIndexOutOfRange { index: i as usize, nodes: self@.node_count as usize },
                )
            },
    {
        let index = match parse_node_index(name) {
            Some(i) => i,
            None => {
                return Err(ManualClusterError::InvalidNodeName { name: owned(name) });
            },
        };
        if index >= self.node_count {
            return Err(ManualClusterError::NodeIndexOutOfRange { index, nodes: self.node_count });
        }
        Ok(index)
    }

    /// The index of the node named `name`, which must exist and run.
    pub fn require_running_node_index(&self, name: &str) -> (r: Result<usize, ManualClusterError>)
        requires
            self@.wf(),
        ensures
            node_index(name@) is None ==> (r matches Err(ManualClusterError::InvalidNodeName { name: n })
                && n@ == name@),
            node_index(name@) matches Some(i) ==> if i >= self@.node_count {
                r == Err::<usize, ManualClusterError>(
                    ManualClusterError::NodeIndexOutOfRange { index: i as usize, nodes: self@.node_count as usize },
                )
            } else if self@.running[i as int] {
                r == Ok::<usize, ManualClusterError>(i as usize)
            } else {
                r matches Err(ManualClusterError::NodeNotRunning { name: n }) && n@ == node_name(i)
            },
    {
        let index = self.require_node_index(name)?;
        if !self.running[index] {
            return Err(ManualClusterError::NodeNotRunning { name: canonical_node_name(index) });
        }
        Ok(index)
    }

    /// The checks before starting node `name`: the cluster is open, the
    /// options name no directory, the node exists and does not run.
    /// Returns the node's index.
    pub fn begin_start(&self, name: &str, options: &StartNodeOptions) -> (r: Result<usize, ManualClusterError>)
        requires
            self@.wf(),
        ensures
            self@.closed ==> r == Err::<usize, ManualClusterError>(ManualClusterError::Closed),
            !self@.closed && (options.persist_dir is Some || options.snapshot_dir is Some) ==> unsupported_options(
                r,
                "persist/snapshot directories are not supported"@,
            ),
            !self@.closed && options.persist_dir is None && options.snapshot_dir is None ==> {
                &&& node_index(name@) is None ==> (r matches Err(
                    ManualClusterError::InvalidNodeName { name: n },
                ) && n@ == name@)
                &&& node_index(name@) matches Some(i) ==> if i >= self@.node_count {
                    r == Err::<usize, ManualClusterError>(
                        ManualClusterError::NodeIndexOutOfRange { index: i as usize, nodes: self@.node_count as usize },
                    )
                } else if self@.running[i as int] {
                    r matches Err(ManualClusterError::NodeAlreadyRunning { name: n }) && n@ == name@
                } else {
                    r == Ok::<usize, ManualClusterError>(i as usize)
                }
            },
    {
        self.ensure_open()?;
        validate_start_options(options)?;
        let index = self.require_node_index(name)?;
        if self.running[index] {
            return Err(ManualClusterError::NodeAlreadyRunning { name: owned(name) });
        }
        Ok(index)
    }

    /// The checks before restarting node `name`: the cluster is open, the
    /// options are honorable on restart, the node exists and runs. Returns
    /// the node's index.
    pub fn begin_restart(&self, name: &str, options: &StartNodeOptions) -> (r: Result<usize, ManualClusterError>)
        requires
            self@.wf(),
        ensures
            self@.closed ==> r == Err::<usize, ManualClusterError>(ManualClusterError::Closed),
            !self@.closed ==> (validate_restart_spec(*options) matches Some(m) ==> unsupported_options(r, m)),
            !self@.closed && validate_restart_spec(*options) is None ==> {
                &&& node_index(name@) is None ==> (r matches Err(
                    ManualClusterError::InvalidNodeName { name: n },
                ) && n@ == name@)
                &&& node_index(name@) matches Some(i) ==> if i >= self@.node_count {
                    r == Err::<usize, ManualClusterError>(
                        ManualClusterError::NodeIndexOutOfRange { index: i as usize, nodes: self@.node_count as usize },
                    )
                } else if self@.running[i as int] {
                    r == Ok::<usize, ManualClusterError>(i as usize)
                } else {
                    r matches Err(ManualClusterError::NodeNotRunning { name: n }) && n@ == node_name(i)
                }
            },
    {
        self.ensure_open()?;
        validate_restart_options(options)?;
        self.require_running_node_index(name)
    }

    /// The checks before stopping node `name`: the cluster is open and the
    /// node exists and runs. Returns the node's index.
    pub fn begin_stop(&self, name: &str) -> (r: Result<usize, ManualClusterError>)
        requires
            self@.wf(),
        ensures
            self@.closed ==> r == Err::<usize, ManualClusterError>(ManualClusterError::Closed),
            !self@.closed ==> {
                &&& node_index(name@) is None ==> (r matches Err(
                    ManualClusterError::InvalidNodeName { name: n },
                ) && n@ == name@)
                &&& node_index(name@) matches Some(i) ==> if i >= self@.node_count {
                    r == Err::<usize, ManualClusterError>(
                        ManualClusterError::NodeIndexOutOfRange { index: i as usize, nodes: self@.node_count as usize },
                    )
                } else if self@.running[i as int] {
                    r == Ok::<usize, ManualClusterError>(i as usize)
                } else {
                    r matches Err(ManualClusterError::NodeNotRunning { name: n }) && n@ == node_name(i)
                }
            },
    {
        self.ensure_open()?;
        self.require_running_node_index(name)
    }

    /// Records a node's client after a start or restart, replacing the
    /// node's existing entry in the inventory instead of appending a
    /// duplicate.
    pub fn record_node_client(&mut self, index: usize, client: C)
        requires
            old(self)@.wf(),
            index < old(self)@.node_count,
        ensures
            final(self)@.wf(),
            final(self)@ == recorded(old(self)@, index as int, client),
            final(self)@.client_of(index as int) == Some(client),
    {
        let ghost before = self@;
        match self.inventory_slots[index] {
            Some(slot) => {
                replace_at(&mut self.node_clients, slot, client);
            },
            None => {
                let slot = self.node_clients.len();
                replace_at(&mut self.inventory_slots, index, Some(slot));
                self.node_clients.push(client);
                assert forall|i: int, j: int|
                    0 <= i < self@.node_count && 0 <= j < self@.node_count && i != j
                        && (#[trigger] self@.slots[i]) is Some && (#[trigger] self@.slots[j]) is Some
                    implies self@.slots[i]->0 != self@.slots[j]->0 by {
                    if i != index && j != index {
                        assert(before.slots[i] is Some && before.slots[j] is Some);
                    } else if i == index {
                        assert(before.slots[j] is Some);
                    } else {
                        assert(before.slots[i] is Some);
                    }
                }
            },
        }
    }

    /// Appends an external client to the inventory; recorded node slots do
    /// not move.
    pub fn add_external_client(&mut self, client: C)
        requires
            old(self)@.wf(),
        ensures
            final(self)@.wf(),
            final(self)@ == appended(old(self)@, client),
    {
        self.node_clients.push(client);
    }

    /// Marks node `index` running.
    pub fn mark_running(&mut self, index: usize)
        requires
            old(self)@.wf(),
            index < old(self)@.node_count,
        ensures
            final(self)@.wf(),
            final(self)@ == (ManualClusterModel {
                running: old(self)@.running.update(index as int, true),
                ..old(self)@
            }),
    {
        replace_at(&mut self.running, index, true);
    }

    /// Marks node `index` stopped.
    pub fn mark_stopped(&mut self, index: usize)
        requires
            old(self)@.wf(),
            index < old(self)@.node_count,
        ensures
            final(self)@.wf(),
            final(self)@ == (ManualClusterModel {
                running: old(self)@.running.update(index as int, false),
                ..old(self)@
            }),
    {
        replace_at(&mut self.running, index, false);
    }

    /// Records the host ports node `index` is now reached through.
    pub fn set_allocation(&mut self, index: usize, allocation: NodePortAllocation)
        requires
            old(self)@.wf(),
            index < old(self)@.node_count,
        ensures
            final(self)@.wf(),
            final(self)@ == (ManualClusterModel {
                allocations: old(self)@.allocations.update(index as int, Some(allocation)),
                ..old(self)@
            }),
    {
        replace_at(&mut self.node_allocations, index, Some(allocation));
    }

    /// Records that node `index` has no port allocation any more.
    pub fn clear_allocation(&mut self, index: usize)
        requires
            old(self)@.wf(),
            index < old(self)@.node_count,
        ensures
            final(self)@.wf(),
            final(self)@ == (ManualClusterModel {
                allocations: old(self)@.allocations.update(index as int, None),
                ..old(self)@
            }),
    {
        replace_at(&mut self.node_allocations, index, None);
    }

    /// Whether node `index` runs.
    pub fn is_running(&self, index: usize) -> (r: bool)
        requires
            self@.wf(),
            index < self@.node_count,
        ensures
            r == self@.running[index as int],
    {
        self.running[index]
    }

    /// The indices of the running nodes, in increasing order.
    pub fn running_nodes(&self) -> (r: Vec<usize>)
        requires
            self@.wf(),
        ensures
            forall|k: int| 0 <= k < r@.len() ==> (#[trigger] r@[k]) < self@.node_count && self@.running[r@[k] as int],
            forall|i: int| 0 <= i < self@.node_count && #[trigger] self@.running[i] ==> r@.contains(i as usize),
            forall|k: int, l: int| 0 <= k < l < r@.len() ==> r@[k] < r@[l],
    {
        let mut r: Vec<usize> = Vec::new();
        let mut i: usize = 0;
        while i < self.node_count
            invariant
                i <= self.node_count,
                self@.wf(),
                forall|k: int| 0 <= k < r@.len() ==> (#[trigger] r@[k]) < i && self@.running[r@[k] as int],
                forall|m: int| 0 <= m < i && #[trigger] self@.running[m] ==> r@.contains(m as usize),
                forall|k: int, l: int| 0 <= k < l < r@.len() ==> r@[k] < r@[l],
            decreases self.node_count - i,
        {
            if self.running[i] {
                let ghost before = r@;
                r.push(i);
                assert forall|m: int| 0 <= m < i + 1 && #[trigger] self@.running[m] implies r@.contains(m as usize) by {
                    if m < i {
                        assert(before.contains(m as usize));
                        let k = choose|k: int| 0 <= k < before.len() && before[k] == m as usize;
                        assert(r@[k] == m as usize);
                    } else {
                        assert(r@[r@.len() - 1] == m as usize);
                    }
                }
            }
            i = i + 1;
        }
        r
    }

    /// The host ports of node `index`, which must be known.
    pub fn node_allocation(&self, index: usize) -> (r: Result<NodePortAllocation, ManualClusterError>)
        requires
            self@.wf(),
            index < self@.node_count,
        ensures
            self@.allocations[index as int] matches Some(a) ==> r == Ok::<NodePortAllocation, ManualClusterError>(a),
            self@.allocations[index as int] is None ==> (r matches Err(
                ManualClusterError::NodeClient { name, source },
            ) && name@ == node_name(index as nat) && source@ == no_allocation_message()),
    {
        match self.node_allocations[index] {
            Some(a) => Ok(a),
            None => Err(
                ManualClusterError::NodeClient {
                    name: canonical_node_name(index),
                    source: owned("node has no active port-forward allocation"),
                },
            ),
        }
    }

    /// The API host port of node `name` to probe for readiness: the cluster
    /// is open, the node exists and its ports are known.
    pub fn node_readiness_port(&self, name: &str) -> (r: Result<u16, ManualClusterError>)
        requires
            self@.wf(),
        ensures
            self@.closed ==> r == Err::<u16, ManualClusterError>(ManualClusterError::Closed),
            !self@.closed ==> {
                &&& node_index(name@) is None ==> (r matches Err(
                    ManualClusterError::InvalidNodeName { name: n },
                ) && n@ == name@)
                &&& node_index(name@) matches Some(i) ==> if i >= self@.node_count {
                    r == Err::<u16, ManualClusterError>(
                        ManualClusterError::NodeIndexOutOfRange { index: i as usize, nodes: self@.node_count as usize },
                    )
                } else {
                    match self@.allocations[i as int] {
                        Some(a) => r == Ok::<u16, ManualClusterError>(a.api),
                        None => r matches Err(ManualClusterError::NodeClient { name: n, source })
                            && n@ == node_name(i) && source@ == no_allocation_message(),
                    }
                }
            },
    {
        self.ensure_open()?;
        let index = self.require_node_index(name)?;
        let allocation = self.node_allocation(index)?;
        Ok(allocation.api)
    }

    /// The host and ports through which node `name` is reached: the cluster
    /// is open, the node exists and its ports are known.
    pub fn node_access(&self, name: &str) -> (r: Result<(String, NodePortAllocation), ManualClusterError>)
        requires
            self@.wf(),
        ensures
            self@.closed ==> r is Err && r->Err_0 == ManualClusterError::Closed,
            !self@.closed ==> {
                &&& node_index(name@) is None ==> (r matches Err(
                    ManualClusterError::InvalidNodeName { name: n },
                ) && n@ == name@)
                &&& node_index(name@) matches Some(i) ==> if i >= self@.node_count {
                    r is Err && r->Err_0 == ManualClusterError::NodeIndexOutOfRange {
                        index: i as usize,
                        nodes: self@.node_count as usize,
                    }
                } else {
                    match self@.allocations[i as int] {
                        Some(a) => r matches Ok((host, b)) && host@ == self@.node_host && b == a,
                        None => r matches Err(ManualClusterError::NodeClient { name: n, source })
                            && n@ == node_name(i) && source@ == no_allocation_message(),
                    }
                }
            },
    {
        self.ensure_open()?;
        let index = self.require_node_index(name)?;
        let allocation = self.node_allocation(index)?;
        Ok((self.node_host.clone(), allocation))
    }

    /// The client of the node named `name`, once it has one.
    pub fn node_client(&self, name: &str) -> (r: Option<&C>)
        requires
            self@.wf(),
        ensures
            match node_index(name@) {
                Some(i) => if i < self@.node_count {
                    match self@.client_of(i as int) {
                        Some(c) => r matches Some(x) && *x == c,
                        None => r is None,
                    }
                } else {
                    r is None
                },
                None => r is None,
            },
    {
        let index = match parse_node_index(name) {
            Some(i) => i,
            None => {
                return None;
            },
        };
        if index >= self.node_count {
            return None;
        }
        match self.inventory_slots[index] {
            Some(slot) => Some(&self.node_clients[slot]),
            None => None,
        }
    }

    /// Nodes of this backend have no local process id.
    pub fn node_pid(&self, name: &str) -> (r: Option<u32>)
        ensures
            r is None,
    {
        None
    }

    /// The client inventory.
    pub fn node_clients(&self) -> (r: &Vec<C>)
        ensures
            r@ == self@.clients,
    {
        &self.node_clients
    }

    /// The canonical names of all nodes of the topology.
    pub fn node_names(&self) -> (r: Vec<String>)
        ensures
            r@.len() == self@.node_count,
            forall|i: int| 0 <= i < r@.len() ==> (#[trigger] r@[i])@ == node_name(i as nat),
    {
        let mut r: Vec<String> = Vec::new();
        let mut i: usize = 0;
        while i < self.node_count
            invariant
                i <= self.node_count,
                r@.len() == i,
                forall|k: int| 0 <= k < r@.len() ==> (#[trigger] r@[k])@ == node_name(k as nat),
            decreases self.node_count - i,
        {
            r.push(canonical_node_name(i));
            i = i + 1;
        }
        r
    }

    /// The descriptor a later attached run can consume to re-attach to this
    /// release's node services.
    pub fn attachment(&self) -> (r: ExistingCluster)
        ensures
            r.namespace matches Some(ns) && ns@ == self@.namespace,
            r.label_selector matches Some(sel) && sel@ == release_selector(self@.release),
    {
        let mut selector = owned("app.kubernetes.io/instance=");
        selector.append(self.release.as_str());
        ExistingCluster::for_k8s_selector_in_namespace(self.namespace.clone(), selector)
    }

    /// What a network readiness wait has to probe: `Ok(None)` when no node
    /// was ever started, the API host ports of the running nodes in index
    /// order otherwise; an error when the cluster is closed, when a running
    /// node has no port allocation, or when every node stopped after some
    /// had started.
    pub fn network_readiness_ports(&self) -> (r: Result<Option<Vec<u16>>, ManualClusterError>)
        requires
            self@.wf(),
        ensures
            self@.closed ==> r is Err && r->Err_0 == ManualClusterError::Closed,
            !self@.closed ==> match first_unallocated(self@.running, self@.allocations, self@.node_count) {
                Some(i) => r matches Err(ManualClusterError::NodeClient { name, source })
                    && name@ == node_name(i) && source@ == no_allocation_message(),
                None => if any_running(self@.running, self@.node_count) {
                    r matches Ok(Some(ports)) && ports@ == running_api_ports(
                        self@.running,
                        self@.allocations,
                        self@.node_count,
                    )
                } else if self@.any_registered() {
                    r matches Err(ManualClusterError::NetworkReadiness { source })
                        && source@ == all_stopped_message(self@.node_count)
                } else {
                    r matches Ok(None)
                },
            },
    {
        self.ensure_open()?;
        let mut ports: Vec<u16> = Vec::new();
        let mut i: usize = 0;
        while i < self.node_count
            invariant
                i <= self.node_count,
                self@.wf(),
                !self@.closed,
                first_unallocated(self@.running, self@.allocations, i as nat) is None,
                ports@ == running_api_ports(self@.running, self@.allocations, i as nat),
                ports@.len() > 0 <==> any_running(self@.running, i as nat),
            decreases self.node_count - i,
        {
            if self.running[i] {
                match self.node_allocations[i] {
                    Some(a) => {
                        ports.push(a.api);
                    },
                    None => {
                        assert(first_unallocated(self@.running, self@.allocations, (i + 1) as nat) == Some(i as nat));
                        proof {
                            lemma_first_unallocated_stable(self@.running, self@.allocations, (i + 1) as nat, self@.node_count);
                        }
                        return Err(
                            ManualClusterError::NodeClient {
                                name: canonical_node_name(i),
                                source: owned("node has no active port-forward allocation"),
                            },
                        );
                    },
                }
            }
            assert(any_running(self@.running, (i + 1) as nat) <==> (any_running(self@.running, i as nat)
                || self@.running[i as int]));
            i = i + 1;
        }
        if ports.len() > 0 {
            return Ok(Some(ports));
        }
        let mut registered = false;
        let mut k: usize = 0;
        while k < self.node_count
            invariant
                k <= self.node_count,
                self@.wf(),
                registered <==> exists|m: int| 0 <= m < k && (#[trigger] self@.slots[m]) is Some,
            decreases self.node_count - k,
        {
            if self.inventory_slots[k].is_some() {
                registered = true;
            }
            k = k + 1;
        }
        if !registered {
            return Ok(None);
        }
        let mut message = owned("all ");
        message.append(u64_to_decimal(self.node_count as u64).as_str());
        message.append(" nodes are stopped; no running nodes to await readiness");
        Err(ManualClusterError::NetworkReadiness { source: message })
    }
}

/// Once a running node without allocation is found among the first `n`,
/// it stays the first one among more nodes.
proof fn lemma_first_unallocated_stable(
    running: Seq<bool>,
    allocations: Seq<Option<NodePortAllocation>>,
    n: nat,
    m: nat,
)
    requires
        n <= m,
        first_unallocated(running, allocations, n) is Some,
    ensures
        first_unallocated(running, allocations, m) == first_unallocated(running, allocations, n),
    decreases m - n,
{
    if n < m {
        lemma_first_unallocated_stable(running, allocations, n, (m - 1) as nat);
    }
}

/// The spec of restart option validation: the message of the first
/// unsupported option, if any.
pub open spec fn validate_restart_spec(options: StartNodeOptions) -> Option<Seq<char>> {
    if options.persist_dir is Some || options.snapshot_dir is Some {
        Some("persist/snapshot directories are not supported"@)
    } else if options.args@.len() > 0 {
        Some("extra process arguments are not supported on restart"@)
    } else if options.start_timeout_secs is Some {
        Some("start timeout overrides are not supported on restart"@)
    } else {
        None
    }
}

} // verus!
