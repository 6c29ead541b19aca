//! Node lifecycle control for a framework-managed deployment: nodes are
//! stopped and started by patching their per-node deployment replicas, and
//! are addressed by their canonical `node-<index>` names. This module holds
//! the checks and the running-set bookkeeping; the caller patches the
//! deployments and probes readiness.

use std::collections::HashSet;

use vstd::prelude::*;

use crate::k8s::manual::{canonical_node_name, node_index, node_name, parse_node_index};
use crate::scenario::StartNodeOptions;
use crate::text::{decimal, owned, u64_to_decimal};

verus! {

broadcast use vstd::std_specs::hash::group_hash_axioms;

/// Failures while controlling nodes of a managed deployment.
#[derive(Debug, PartialEq, Eq)]
pub enum K8sNodeControlError {
    /// The node name did not match the canonical `node-<index>` form.
    InvalidNodeName { name: String },
    /// The node index exceeds the deployed topology.
    NodeIndexOutOfRange { index: usize, nodes: usize },
    /// Start was requested for a node that is running.
    NodeAlreadyRunning { name: String },
    /// Restart/stop was requested for a node that is not running.
    NodeNotRunning { name: String },
    /// The provided start options cannot be honored by this handle.
    UnsupportedStartOptions { message: String },
    /// Patching the node deployment replicas failed.
    Scale { name: String, source: String },
    /// The node did not become ready after starting.
    NodeReadiness { name: String, source: String },
    /// Rebuilding the node API client failed.
    NodeClient { name: String, source: String },
    /// Respawning the node's port-forwards after a lifecycle operation failed.
    Forward { name: String, source: String },
}

impl K8sNodeControlError {
    /// The human-readable message of the error.
    pub open spec fn message_view(&self) -> Seq<char> {
        match self {
            K8sNodeControlError::InvalidNodeName { name } =>
                "invalid node name '"@ + name@ + "'; expected node-<index>"@,
            K8sNodeControlError::NodeIndexOutOfRange { index, nodes } =>
                "node index "@ + decimal(*index as nat) + " is out of range for topology with "@
                    + decimal(*nodes as nat) + " nodes"@,
            K8sNodeControlError::NodeAlreadyRunning { name } => "node '"@ + name@ + "' is already running"@,
            K8sNodeControlError::NodeNotRunning { name } => "node '"@ + name@ + "' is not running"@,
            K8sNodeControlError::UnsupportedStartOptions { message } =>
                "unsupported start options for managed k8s node control: "@ + message@,
            K8sNodeControlError::Scale { name, source } =>
                "failed to scale node '"@ + name@ + "': "@ + source@,
            K8sNodeControlError::NodeReadiness { name, source } =>
                "node readiness failed for '"@ + name@ + "': "@ + source@,
            K8sNodeControlError::NodeClient { name, source } =>
                "failed to build node client for '"@ + name@ + "': "@ + source@,
            K8sNodeControlError::Forward { name, source } =>
                "failed to re-establish port-forwards for '"@ + name@ + "': "@ + source@,
        }
    }

    /// The human-readable message of the error.
    pub fn message(&self) -> (r: String)
        ensures
            r@ == self.message_view(),
    {
        match self {
            K8sNodeControlError::InvalidNodeName { name } => {
                let mut r = owned("invalid node name '");
                r.append(name.as_str());
                r.append("'; expected node-<index>");
                r
            },
            K8sNodeControlError::NodeIndexOutOfRange { index, nodes } => {
                let mut r = owned("node index ");
                r.append(u64_to_decimal(*index as u64).as_str());
                r.append(" is out of range for topology with ");
                r.append(u64_to_decimal(*nodes as u64).as_str());
                r.append(" nodes");
                r
            },
            K8sNodeControlError::NodeAlreadyRunning { name } => {
                let mut r = owned("node '");
                r.append(name.as_str());
                r.append("' is already running");
                r
            },
            K8sNodeControlError::NodeNotRunning { name } => {
                let mut r = owned("node '");
                r.append(name.as_str());
                r.append("' is not running");
                r
            },
            K8sNodeControlError::UnsupportedStartOptions { message } => {
                let mut r = owned("unsupported start options for managed k8s node control: ");
                r.append(message.as_str());
                r
            },
            K8sNodeControlError::Scale { name, source } => {
                let mut r = owned("failed to scale node '");
                r.append(name.as_str());
                r.append("': ");
                r.append(source.as_str());
                r
            },
            K8sNodeControlError::NodeReadiness { name, source } => {
                let mut r = owned("node readiness failed for '");
                r.append(name.as_str());
                r.append("': ");
                r.append(source.as_str());
                r
            },
            K8sNodeControlError::NodeClient { name, source } => {
                let mut r = owned("failed to build node client for '");
                r.append(name.as_str());
                r.append("': ");
                r.append(source.as_str());
                r
            },
            K8sNodeControlError::Forward { name, source } => {
                let mut r = owned("failed to re-establish port-forwards for '");
                r.append(name.as_str());
                r.append("': ");
                r.append(source.as_str());
                r
            },
        }
    }
}

/// The message of the first start option this handle cannot honor, if any.
pub open spec fn unsupported_start_option(options: StartNodeOptions) -> Option<Seq<char>> {
    if options.persist_dir is Some || options.snapshot_dir is Some {
        Some("persist/snapshot directories are not supported"@)
    } else if !options.default_peers() || options.config_override is Some || options.has_config_patch {
        Some("config overrides are not supported by managed k8s node control; use a ManualCluster"@)
    } else if options.args@.len() > 0 {
        Some("extra process arguments are not supported by managed k8s node control"@)
    } else if options.start_timeout_secs is Some {
        Some("start timeout overrides are not supported by managed k8s node control"@)
    } else {
        None
    }
}

/// Rejects every non-default start option: this handle can only re-launch a
/// node exactly as it was deployed.
pub fn ensure_default_start_options(options: &StartNodeOptions) -> (r: Result<(), K8sNodeControlError>)
    ensures
        unsupported_start_option(*options) is None ==> r is Ok,
        unsupported_start_option(*options) matches Some(m) ==> (r matches Err(
            K8sNodeControlError::UnsupportedStartOptions { message },
        ) && message@ == m),
{
    if options.persist_dir.is_some() || options.snapshot_dir.is_some() {
        return Err(
            K8sNodeControlError::UnsupportedStartOptions {
                message: owned("persist/snapshot directories are not supported"),
            },
        );
    }
    if !options.has_default_peers() || options.config_override.is_some() || options.has_config_patch {
        return Err(
            K8sNodeControlError::UnsupportedStartOptions {
                message: owned("config overrides are not supported by managed k8s node control; use a ManualCluster"),
            },
        );
    }
    if options.args.len() > 0 {
        return Err(
            K8sNodeControlError::UnsupportedStartOptions {
                message: owned("extra process arguments are not supported by managed k8s node control"),
            },
        );
    }
    if options.start_timeout_secs.is_some() {
        return Err(
            K8sNodeControlError::UnsupportedStartOptions {
                message: owned("start timeout overrides are not supported by managed k8s node control"),
            },
        );
    }
    Ok(())
}

/// Succeeds when node `index` is in the running set.
pub fn ensure_node_running(running: &HashSet<usize>, index: usize) -> (r: Result<(), K8sNodeControlError>)
    ensures
        running@.contains(index) ==> r is Ok,
        !running@.contains(index) ==> (r matches Err(K8sNodeControlError::NodeNotRunning { name })
            && name@ == node_name(index as nat)),
{
    if running.contains(&index) {
        return Ok(());
    }
    Err(K8sNodeControlError::NodeNotRunning { name: canonical_node_name(index) })
}

/// The error of a node name that does not name a node of a topology with
/// `nodes` nodes, or `None` when it does.
pub open spec fn node_name_error(name: Seq<char>, nodes: nat, e: K8sNodeControlError) -> bool {
    match node_index(name) {
        None => e matches K8sNodeControlError::InvalidNodeName { name: n } && n@ == name,
        Some(i) => i >= nodes && e == K8sNodeControlError::NodeIndexOutOfRange {
            index: i as usize,
            nodes: nodes as usize,
        },
    }
}

/// The control state of a managed deployment's nodes.
pub struct K8sNodeControl {
    namespace: String,
    release: String,
    node_host: String,
    node_api_ports: Vec<u16>,
    node_auxiliary_ports: Vec<u16>,
    uses_port_forwards: bool,
    running: HashSet<usize>,
}

/// The abstract state of a managed deployment's node control.
pub struct K8sNodeControlModel {
    /// Namespace of the release.
    pub namespace: Seq<char>,
    /// Helm release name.
    pub release: Seq<char>,
    /// Host the nodes are reached through.
    pub node_host: Seq<char>,
    /// API host port of each node.
    pub api_ports: Seq<u16>,
    /// Auxiliary host port of each node.
    pub auxiliary_ports: Seq<u16>,
    /// Whether the nodes are reached through port-forwards, which must be
    /// respawned when a node's pod is replaced.
    pub uses_port_forwards: bool,
    /// Indices of the running nodes.
    pub running: Set<usize>,
}

impl K8sNodeControlModel {
    /// Number of nodes of the topology.
    pub open spec fn node_count(self) -> nat {
        self.api_ports.len()
    }

    /// One auxiliary port per node.
    pub open spec fn wf(self) -> bool {
        self.auxiliary_ports.len() == self.api_ports.len()
    }
}

impl View for K8sNodeControl {
    type V = K8sNodeControlModel;

    closed spec fn view(&self) -> K8sNodeControlModel {
        K8sNodeControlModel {
            namespace: self.namespace@,
            release: self.release@,
            node_host: self.node_host@,
            api_ports: self.node_api_ports@,
            auxiliary_ports: self.node_auxiliary_ports@,
            uses_port_forwards: self.uses_port_forwards,
            running: self.running@,
        }
    }
}

impl K8sNodeControl {
    /// A control handle over the per-node deployments of a managed cluster;
    /// all nodes are assumed to be running.
    pub fn new(
        namespace: String,
        release: String,
        node_host: String,
        node_api_ports: Vec<u16>,
        node_auxiliary_ports: Vec<u16>,
        uses_port_forwards: bool,
    ) -> (r: Self)
        requires
            node_auxiliary_ports@.len() == node_api_ports@.len(),
        ensures
            r@.wf(),
            r@.namespace == namespace@,
            r@.release == release@,
            r@.node_host == node_host@,
            r@.api_ports == node_api_ports@,
            r@.auxiliary_ports == node_auxiliary_ports@,
            r@.uses_port_forwards == uses_port_forwards,
            r@.running == Set::new(|i: usize| i < node_api_ports@.len()),
    {
        let mut running: HashSet<usize> = HashSet::new();
        let n = node_api_ports.len();
        let mut i: usize = 0;
        while i < n
            invariant
                i <= n,
                running@ == Set::new(|k: usize| k < i),
            decreases n - i,
        {
            running.insert(i);
            assert(running@ =~= Set::new(|k: usize| k < i + 1));
            i = i + 1;
        }
        K8sNodeControl {
            namespace,
            release,
            node_host,
            node_api_ports,
            node_auxiliary_ports,
            uses_port_forwards,
            running,
        }
    }

    /// Number of nodes of the topology.
    pub fn node_count(&self) -> (r: usize)
        ensures
            r == self@.node_count(),
    {
        self.node_api_ports.len()
    }

    /// Whether a node's port-forwards must be respawned after its pod is
    /// replaced (not in node-port mode).
    pub fn needs_forward_refresh(&self) -> (r: bool)
        ensures
            r == self@.uses_port_forwards,
    {
        self.uses_port_forwards
    }

    /// Resolves a canonical `node-<index>` name into an in-range index.
    pub fn require_node_index(&self, name: &str) -> (r: Result<usize, K8sNodeControlError>)
        ensures
            r matches Ok(i) ==> node_index(name@) == Some(i as nat) && i < self@.node_count(),
            r matches Err(e) ==> node_name_error(name@, self@.node_count(), e),
            r is Err <==> !(node_index(name@) matches Some(i) && i < self@.node_count()),
    {
        let index = match parse_node_index(name) {
            Some(i) => i,
            None => {
                return Err(K8sNodeControlError::InvalidNodeName { name: owned(name) });
            },
        };
        if index >= self.node_api_ports.len() {
            return Err(K8sNodeControlError::NodeIndexOutOfRange { index, nodes: self.node_api_ports.len() });
        }
        Ok(index)
    }

    /// The checks before a restart, a stop or a readiness wait: the node
    /// exists and runs. Returns its index.
    pub fn require_running(&self, name: &str) -> (r: Result<usize, K8sNodeControlError>)
        ensures
            r matches Ok(i) ==> node_index(name@) == Some(i as nat) && i < self@.node_count()
                && self@.running.contains(i),
            (node_index(name@) matches Some(i) && i < self@.node_count()) ==> {
                let i = node_index(name@)->0 as usize;
                if self@.running.contains(i) {
                    r == Ok::<usize, K8sNodeControlError>(i)
                } else {
                    r matches Err(K8sNodeControlError::NodeNotRunning { name: n }) && n@ == node_name(i as nat)
                }
            },
            !(node_index(name@) matches Some(i) && i < self@.node_count()) ==> (r matches Err(e)
                && node_name_error(name@, self@.node_count(), e)),
    {
        let index = self.require_node_index(name)?;
        ensure_node_running(&self.running, index)?;
        Ok(index)
    }

    /// The checks before a start: the node exists and does not run. Returns
    /// its index.
    pub fn require_stopped(&self, name: &str) -> (r: Result<usize, K8sNodeControlError>)
        ensures
            r matches Ok(i) ==> node_index(name@) == Some(i as nat) && i < self@.node_count()
                && !self@.running.contains(i),
            (node_index(name@) matches Some(i) && i < self@.node_count()) ==> {
                let i = node_index(name@)->0 as usize;
                if self@.running.contains(i) {
                    r matches Err(K8sNodeControlError::NodeAlreadyRunning { name: n }) && n@ == node_name(
                        i as nat,
                    )
                } else {
                    r == Ok::<usize, K8sNodeControlError>(i)
                }
            },
            !(node_index(name@) matches Some(i) && i < self@.node_count()) ==> (r matches Err(e)
                && node_name_error(name@, self@.node_count(), e)),
    {
        let index = self.require_node_index(name)?;
        if self.running.contains(&index) {
            return Err(K8sNodeControlError::NodeAlreadyRunning { name: canonical_node_name(index) });
        }
        Ok(index)
    }

    /// The checks before a start with options: the options are the defaults
    /// (apart from none), then the node exists and does not run.
    pub fn begin_start_with(&self, name: &str, options: &StartNodeOptions) -> (r: Result<usize, K8sNodeControlError>)
        ensures
            unsupported_start_option(*options) matches Some(m) ==> (r matches Err(
                K8sNodeControlError::UnsupportedStartOptions { message },
            ) && message@ == m),
            unsupported_start_option(*options) is None ==> (r matches Ok(i) ==> node_index(name@) == Some(i as nat)
                && i < self@.node_count() && !self@.running.contains(i)),
            unsupported_start_option(*options) is None ==> ((node_index(name@) matches Some(i) && i
                < self@.node_count()) ==> {
                let i = node_index(name@)->0 as usize;
                if self@.running.contains(i) {
                    r matches Err(K8sNodeControlError::NodeAlreadyRunning { name: n }) && n@ == node_name(
                        i as nat,
                    )
                } else {
                    r == Ok::<usize, K8sNodeControlError>(i)
                }
            }),
            unsupported_start_option(*options) is None ==> (!(node_index(name@) matches Some(i) && i
                < self@.node_count()) ==> (r matches Err(e) && node_name_error(name@, self@.node_count(), e))),
    {
        ensure_default_start_options(options)?;
        self.require_stopped(name)
    }

    /// The checks before a restart with options: the options are the
    /// defaults, then the node exists and runs.
    pub fn begin_restart_with(&self, name: &str, options: &StartNodeOptions) -> (r: Result<usize, K8sNodeControlError>)
        ensures
            unsupported_start_option(*options) matches Some(m) ==> (r matches Err(
                K8sNodeControlError::UnsupportedStartOptions { message },
            ) && message@ == m),
            unsupported_start_option(*options) is None ==> (r matches Ok(i) ==> node_index(name@) == Some(i as nat)
                && i < self@.node_count() && self@.running.contains(i)),
            unsupported_start_option(*options) is None ==> ((node_index(name@) matches Some(i) && i
                < self@.node_count()) ==> {
                let i = node_index(name@)->0 as usize;
                if self@.running.contains(i) {
                    r == Ok::<usize, K8sNodeControlError>(i)
                } else {
                    r matches Err(K8sNodeControlError::NodeNotRunning { name: n }) && n@ == node_name(i as nat)
                }
            }),
            unsupported_start_option(*options) is None ==> (!(node_index(name@) matches Some(i) && i
                < self@.node_count()) ==> (r matches Err(e) && node_name_error(name@, self@.node_count(), e))),
    {
        ensure_default_start_options(options)?;
        self.require_running(name)
    }

    /// Records whether node `index` runs, after a successful replica patch.
    pub fn set_running(&mut self, index: usize, is_running: bool)
        ensures
            final(self)@ == (K8sNodeControlModel {
                running: if is_running {
                    old(self)@.running.insert(index)
                } else {
                    old(self)@.running.remove(index)
                },
                ..old(self)@
            }),
    {
        if is_running {
            self.running.insert(index);
        } else {
            self.running.remove(&index);
        }
    }

    /// Whether node `index` runs.
    pub fn is_running(&self, index: usize) -> (r: bool)
        ensures
            r == self@.running.contains(index),
    {
        self.running.contains(&index)
    }

    /// The host and the API and auxiliary host ports node `index` is
    /// reached through, from which its client is rebuilt.
    pub fn node_endpoint(&self, index: usize) -> (r: (String, u16, u16))
        requires
            self@.wf(),
            index < self@.node_count(),
        ensures
            r.0@ == self@.node_host,
            r.1 == self@.api_ports[index as int],
            r.2 == self@.auxiliary_ports[index as int],
    {
        (self.node_host.clone(), self.node_api_ports[index], self.node_auxiliary_ports[index])
    }

    /// The host ports of the node named `name`, when it exists: what a
    /// client for it is built from.
    pub fn node_client_endpoint(&self, name: &str) -> (r: Option<(String, u16, u16)>)
        requires
            self@.wf(),
        ensures
            match node_index(name@) {
                Some(i) => if i < self@.node_count() {
                    r matches Some(e) && e.0@ == self@.node_host && e.1 == self@.api_ports[i as int] && e.2
                        == self@.auxiliary_ports[i as int]
                } else {
                    r is None
                },
                None => r is None,
            },
    {
        match self.require_node_index(name) {
            Ok(index) => Some(self.node_endpoint(index)),
            Err(_) => None,
        }
    }
}

} // verus!
