//! Plain-value descriptions of the scenario inputs that the deployers read:
//! how a node is to be started and how a cluster unit is provisioned.

use vstd::prelude::*;

verus! {

/// Which peers a started node is configured with.
#[derive(Debug, PartialEq, Eq)]
pub enum PeerSelection {
    /// The deployment's default peer layout.
    DefaultLayout,
    /// No peers at all.
    Isolated,
    /// The named nodes.
    Named(Vec<String>),
}

/// Options of a node start or restart.
#[derive(Debug, PartialEq, Eq)]
pub struct StartNodeOptions {
    /// Peer selection override.
    pub peers: Option<PeerSelection>,
    /// Replacement node configuration.
    pub config_override: Option<String>,
    /// Whether a configuration patch is attached.
    pub has_config_patch: bool,
    /// Directory whose contents persist across runs.
    pub persist_dir: Option<String>,
    /// Directory copied into the node's working directory before start.
    pub snapshot_dir: Option<String>,
    /// Extra process arguments.
    pub args: Vec<String>,
    /// Readiness timeout override, in seconds.
    pub start_timeout_secs: Option<u64>,
}

impl StartNodeOptions {
    /// Options that change nothing about how a node starts.
    pub fn default() -> (r: Self)
        ensures
            r.is_default(),
    {
        StartNodeOptions {
            peers: None,
            config_override: None,
            has_config_patch: false,
            persist_dir: None,
            snapshot_dir: None,
            args: Vec::new(),
            start_timeout_secs: None,
        }
    }

    /// Whether the options change nothing.
    pub open spec fn is_default(self) -> bool {
        &&& self.peers is None
        &&& self.config_override is None
        &&& !self.has_config_patch
        &&& self.persist_dir is None
        &&& self.snapshot_dir is None
        &&& self.args@.len() == 0
        &&& self.start_timeout_secs is None
    }

    /// Whether the peer selection is the default layout (or unset).
    pub open spec fn default_peers(self) -> bool {
        self.peers is None || self.peers == Some(PeerSelection::DefaultLayout)
    }

    /// Sets the peer selection.
    pub fn with_peers(self, peers: PeerSelection) -> (r: Self)
        ensures
            r == (StartNodeOptions { peers: Some(peers), ..self }),
    {
        StartNodeOptions { peers: Some(peers), ..self }
    }

    /// Sets a replacement configuration.
    pub fn with_config_override(self, config: String) -> (r: Self)
        ensures
            r == (StartNodeOptions { config_override: Some(config), ..self }),
    {
        StartNodeOptions { config_override: Some(config), ..self }
    }

    /// Marks a configuration patch as attached.
    pub fn with_config_patch(self) -> (r: Self)
        ensures
            r == (StartNodeOptions { has_config_patch: true, ..self }),
    {
        StartNodeOptions { has_config_patch: true, ..self }
    }

    /// Sets the persist directory.
    pub fn with_persist_dir(self, dir: String) -> (r: Self)
        ensures
            r == (StartNodeOptions { persist_dir: Some(dir), ..self }),
    {
        StartNodeOptions { persist_dir: Some(dir), ..self }
    }

    /// Sets the snapshot directory.
    pub fn with_snapshot_dir(self, dir: String) -> (r: Self)
        ensures
            r == (StartNodeOptions { snapshot_dir: Some(dir), ..self }),
    {
        StartNodeOptions { snapshot_dir: Some(dir), ..self }
    }

    /// Sets the extra process arguments.
    pub fn with_args(self, args: Vec<String>) -> (r: Self)
        ensures
            r == (StartNodeOptions { args, ..self }),
    {
        StartNodeOptions { args, ..self }
    }

    /// Sets the readiness timeout, in seconds.
    pub fn with_start_timeout_secs(self, secs: u64) -> (r: Self)
        ensures
            r == (StartNodeOptions { start_timeout_secs: Some(secs), ..self }),
    {
        StartNodeOptions { start_timeout_secs: Some(secs), ..self }
    }

    /// Whether the peer selection is the default layout (or unset).
    pub fn has_default_peers(&self) -> (r: bool)
        ensures
            r == self.default_peers(),
    {
        match &self.peers {
            None => true,
            Some(PeerSelection::DefaultLayout) => true,
            Some(_) => false,
        }
    }
}

/// Whether a managed cluster starts all nodes at once or none.
#[derive(Clone, Copy, Debug, PartialEq, Eq)]
pub enum ClusterStartMode {
    /// Every node is started during provisioning.
    Eager,
    /// Nodes are started one by one on request.
    OnDemand,
}

/// Where the nodes of a cluster unit come from.
#[derive(Clone, Copy, Debug, PartialEq, Eq)]
pub enum ClusterSourceKind {
    /// A deployment installed by this run.
    Managed,
    /// An existing deployment discovered by label selector.
    Attached,
    /// Externally run nodes, reached through their endpoints only.
    External,
}

/// Who controls the nodes of a cluster unit.
#[derive(Clone, Copy, Debug, PartialEq, Eq)]
pub enum ClusterControlProfile {
    /// The framework started every node and manages them.
    FrameworkManaged,
    /// The scenario starts and stops nodes itself.
    ManualControlled,
    /// The nodes belong to an existing deployment.
    ExistingClusterAttached,
    /// The nodes are not controlled at all.
    ExternalUncontrolled,
}

/// What a provisioned unit is made of, beyond its nodes.
#[derive(Clone, Copy, Debug, PartialEq, Eq)]
pub struct ProvisionPlan {
    /// Control profile of the unit.
    pub profile: ClusterControlProfile,
    /// Whether the unit carries a node control handle.
    pub node_control: bool,
}

} // verus!
