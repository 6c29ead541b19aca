//! Managed Kubernetes deployments: deployment metadata, attach discovery of
//! node services by node port, and node lifecycle control by replica scaling.

pub mod attach_provider;
pub mod node_control;

use vstd::prelude::*;

use crate::k8s::model::ExistingCluster;
use crate::k8s::wait::ClusterWaitError;
use crate::text::{decimal, owned, u64_to_decimal};

verus! {

/// Kubernetes deployment metadata returned by k8s-specific deployment APIs.
#[derive(Debug, PartialEq, Eq)]
pub struct K8sDeploymentMetadata {
    /// Namespace used for this deployment when available.
    pub namespace: Option<String>,
    /// Attach selector used to discover node services.
    pub label_selector: Option<String>,
}

impl Clone for K8sDeploymentMetadata {
    fn clone(&self) -> (r: Self)
        ensures
            r == *self,
    {
        K8sDeploymentMetadata { namespace: self.namespace.clone(), label_selector: self.label_selector.clone() }
    }
}

/// Why deployment metadata cannot name an existing cluster.
#[derive(Clone, Copy, Debug, PartialEq, Eq)]
pub enum K8sMetadataError {
    /// The metadata has no namespace.
    MissingNamespace,
    /// The metadata has no label selector.
    MissingLabelSelector,
}

impl K8sMetadataError {
    /// The human-readable message of the error.
    pub open spec fn message_view(&self) -> Seq<char> {
        match self {
            K8sMetadataError::MissingNamespace => "k8s deployment metadata has no namespace"@,
            K8sMetadataError::MissingLabelSelector => "k8s deployment metadata has no label selector"@,
        }
    }

    /// The human-readable message of the error.
    pub fn message(&self) -> (r: String)
        ensures
            r@ == self.message_view(),
    {
        match self {
            K8sMetadataError::MissingNamespace => "k8s deployment metadata has no namespace".to_owned(),
            K8sMetadataError::MissingLabelSelector => "k8s deployment metadata has no label selector".to_owned(),
        }
    }
}

/// The text of an optional string, borrowed.
fn opt_str(v: &Option<String>) -> (r: Option<&str>)
    ensures
        r is Some <==> v is Some,
        r matches Some(x) ==> x@ == v->0@,
{
    match v {
        Some(s) => Some(s.as_str()),
        None => None,
    }
}

impl K8sDeploymentMetadata {
    /// Metadata naming the namespace and selector of an attach descriptor,
    /// or nothing without one.
    pub fn from_existing_cluster(cluster: Option<&ExistingCluster>) -> (r: Self)
        ensures
            cluster matches Some(c) ==> r.namespace == c.namespace && r.label_selector == c.label_selector,
            cluster is None ==> r.namespace is None && r.label_selector is None,
    {
        match cluster {
            Some(c) => K8sDeploymentMetadata { namespace: c.k8s_namespace(), label_selector: c.k8s_label_selector() },
            None => K8sDeploymentMetadata { namespace: None, label_selector: None },
        }
    }

    /// Returns namespace when deployment is bound to a specific namespace.
    pub fn namespace(&self) -> (r: Option<&str>)
        ensures
            r is Some <==> self.namespace is Some,
            r matches Some(x) ==> x@ == self.namespace->0@,
    {
        opt_str(&self.namespace)
    }

    /// Returns attach label selector when available.
    pub fn label_selector(&self) -> (r: Option<&str>)
        ensures
            r is Some <==> self.label_selector is Some,
            r matches Some(x) ==> x@ == self.label_selector->0@,
    {
        opt_str(&self.label_selector)
    }

    /// Builds an existing-cluster descriptor for the same k8s deployment
    /// scope; both the namespace and the selector are required.
    pub fn existing_cluster(&self) -> (r: Result<ExistingCluster, K8sMetadataError>)
        ensures
            self.namespace is None ==> r == Err::<ExistingCluster, K8sMetadataError>(K8sMetadataError::MissingNamespace),
            self.namespace is Some && self.label_selector is None ==> r == Err::<ExistingCluster, K8sMetadataError>(
                K8sMetadataError::MissingLabelSelector,
            ),
            self.namespace is Some && self.label_selector is Some ==> r == Ok::<ExistingCluster, K8sMetadataError>(
                ExistingCluster { namespace: self.namespace, label_selector: self.label_selector },
            ),
    {
        let namespace = match &self.namespace {
            Some(ns) => ns.clone(),
            None => {
                return Err(K8sMetadataError::MissingNamespace);
            },
        };
        let label_selector = match &self.label_selector {
            Some(sel) => sel.clone(),
            None => {
                return Err(K8sMetadataError::MissingLabelSelector);
            },
        };
        Ok(ExistingCluster::for_k8s_selector_in_namespace(namespace, label_selector))
    }

    /// Same as [`Self::existing_cluster`].
    pub fn attach_source(&self) -> (r: Result<ExistingCluster, K8sMetadataError>)
        ensures
            self.namespace is None ==> r == Err::<ExistingCluster, K8sMetadataError>(K8sMetadataError::MissingNamespace),
            self.namespace is Some && self.label_selector is None ==> r == Err::<ExistingCluster, K8sMetadataError>(
                K8sMetadataError::MissingLabelSelector,
            ),
            self.namespace is Some && self.label_selector is Some ==> r == Ok::<ExistingCluster, K8sMetadataError>(
                ExistingCluster { namespace: self.namespace, label_selector: self.label_selector },
            ),
    {
        self.existing_cluster()
    }
}

/// High-level failures of a Kubernetes deployment, as the scenario harness
/// sees them. Failures of the cluster environment, readiness, node clients
/// and telemetry carry the message of their cause.
#[derive(Debug, PartialEq, Eq)]
pub enum K8sRunnerError {
    /// The topology has no node.
    UnsupportedTopology { nodes: usize },
    /// The Kubernetes client could not be created.
    ClientInit { source: String },
    /// The chart assets could not be prepared.
    Assets { source: String },
    /// The Helm release could not be installed.
    InstallStack { source: String },
    /// Setting up the cluster environment failed.
    ClusterEnvironment { message: String },
    /// Waiting for the cluster failed.
    Cluster(ClusterWaitError),
    /// The remote readiness checks failed.
    Readiness { message: String },
    /// Building the node clients failed.
    NodeClients { message: String },
    /// Setting up telemetry failed.
    Telemetry { message: String },
    /// An internal invariant does not hold.
    InternalInvariant { message: String },
    /// No node client is available to feed block data.
    BlockFeedMissing,
    /// No node client is available at run time.
    RuntimePreflight,
    /// Orchestrating the node sources failed.
    SourceOrchestration { source: String },
    /// The block feed could not be initialized.
    BlockFeed { source: String },
}

impl K8sRunnerError {
    /// The human-readable message of the error.
    pub open spec fn message_view(&self) -> Seq<char> {
        match self {
            K8sRunnerError::UnsupportedTopology { nodes } =>
                "kubernetes runner requires at least one node (nodes="@ + decimal(*nodes as nat) + ")"@,
            K8sRunnerError::ClientInit { source } => "failed to initialise kubernetes client: "@ + source@,
            K8sRunnerError::Assets { source } => "failed to prepare k8s assets: "@ + source@,
            K8sRunnerError::InstallStack { source } => "failed to install k8s stack: "@ + source@,
            K8sRunnerError::ClusterEnvironment { message } => message@,
            K8sRunnerError::Cluster(e) => e.message_view(),
            K8sRunnerError::Readiness { message } => message@,
            K8sRunnerError::NodeClients { message } => message@,
            K8sRunnerError::Telemetry { message } => message@,
            K8sRunnerError::InternalInvariant { message } => "internal invariant violated: "@ + message@,
            K8sRunnerError::BlockFeedMissing => "k8s runner requires at least one node client for feed data"@,
            K8sRunnerError::RuntimePreflight => "runtime preflight failed: no node clients available"@,
            K8sRunnerError::SourceOrchestration { source } => "source orchestration failed: "@ + source@,
            K8sRunnerError::BlockFeed { source } => "failed to initialize feed: "@ + source@,
        }
    }

    /// The human-readable message of the error.
    pub fn message(&self) -> (r: String)
        ensures
            r@ == self.message_view(),
    {
        match self {
            K8sRunnerError::UnsupportedTopology { nodes } => {
                let mut r = owned("kubernetes runner requires at least one node (nodes=");
                r.append(u64_to_decimal(*nodes as u64).as_str());
                r.append(")");
                r
            },
            K8sRunnerError::ClientInit { source } => {
                let mut r = owned("failed to initialise kubernetes client: ");
                r.append(source.as_str());
                r
            },
            K8sRunnerError::Assets { source } => {
                let mut r = owned("failed to prepare k8s assets: ");
                r.append(source.as_str());
                r
            },
            K8sRunnerError::InstallStack { source } => {
                let mut r = owned("failed to install k8s stack: ");
                r.append(source.as_str());
                r
            },
            K8sRunnerError::ClusterEnvironment { message } => message.clone(),
            K8sRunnerError::Cluster(e) => e.message(),
            K8sRunnerError::Readiness { message } => message.clone(),
            K8sRunnerError::NodeClients { message } => message.clone(),
            K8sRunnerError::Telemetry { message } => message.clone(),
            K8sRunnerError::InternalInvariant { message } => {
                let mut r = owned("internal invariant violated: ");
                r.append(message.as_str());
                r
            },
            K8sRunnerError::BlockFeedMissing => owned("k8s runner requires at least one node client for feed data"),
            K8sRunnerError::RuntimePreflight => owned("runtime preflight failed: no node clients available"),
            K8sRunnerError::SourceOrchestration { source } => {
                let mut r = owned("source orchestration failed: ");
                r.append(source.as_str());
                r
            },
            K8sRunnerError::BlockFeed { source } => {
                let mut r = owned("failed to initialize feed: ");
                r.append(source.as_str());
                r
            },
        }
    }
}

/// A deployment needs at least one node.
pub fn ensure_supported_topology(nodes: usize) -> (r: Result<(), K8sRunnerError>)
    ensures
        nodes == 0 ==> r == Err::<(), K8sRunnerError>(K8sRunnerError::UnsupportedTopology { nodes: 0 }),
        nodes > 0 ==> r is Ok,
{
    if nodes == 0 {
        return Err(K8sRunnerError::UnsupportedTopology { nodes });
    }
    Ok(())
}

/// A run needs at least one node client.
pub fn ensure_non_empty_node_clients(client_count: usize) -> (r: Result<(), K8sRunnerError>)
    ensures
        client_count == 0 ==> r == Err::<(), K8sRunnerError>(K8sRunnerError::RuntimePreflight),
        client_count > 0 ==> r is Ok,
{
    if client_count == 0 {
        return Err(K8sRunnerError::RuntimePreflight);
    }
    Ok(())
}

/// Deploys a scenario into Kubernetes.
#[derive(Clone, Copy, Debug, PartialEq, Eq)]
pub struct K8sDeployer {
    /// Whether readiness probes run before workloads get control.
    pub readiness_checks: bool,
}

impl K8sDeployer {
    /// A deployer with readiness checks enabled.
    pub fn new() -> (r: Self)
        ensures
            r.readiness_checks,
    {
        K8sDeployer { readiness_checks: true }
    }

    /// Enables or disables the readiness probes.
    pub fn with_readiness(self, enabled: bool) -> (r: Self)
        ensures
            r.readiness_checks == enabled,
    {
        K8sDeployer { readiness_checks: enabled }
    }

    /// Whether a deployment waits for readiness: both the deployer and the
    /// scenario's deployment policy must want it.
    pub fn readiness_enabled(&self, policy_readiness: bool) -> (r: bool)
        ensures
            r == (self.readiness_checks && policy_readiness),
    {
        self.readiness_checks && policy_readiness
    }
}

/// How an observability endpoint appears in logs: its URL, or `<disabled>`.
pub fn endpoint_or_disabled(endpoint: Option<&str>) -> (r: String)
    ensures
        endpoint matches Some(u) ==> r@ == u@,
        endpoint is None ==> r@ == "<disabled>"@,
{
    match endpoint {
        Some(u) => owned(u),
        None => owned("<disabled>"),
    }
}

} // verus!
