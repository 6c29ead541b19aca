//! Provisioning a cluster unit on Kubernetes: which control profile a unit
//! gets, whether node control is granted, and how failures are reported.
//! Installing, discovering and connecting are the caller's part.

use vstd::prelude::*;

use crate::k8s::manual::ManualClusterError;
use crate::scenario::{ClusterControlProfile, ClusterSourceKind, ClusterStartMode, ProvisionPlan};
use crate::text::owned;

verus! {

/// The Kubernetes implementation of cluster provisioning.
#[derive(Clone, Copy, Debug, PartialEq, Eq)]
pub struct K8sClusterProvisioner;

/// The control profile of a unit: managed units by their start mode,
/// attached and external units by their source.
pub open spec fn profile_of(source: ClusterSourceKind, start_mode: ClusterStartMode) -> ClusterControlProfile {
    match source {
        ClusterSourceKind::Managed => match start_mode {
            ClusterStartMode::Eager => ClusterControlProfile::FrameworkManaged,
            ClusterStartMode::OnDemand => ClusterControlProfile::ManualControlled,
        },
        ClusterSourceKind::Attached => ClusterControlProfile::ExistingClusterAttached,
        ClusterSourceKind::External => ClusterControlProfile::ExternalUncontrolled,
    }
}

impl K8sClusterProvisioner {
    /// The plan of a unit from `source`: its control profile, and node
    /// control when full control was requested of a managed or attached
    /// unit (external nodes are never controlled).
    pub fn plan(&self, source: ClusterSourceKind, start_mode: ClusterStartMode, full_control: bool) -> (r: ProvisionPlan)
        ensures
            r.profile == profile_of(source, start_mode),
            r.node_control == (full_control && source != ClusterSourceKind::External),
    {
        let profile = match source {
            ClusterSourceKind::Managed => match start_mode {
                ClusterStartMode::Eager => ClusterControlProfile::FrameworkManaged,
                ClusterStartMode::OnDemand => ClusterControlProfile::ManualControlled,
            },
            ClusterSourceKind::Attached => ClusterControlProfile::ExistingClusterAttached,
            ClusterSourceKind::External => ClusterControlProfile::ExternalUncontrolled,
        };
        let node_control = match source {
            ClusterSourceKind::External => false,
            _ => full_control,
        };
        ProvisionPlan { profile, node_control }
    }
}

/// Failures while provisioning a cluster unit.
#[derive(Debug, PartialEq, Eq)]
pub enum K8sClusterProvisionerError {
    /// The manual cluster failed.
    Manual(ManualClusterError),
    /// The observability settings are invalid.
    Observability { source: String },
    /// Discovering the attached cluster failed.
    Attach { source: String },
    /// No client could be built for an external node.
    ExternalNodeClient { name: String, source: String },
    /// Orchestrating the node sources failed.
    Source { source: String },
}

impl K8sClusterProvisionerError {
    /// The human-readable message of the error.
    pub open spec fn message_view(&self) -> Seq<char> {
        match self {
            K8sClusterProvisionerError::Manual(e) => e.message_view(),
            K8sClusterProvisionerError::Observability { source } => source@,
            K8sClusterProvisionerError::Attach { source } => "failed to discover attached k8s cluster: "@ + source@,
            K8sClusterProvisionerError::ExternalNodeClient { name, source } =>
                "failed to build external node client for '"@ + name@ + "': "@ + source@,
            K8sClusterProvisionerError::Source { source } => "source orchestration failed: "@ + source@,
        }
    }

    /// The human-readable message of the error.
    pub fn message(&self) -> (r: String)
        ensures
            r@ == self.message_view(),
    {
        match self {
            K8sClusterProvisionerError::Manual(e) => e.message(),
            K8sClusterProvisionerError::Observability { source } => source.clone(),
            K8sClusterProvisionerError::Attach { source } => {
                let mut r = owned("failed to discover attached k8s cluster: ");
                r.append(source.as_str());
                r
            },
            K8sClusterProvisionerError::ExternalNodeClient { name, source } => {
                let mut r = owned("failed to build external node client for '");
                r.append(name.as_str());
                r.append("': ");
                r.append(source.as_str());
                r
            },
            K8sClusterProvisionerError::Source { source } => {
                let mut r = owned("source orchestration failed: ");
                r.append(source.as_str());
                r
            },
        }
    }
}

} // verus!
