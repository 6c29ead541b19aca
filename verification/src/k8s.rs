//! Kubernetes deployment: Helm chart values and release bundles, manifest
//! rendering, service discovery for attached clusters, and the node
//! lifecycle bookkeeping of managed and manual clusters.

pub mod attach_provider;
pub mod model;
pub mod deployer;
pub mod wait;
pub mod forwarding;
pub mod manual;
pub mod attached_control;
pub mod cleanup;
pub mod infrastructure;
pub mod env;
pub mod provisioner;
pub mod workspace;
