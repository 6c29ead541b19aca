//! Verified configuration, naming and lifecycle logic for deploying test
//! clusters as local processes or as Helm releases on Kubernetes.

pub mod scenario;
pub mod text;
pub mod named_map;
pub mod k8s;
pub mod local;
