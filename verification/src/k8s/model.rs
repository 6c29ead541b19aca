//! Plain-value snapshots of the Kubernetes objects that the discovery and
//! readiness logic reads.

use vstd::prelude::*;

verus! {

/// One port of a Kubernetes `Service` (`spec.ports[]`).
#[derive(Debug, PartialEq, Eq)]
pub struct ServicePortInfo {
    /// Port name, when the service names it.
    pub name: Option<String>,
    /// Service port.
    pub port: i32,
    /// Node port allocated for the service port, if any.
    pub node_port: Option<i32>,
    /// Protocol; Kubernetes treats a missing protocol as TCP.
    pub protocol: Option<String>,
}

/// A Kubernetes `Service`, reduced to its name and ports.
#[derive(Debug, PartialEq, Eq)]
pub struct ServiceInfo {
    /// `metadata.name`.
    pub name: Option<String>,
    /// `spec.ports`; `None` when the service has no spec or no ports.
    pub ports: Option<Vec<ServicePortInfo>>,
}

impl Clone for ServicePortInfo {
    fn clone(&self) -> (r: Self)
        ensures
            r == *self,
    {
        ServicePortInfo {
            name: self.name.clone(),
            port: self.port,
            node_port: self.node_port,
            protocol: self.protocol.clone(),
        }
    }
}

/// A copy of a list of service ports.
fn copy_ports(ports: &Vec<ServicePortInfo>) -> (r: Vec<ServicePortInfo>)
    ensures
        r@ == ports@,
{
    let mut out: Vec<ServicePortInfo> = Vec::new();
    let mut i: usize = 0;
    while i < ports.len()
        invariant
            i <= ports.len(),
            out@ == ports@.take(i as int),
        decreases ports.len() - i,
    {
        out.push(ports[i].clone());
        assert(out@ =~= ports@.take(i + 1));
        i = i + 1;
    }
    assert(ports@.take(ports.len() as int) =~= ports@);
    out
}

impl View for ServiceInfo {
    type V = (Option<String>, Seq<ServicePortInfo>);

    /// The name and the port list; a missing list reads as empty.
    open spec fn view(&self) -> Self::V {
        (self.name, self.port_list())
    }
}

impl Clone for ServiceInfo {
    fn clone(&self) -> (r: Self)
        ensures
            r@ == self@,
    {
        let ports = match &self.ports {
            Some(p) => Some(copy_ports(p)),
            None => None,
        };
        ServiceInfo { name: self.name.clone(), ports }
    }
}

impl ServiceInfo {
    /// The ports of the service, empty when it declares none.
    pub open spec fn port_list(self) -> Seq<ServicePortInfo> {
        match self.ports {
            Some(ports) => ports@,
            None => Seq::empty(),
        }
    }
}

/// A Kubernetes `Deployment`, reduced to its replica counts.
#[derive(Clone, Copy, Debug, PartialEq, Eq)]
pub struct DeploymentInfo {
    /// `spec.replicas`; Kubernetes defaults a missing value to 1.
    pub replicas: Option<i32>,
    /// `status.readyReplicas`.
    pub ready_replicas: Option<i32>,
}

/// Descriptor of an existing cluster that a run attaches to.
#[derive(Debug, PartialEq, Eq)]
pub struct ExistingCluster {
    /// Namespace holding the node services, when one is fixed.
    pub namespace: Option<String>,
    /// Label selector of the node services; `None` for descriptors that do
    /// not describe a Kubernetes deployment.
    pub label_selector: Option<String>,
}

impl Clone for ExistingCluster {
    fn clone(&self) -> (r: Self)
        ensures
            r == *self,
    {
        ExistingCluster { namespace: self.namespace.clone(), label_selector: self.label_selector.clone() }
    }
}

impl ExistingCluster {
    /// Descriptor for the services matching `label_selector` in `namespace`.
    pub fn for_k8s_selector_in_namespace(namespace: String, label_selector: String) -> (r: Self)
        ensures
            r.namespace == Some(namespace),
            r.label_selector == Some(label_selector),
    {
        ExistingCluster { namespace: Some(namespace), label_selector: Some(label_selector) }
    }

    /// Descriptor for the services matching `label_selector` in the default
    /// namespace.
    pub fn for_k8s_selector(label_selector: String) -> (r: Self)
        ensures
            r.namespace is None,
            r.label_selector == Some(label_selector),
    {
        ExistingCluster { namespace: None, label_selector: Some(label_selector) }
    }

    /// Namespace of a Kubernetes descriptor.
    pub fn k8s_namespace(&self) -> (r: Option<String>)
        ensures
            r == self.namespace,
    {
        self.namespace.clone()
    }

    /// Label selector of a Kubernetes descriptor.
    pub fn k8s_label_selector(&self) -> (r: Option<String>)
        ensures
            r == self.label_selector,
    {
        self.label_selector.clone()
    }
}

} // verus!
