//! Node control for attached clusters: a restart scales the node's
//! deployment to zero and back to one. Each node's deployment is named
//! after its discovered service; this module holds the checks on node names
//! and workload shapes, the choice of readiness probe, and the error
//! reporting. The caller talks to Kubernetes.

use vstd::prelude::*;

use crate::k8s::forwarding::AttachedForwardRegistry;
use crate::k8s::manual::ManualClusterError;
use crate::k8s::model::DeploymentInfo;
use crate::text::{join, join_strings, owned, signed_decimal, i64_to_decimal, str_eq, views};

verus! {

/// Failures of attached node control operations.
#[derive(Debug, PartialEq, Eq)]
pub enum K8sAttachedControlError {
    /// The node is not one of the discovered node services.
    UnknownNode { name: String, namespace: String, known: String },
    /// Fetching the node's deployment failed.
    ResolveDeployment { deployment: String, namespace: String, source: String },
    /// The node has no deployment of its name.
    DeploymentNotFound { deployment: String, namespace: String },
    /// The node's deployment does not declare exactly one replica.
    UnexpectedReplicas { deployment: String, namespace: String, replicas: i32 },
    /// Scaling the node's deployment failed.
    Scale { deployment: String, namespace: String, source: ManualClusterError },
    /// Respawning the node's port-forward failed.
    RespawnForward { service: String, namespace: String, source: String },
    /// The node's service has no registered port-forward.
    MissingForward { service: String, namespace: String },
    /// Fetching the node's service or its node port failed.
    ResolveService { service: String, namespace: String, source: String },
    /// The node did not become ready.
    NodeReadiness { name: String, source: String },
}

impl K8sAttachedControlError {
    /// The human-readable message of the error.
    pub open spec fn message_view(&self) -> Seq<char> {
        match self {
            K8sAttachedControlError::UnknownNode { name, namespace, known } =>
                "node '"@ + name@ + "' is not part of the attached cluster in namespace '"@ + namespace@
                    + "'; known nodes: ["@ + known@ + "]"@,
            K8sAttachedControlError::ResolveDeployment { deployment, namespace, source } =>
                "failed to resolve deployment '"@ + deployment@ + "' in namespace '"@ + namespace@ + "': "@
                    + source@,
            K8sAttachedControlError::DeploymentNotFound { deployment, namespace } =>
                "no deployment '"@ + deployment@ + "' exists in namespace '"@ + namespace@
                    + "'; attached node control requires one deployment named after each node service"@,
            K8sAttachedControlError::UnexpectedReplicas { deployment, namespace, replicas } =>
                "deployment '"@ + deployment@ + "' in namespace '"@ + namespace@ + "' declares "@
                    + signed_decimal(*replicas as int) + " replicas; attached node control requires exactly 1"@,
            K8sAttachedControlError::Scale { deployment, namespace, source } =>
                "failed to scale deployment '"@ + deployment@ + "' in namespace '"@ + namespace@ + "': "@
                    + source.message_view(),
            K8sAttachedControlError::RespawnForward { service, namespace, source } =>
                "failed to re-establish the port-forward for service '"@ + service@ + "' in namespace '"@
                    + namespace@ + "': "@ + source@,
            K8sAttachedControlError::MissingForward { service, namespace } =>
                "service '"@ + service@ + "' in namespace '"@ + namespace@ + "' has no registered port-forward"@,
            K8sAttachedControlError::ResolveService { service, namespace, source } =>
                "failed to resolve service '"@ + service@ + "' in namespace '"@ + namespace@ + "': "@ + source@,
            K8sAttachedControlError::NodeReadiness { name, source } =>
                "node readiness failed for '"@ + name@ + "': "@ + source@,
        }
    }

    /// The human-readable message of the error.
    pub fn message(&self) -> (r: String)
        ensures
            r@ == self.message_view(),
    {
        match self {
            K8sAttachedControlError::UnknownNode { name, namespace, known } => {
                let mut r = owned("node '");
                r.append(name.as_str());
                r.append("' is not part of the attached cluster in namespace '");
                r.append(namespace.as_str());
                r.append("'; known nodes: [");
                r.append(known.as_str());
                r.append("]");
                r
            },
            K8sAttachedControlError::ResolveDeployment { deployment, namespace, source } => {
                let mut r = owned("failed to resolve deployment '");
                r.append(deployment.as_str());
                r.append("' in namespace '");
                r.append(namespace.as_str());
                r.append("': ");
                r.append(source.as_str());
                r
            },
            K8sAttachedControlError::DeploymentNotFound { deployment, namespace } => {
                let mut r = owned("no deployment '");
                r.append(deployment.as_str());
                r.append("' exists in namespace '");
                r.append(namespace.as_str());
                r.append("'; attached node control requires one deployment named after each node service");
                r
            },
            K8sAttachedControlError::UnexpectedReplicas { deployment, namespace, replicas } => {
                let mut r = owned("deployment '");
                r.append(deployment.as_str());
                r.append("' in namespace '");
                r.append(namespace.as_str());
                r.append("' declares ");
                r.append(i64_to_decimal(*replicas as i64).as_str());
                r.append(" replicas; attached node control requires exactly 1");
                r
            },
            K8sAttachedControlError::Scale { deployment, namespace, source } => {
                let mut r = owned("failed to scale deployment '");
                r.append(deployment.as_str());
                r.append("' in namespace '");
                r.append(namespace.as_str());
                r.append("': ");
                r.append(source.message().as_str());
                r
            },
            K8sAttachedControlError::RespawnForward { service, namespace, source } => {
                let mut r = owned("failed to re-establish the port-forward for service '");
                r.append(service.as_str());
                r.append("' in namespace '");
                r.append(namespace.as_str());
                r.append("': ");
                r.append(source.as_str());
                r
            },
            K8sAttachedControlError::MissingForward { service, namespace } => {
                let mut r = owned("service '");
                r.append(service.as_str());
                r.append("' in namespace '");
                r.append(namespace.as_str());
                r.append("' has no registered port-forward");
                r
            },
            K8sAttachedControlError::ResolveService { service, namespace, source } => {
                let mut r = owned("failed to resolve service '");
                r.append(service.as_str());
                r.append("' in namespace '");
                r.append(namespace.as_str());
                r.append("': ");
                r.append(source.as_str());
                r
            },
            K8sAttachedControlError::NodeReadiness { name, source } => {
                let mut r = owned("node readiness failed for '");
                r.append(name.as_str());
                r.append("': ");
                r.append(source.as_str());
                r
            },
        }
    }
}

/// The replica count a deployment declares; Kubernetes defaults a missing
/// count to one.
pub open spec fn declared_replicas(deployment: DeploymentInfo) -> i32 {
    match deployment.replicas {
        Some(n) => n,
        None => 1,
    }
}

/// Rejects workload shapes that restart-by-scaling cannot drive: the
/// deployment must declare exactly one replica.
pub fn validate_deployment_shape(deployment: &DeploymentInfo, name: &str, namespace: &str) -> (r: Result<(), K8sAttachedControlError>)
    ensures
        declared_replicas(*deployment) == 1 ==> r is Ok,
        declared_replicas(*deployment) != 1 ==> (r matches Err(
            K8sAttachedControlError::UnexpectedReplicas { deployment: d, namespace: ns, replicas },
        ) && d@ == name@ && ns@ == namespace@ && replicas == declared_replicas(*deployment)),
{
    let replicas = match deployment.replicas {
        Some(n) => n,
        None => 1,
    };
    if replicas == 1 {
        return Ok(());
    }
    Err(
        K8sAttachedControlError::UnexpectedReplicas {
            deployment: owned(name),
            namespace: owned(namespace),
            replicas,
        },
    )
}

/// The error of a failed deployment fetch: a 404 answer means the node has
/// no deployment of its name; anything else is a resolution failure.
pub fn deployment_fetch_error(status_code: Option<u16>, source: String, name: &str, namespace: &str) -> (r: K8sAttachedControlError)
    ensures
        status_code == Some(404u16) ==> (r matches K8sAttachedControlError::DeploymentNotFound {
            deployment,
            namespace: ns,
        } && deployment@ == name@ && ns@ == namespace@),
        status_code != Some(404u16) ==> (r matches K8sAttachedControlError::ResolveDeployment {
            deployment,
            namespace: ns,
            source: s,
        } && deployment@ == name@ && ns@ == namespace@ && s == source),
{
    match status_code {
        Some(404) => K8sAttachedControlError::DeploymentNotFound {
            deployment: owned(name),
            namespace: owned(namespace),
        },
        _ => K8sAttachedControlError::ResolveDeployment {
            deployment: owned(name),
            namespace: owned(namespace),
            source,
        },
    }
}

/// The discovered node services of an attached cluster with their clients.
pub struct K8sAttachedNodeControl<C> {
    namespace: String,
    nodes: Vec<(String, C)>,
}

/// The abstract state of attached node control.
pub struct K8sAttachedNodeControlModel<C> {
    /// Namespace of the node services.
    pub namespace: Seq<char>,
    /// Node names (service names) with their clients, in discovery order.
    pub nodes: Seq<(Seq<char>, C)>,
}

impl<C> View for K8sAttachedNodeControl<C> {
    type V = K8sAttachedNodeControlModel<C>;

    closed spec fn view(&self) -> K8sAttachedNodeControlModel<C> {
        K8sAttachedNodeControlModel {
            namespace: self.namespace@,
            nodes: self.nodes@.map_values(|e: (String, C)| (e.0@, e.1)),
        }
    }
}

impl<C> K8sAttachedNodeControlModel<C> {
    /// The node names in discovery order.
    pub open spec fn names(self) -> Seq<Seq<char>> {
        self.nodes.map_values(|e: (Seq<char>, C)| e.0)
    }

    /// Whether `name` is a discovered node.
    pub open spec fn knows(self, name: Seq<char>) -> bool {
        exists|i: int| 0 <= i < self.nodes.len() && (#[trigger] self.nodes[i]).0 == name
    }

    /// The client of the first node named `name`.
    pub open spec fn first_client(self, name: Seq<char>) -> Option<C> {
        if self.knows(name) {
            let i = choose|i: int|
                0 <= i < self.nodes.len() && (#[trigger] self.nodes[i]).0 == name && forall|j: int|
                    0 <= j < i ==> self.nodes[j].0 != name;
            Some(self.nodes[i].1)
        } else {
            None
        }
    }
}

impl<C> K8sAttachedNodeControl<C> {
    /// Control over the given discovered node services.
    pub fn new(namespace: String, nodes: Vec<(String, C)>) -> (r: Self)
        ensures
            r@.namespace == namespace@,
            r@.nodes == nodes@.map_values(|e: (String, C)| (e.0@, e.1)),
    {
        K8sAttachedNodeControl { namespace, nodes }
    }

    /// Position of the first node named `name`.
    fn find(&self, name: &str) -> (r: Option<usize>)
        ensures
            r is Some <==> self@.knows(name@),
            r matches Some(i) ==> i < self@.nodes.len() && self@.nodes[i as int].0 == name@ && forall|j: int|
                0 <= j < i ==> self@.nodes[j].0 != name@,
    {
        let mut i: usize = 0;
        while i < self.nodes.len()
            invariant
                i <= self.nodes.len(),
                self@.nodes.len() == self.nodes@.len(),
                self@.nodes == self.nodes@.map_values(|e: (String, C)| (e.0@, e.1)),
                forall|j: int| 0 <= j < i ==> self@.nodes[j].0 != name@,
            decreases self.nodes.len() - i,
        {
            if str_eq(self.nodes[i].0.as_str(), name) {
                assert(self@.nodes[i as int].0 == name@);
                return Some(i);
            }
            i = i + 1;
        }
        proof {
            if self@.knows(name@) {
                let k = choose|k: int| 0 <= k < self@.nodes.len() && (#[trigger] self@.nodes[k]).0 == name@;
                assert(self@.nodes[k].0 != name@);
            }
        }
        None
    }

    /// The discovered node names, in discovery order.
    pub fn node_names(&self) -> (r: Vec<String>)
        ensures
            views(r@) == self@.names(),
    {
        let mut r: Vec<String> = Vec::new();
        let mut i: usize = 0;
        while i < self.nodes.len()
            invariant
                i <= self.nodes.len(),
                self@.nodes == self.nodes@.map_values(|e: (String, C)| (e.0@, e.1)),
                views(r@) == self@.names().take(i as int),
            decreases self.nodes.len() - i,
        {
            let ghost before = r@;
            r.push(self.nodes[i].0.clone());
            assert(self@.nodes[i as int] == (self.nodes@[i as int].0@, self.nodes@[i as int].1));
            assert(r@ == before.push(r@.last()));
            assert(views(r@) =~= views(before).push(self@.names()[i as int]));
            assert(views(r@) =~= self@.names().take(i + 1));
            i = i + 1;
        }
        assert(self@.names().take(self.nodes.len() as int) =~= self@.names());
        r
    }

    /// Succeeds when `name` is a discovered node; otherwise the error lists
    /// the known nodes.
    pub fn require_known_node(&self, name: &str) -> (r: Result<(), K8sAttachedControlError>)
        ensures
            self@.knows(name@) ==> r is Ok,
            !self@.knows(name@) ==> (r matches Err(K8sAttachedControlError::UnknownNode { name: n, namespace, known })
                && n@ == name@ && namespace@ == self@.namespace && known@ == join(self@.names(), ", "@)),
    {
        if self.find(name).is_some() {
            return Ok(());
        }
        let names = self.node_names();
        Err(
            K8sAttachedControlError::UnknownNode {
                name: owned(name),
                namespace: self.namespace.clone(),
                known: join_strings(&names, ", "),
            },
        )
    }

    /// The client of the node named `name`.
    pub fn node_client(&self, name: &str) -> (r: Option<&C>)
        ensures
            match self@.first_client(name@) {
                Some(c) => r matches Some(x) && *x == c,
                None => r is None,
            },
    {
        match self.find(name) {
            Some(i) => {
                proof {
                    let k = choose|k: int|
                        0 <= k < self@.nodes.len() && (#[trigger] self@.nodes[k]).0 == name@ && forall|j: int|
                            0 <= j < k ==> self@.nodes[j].0 != name@;
                    if k < i {
                        assert(self@.nodes[k].0 != name@);
                    }
                    if i < k {
                        assert(self@.nodes[i as int].0 != name@);
                    }
                }
                Some(&self.nodes[i].1)
            },
            None => None,
        }
    }

    /// The port to probe for the readiness of node `name`: with forwards,
    /// the local port of its service's forward; without, `None`, and the
    /// caller resolves the service's node port on the node host.
    pub fn readiness_port<H>(&self, name: &str, forwards: Option<&AttachedForwardRegistry<H>>) -> (r: Result<Option<u16>, K8sAttachedControlError>)
        ensures
            !self@.knows(name@) ==> (r matches Err(K8sAttachedControlError::UnknownNode { name: n, .. }) && n@
                == name@),
            self@.knows(name@) ==> match forwards {
                None => r == Ok::<Option<u16>, K8sAttachedControlError>(None),
                Some(f) => if exists|i: int| 0 <= i < f@.len() && f@[i].0 == name@ {
                    r matches Ok(Some(p)) && exists|i: int| 0 <= i < f@.len() && f@[i].0 == name@ && (forall|j: int|
                        0 <= j < i ==> f@[j].0 != name@) && p == f@[i].1.local_port
                } else {
                    r matches Err(K8sAttachedControlError::MissingForward { service, namespace })
                        && service@ == name@ && namespace@ == self@.namespace
                },
            },
    {
        self.require_known_node(name)?;
        match forwards {
            None => Ok(None),
            Some(f) => match f.local_port(name) {
                Some(p) => Ok(Some(p)),
                None => Err(
                    K8sAttachedControlError::MissingForward {
                        service: owned(name),
                        namespace: self.namespace.clone(),
                    },
                ),
            },
        }
    }
}

} // verus!
