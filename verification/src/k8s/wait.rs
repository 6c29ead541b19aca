//! Waiting on a deployed cluster: deployment replica checks, node-port
//! lookup, retry budgets, and the bookkeeping of `kubectl port-forward`
//! processes per node.

use vstd::prelude::*;

use crate::k8s::model::{DeploymentInfo, ServiceInfo};
use crate::text::{decimal, u64_to_decimal};

verus! {

/// Seconds between deployment readiness polls.
pub const DEPLOYMENT_POLL_INTERVAL_SECS: u64 = 2;

/// Milliseconds per second.
pub const MILLIS_PER_SECOND: u64 = 1000;

/// Per-node API and auxiliary service ports that must be exposed.
#[derive(Clone, Copy, Debug, PartialEq, Eq)]
pub struct NodeConfigPorts {
    /// API service port.
    pub api: u16,
    /// Auxiliary (testing) service port.
    pub auxiliary: u16,
}

/// Host ports through which one node's API and auxiliary ports are reached.
#[derive(Clone, Copy, Debug, PartialEq, Eq)]
pub struct NodePortAllocation {
    /// Host port of the API.
    pub api: u16,
    /// Host port of the auxiliary endpoint.
    pub auxiliary: u16,
}

/// Failures while waiting for a deployed cluster.
#[derive(Clone, Debug, PartialEq, Eq)]
pub enum ClusterWaitError {
    /// The topology has no node.
    MissingNode,
    /// A deployment did not become ready in time.
    DeploymentTimeout { name: String, namespace: String, timeout_secs: u64 },
    /// Fetching a deployment failed.
    DeploymentFetch { name: String, source: String },
    /// Fetching a service failed.
    ServiceFetch { service: String, source: String },
    /// A service never exposed a node port for the given service port.
    NodePortUnavailable { service: String, port: u16 },
    /// A port-forward failed.
    PortForward { service: String, port: u16, source: String },
    /// The blocking port-forward task failed.
    PortForwardTask { source: String },
    /// No forwards are registered for the node.
    MissingPortForwardNode { index: usize, nodes: usize },
}

impl ClusterWaitError {
    /// The human-readable message of the error.
    pub open spec fn message_view(&self) -> Seq<char> {
        match self {
            ClusterWaitError::MissingNode => "cluster must have at least one node"@,
            ClusterWaitError::DeploymentTimeout { name, namespace, timeout_secs } =>
                "deployment '"@ + name@ + "' in namespace '"@ + namespace@ + "' did not become ready within "@
                    + decimal(*timeout_secs as nat) + "s"@,
            ClusterWaitError::DeploymentFetch { name, source } =>
                "failed to fetch deployment "@ + name@ + ": "@ + source@,
            ClusterWaitError::ServiceFetch { service, source } =>
                "failed to fetch service "@ + service@ + ": "@ + source@,
            ClusterWaitError::NodePortUnavailable { service, port } =>
                "service "@ + service@ + " did not allocate a node port for "@ + decimal(*port as nat),
            ClusterWaitError::PortForward { service, port, source } =>
                "port-forward to service "@ + service@ + " port "@ + decimal(*port as nat) + " failed: "@ + source@,
            ClusterWaitError::PortForwardTask { source } => "port-forward task failed: "@ + source@,
            ClusterWaitError::MissingPortForwardNode { index, nodes } =>
                "no port-forwards registered for node index "@ + decimal(*index as nat) + " ("@ + decimal(
                    *nodes as nat,
                ) + " registered)"@,
        }
    }

    /// The human-readable message of the error.
    pub fn message(&self) -> (r: String)
        ensures
            r@ == self.message_view(),
    {
        match self {
            ClusterWaitError::MissingNode => "cluster must have at least one node".to_owned(),
            ClusterWaitError::DeploymentTimeout { name, namespace, timeout_secs } => {
                let mut r = "deployment '".to_owned();
                r.append(name.as_str());
                r.append("' in namespace '");
                r.append(namespace.as_str());
                r.append("' did not become ready within ");
                r.append(u64_to_decimal(*timeout_secs).as_str());
                r.append("s");
                r
            },
            ClusterWaitError::DeploymentFetch { name, source } => {
                let mut r = "failed to fetch deployment ".to_owned();
                r.append(name.as_str());
                r.append(": ");
                r.append(source.as_str());
                r
            },
            ClusterWaitError::ServiceFetch { service, source } => {
                let mut r = "failed to fetch service ".to_owned();
                r.append(service.as_str());
                r.append(": ");
                r.append(source.as_str());
                r
            },
            ClusterWaitError::NodePortUnavailable { service, port } => {
                let mut r = "service ".to_owned();
                r.append(service.as_str());
                r.append(" did not allocate a node port for ");
                r.append(u64_to_decimal(*port as u64).as_str());
                r
            },
            ClusterWaitError::PortForward { service, port, source } => {
                let mut r = "port-forward to service ".to_owned();
                r.append(service.as_str());
                r.append(" port ");
                r.append(u64_to_decimal(*port as u64).as_str());
                r.append(" failed: ");
                r.append(source.as_str());
                r
            },
            ClusterWaitError::PortForwardTask { source } => {
                let mut r = "port-forward task failed: ".to_owned();
                r.append(source.as_str());
                r
            },
            ClusterWaitError::MissingPortForwardNode { index, nodes } => {
                let mut r = "no port-forwards registered for node index ".to_owned();
                r.append(u64_to_decimal(*index as u64).as_str());
                r.append(" (");
                r.append(u64_to_decimal(*nodes as u64).as_str());
                r.append(" registered)");
                r
            },
        }
    }
}

/// Milliseconds between deployment readiness polls.
pub fn retry_interval_millis() -> (r: u64)
    ensures
        r == DEPLOYMENT_POLL_INTERVAL_SECS * MILLIS_PER_SECOND,
{
    DEPLOYMENT_POLL_INTERVAL_SECS * MILLIS_PER_SECOND
}

/// Number of polls that cover `timeout_ms`: the timeout divided by the poll
/// interval, rounded up, and at least one.
pub open spec fn max_attempts_spec(timeout_ms: nat) -> nat {
    let interval = (DEPLOYMENT_POLL_INTERVAL_SECS * MILLIS_PER_SECOND) as nat;
    let n = if timeout_ms % interval == 0 {
        timeout_ms / interval
    } else {
        timeout_ms / interval + 1
    };
    if n < 1 {
        1
    } else {
        n
    }
}

/// Number of deployment readiness polls that cover a timeout.
pub fn max_attempts_for_timeout(timeout_ms: u64) -> (r: u64)
    ensures
        r == max_attempts_spec(timeout_ms as nat),
{
    let interval = retry_interval_millis();
    assert(interval == 2000);
    let n = if timeout_ms % interval == 0 {
        timeout_ms / interval
    } else {
        timeout_ms / interval + 1
    };
    if n < 1 {
        1
    } else {
        n
    }
}

/// Desired replicas of a deployment (Kubernetes defaults a missing value to 1).
pub open spec fn desired_replicas(d: DeploymentInfo) -> i32 {
    match d.replicas {
        Some(r) => r,
        None => 1,
    }
}

/// Ready replicas of a deployment (0 when the status has none).
pub open spec fn ready_replicas(d: DeploymentInfo) -> i32 {
    match d.ready_replicas {
        Some(r) => r,
        None => 0,
    }
}

/// A deployment is ready when at least its desired replicas are ready.
pub fn ensure_ready_replicas(deployment: &DeploymentInfo) -> (r: bool)
    ensures
        r == (ready_replicas(*deployment) >= desired_replicas(*deployment)),
{
    let desired = match deployment.replicas {
        Some(r) => r,
        None => 1,
    };
    let ready = match deployment.ready_replicas {
        Some(r) => r,
        None => 0,
    };
    ready >= desired
}

/// A deployment is scaled down when it wants no replica and has none ready.
pub fn is_scaled_down(deployment: &DeploymentInfo) -> (r: bool)
    ensures
        r == (ready_replicas(*deployment) == 0 && desired_replicas(*deployment) == 0),
{
    let ready = match deployment.ready_replicas {
        Some(r) => r,
        None => 0,
    };
    let current = match deployment.replicas {
        Some(r) => r,
        None => 1,
    };
    ready == 0 && current == 0
}

/// Outcome of polling a deployment for readiness.
#[derive(Clone, Debug, PartialEq, Eq)]
pub enum DeploymentWaitError {
    /// Still not ready when the polls ran out.
    NotReady,
    /// Polling failed for good.
    Fatal(ClusterWaitError),
}

/// Maps the outcome of the readiness polls: running out of polls becomes a
/// timeout naming the deployment, a fatal error is passed on.
pub fn map_deployment_wait_result(
    result: Result<(), DeploymentWaitError>,
    name: &str,
    namespace: &str,
    timeout_secs: u64,
) -> (r: Result<(), ClusterWaitError>)
    ensures
        result is Ok ==> r is Ok,
        result matches Err(DeploymentWaitError::Fatal(e)) ==> r == Err::<(), ClusterWaitError>(e),
        result matches Err(DeploymentWaitError::NotReady) ==> (r matches Err(
            ClusterWaitError::DeploymentTimeout { name: n, namespace: ns, timeout_secs: t },
        ) && n@ == name@ && ns@ == namespace@ && t == timeout_secs),
{
    match result {
        Ok(()) => Ok(()),
        Err(DeploymentWaitError::Fatal(e)) => Err(e),
        Err(DeploymentWaitError::NotReady) => Err(
            ClusterWaitError::DeploymentTimeout { name: name.to_owned(), namespace: namespace.to_owned(), timeout_secs },
        ),
    }
}

/// Whether port `i` of `service` forwards `service_port` and has a node port.
pub open spec fn is_node_port_match(service: ServiceInfo, i: int, service_port: u16) -> bool {
    service.port_list()[i].port == service_port as i32 && service.port_list()[i].node_port is Some
}

/// Finds the node port allocated for a service port.
pub fn lookup_service_node_port(service: &ServiceInfo, service_port: u16) -> (r: Option<u16>)
    ensures
        r is None <==> forall|i: int| 0 <= i < service.port_list().len() ==> !is_node_port_match(*service, i, service_port),
        r matches Some(p) ==> exists|i: int| 0 <= i < service.port_list().len() && is_node_port_match(*service, i, service_port)
            && (forall|j: int| 0 <= j < i ==> !is_node_port_match(*service, j, service_port))
            && p == service.port_list()[i].node_port->0 as u16,
{
    match &service.ports {
        None => None,
        Some(ports) => {
            let mut i: usize = 0;
            while i < ports.len()
                invariant
                    i <= ports.len(),
                    service.port_list() == ports@,
                    forall|j: int| 0 <= j < i ==> !is_node_port_match(*service, j, service_port),
                decreases ports.len() - i,
            {
                if ports[i].port == service_port as i32 {
                    if let Some(np) = ports[i].node_port {
                        assert(is_node_port_match(*service, i as int, service_port));
                        return Some(np as u16);
                    }
                }
                i = i + 1;
            }
            None
        },
    }
}

/// Outcome of looking a node port up.
#[derive(Clone, Debug, PartialEq, Eq)]
pub enum NodePortLookupError {
    /// No node port yet.
    NotAvailable,
    /// The lookup failed for good.
    Fatal(ClusterWaitError),
}

/// Maps the outcome of the node-port lookups: running out of lookups becomes
/// an unavailable-port error naming the service and port.
pub fn map_node_port_lookup_result(result: Result<u16, NodePortLookupError>, service_name: &str, service_port: u16) -> (r: Result<
    u16,
    ClusterWaitError,
>)
    ensures
        result matches Ok(p) ==> r == Ok::<u16, ClusterWaitError>(p),
        result matches Err(NodePortLookupError::Fatal(e)) ==> r == Err::<u16, ClusterWaitError>(e),
        result matches Err(NodePortLookupError::NotAvailable) ==> (r matches Err(
            ClusterWaitError::NodePortUnavailable { service: s, port: p },
        ) && s@ == service_name@ && p == service_port),
{
    match result {
        Ok(port) => Ok(port),
        Err(NodePortLookupError::Fatal(e)) => Err(e),
        Err(NodePortLookupError::NotAvailable) => Err(
            ClusterWaitError::NodePortUnavailable { service: service_name.to_owned(), port: service_port },
        ),
    }
}

/// The API host ports of a list of allocations, in order.
pub fn api_ports(nodes: &Vec<NodePortAllocation>) -> (r: Vec<u16>)
    ensures
        r@ == nodes@.map_values(|a: NodePortAllocation| a.api),
{
    let mut out: Vec<u16> = Vec::new();
    let mut i: usize = 0;
    while i < nodes.len()
        invariant
            i <= nodes.len(),
            out@ == nodes@.take(i as int).map_values(|a: NodePortAllocation| a.api),
        decreases nodes.len() - i,
    {
        out.push(nodes[i].api);
        assert(out@ =~= nodes@.take(i + 1).map_values(|a: NodePortAllocation| a.api));
        i = i + 1;
    }
    assert(nodes@.take(nodes.len() as int) =~= nodes@);
    out
}

/// The suffix describing what a failed port-forward printed.
pub open spec fn port_forward_details(details: Option<Seq<char>>) -> Seq<char> {
    match details {
        Some(d) => ": "@ + d,
        None => Seq::empty(),
    }
}

/// Formats what a failed port-forward printed as a message suffix.
pub fn format_port_forward_details(details: Option<&str>) -> (r: String)
    ensures
        r@ == port_forward_details(
            match details {
                Some(d) => Some(d@),
                None => None,
            },
        ),
{
    match details {
        Some(d) => {
            let mut r = ": ".to_owned();
            r.append(d);
            r
        },
        None => String::new(),
    }
}

/// A port-forward failure for one service port.
pub fn port_forward_error(service: &str, remote_port: u16, source: String) -> (r: ClusterWaitError)
    ensures
        r matches ClusterWaitError::PortForward { service: s, port: p, source: src } && s@ == service@ && p
            == remote_port && src == source,
{
    ClusterWaitError::PortForward { service: service.to_owned(), port: remote_port, source }
}

/// A port-forward that never became ready, with what it printed.
pub fn port_forward_ready_timeout_error(service: &str, remote_port: u16, details: Option<&str>) -> (r: ClusterWaitError)
    ensures
        r matches ClusterWaitError::PortForward { service: s, port: p, source: src } && s@ == service@ && p
            == remote_port && src@ == "port-forward did not become ready"@ + port_forward_details(
            match details {
                Some(d) => Some(d@),
                None => None,
            },
        ),
{
    let mut source = "port-forward did not become ready".to_owned();
    source.append(format_port_forward_details(details).as_str());
    port_forward_error(service, remote_port, source)
}

/// The deployment polls, two seconds apart, cover the whole timeout: at
/// least one poll, enough that `polls * 2000 ms` reaches `timeout_ms`, and
/// no more than that (one poll fewer would fall short of the timeout).
pub proof fn lemma_polls_cover_the_timeout(timeout_ms: nat)
    ensures
        max_attempts_spec(timeout_ms) >= 1,
        max_attempts_spec(timeout_ms) * 2000 >= timeout_ms,
        max_attempts_spec(timeout_ms) == 1 || (max_attempts_spec(timeout_ms) - 1) * 2000 < timeout_ms,
{
    let t = timeout_ms as int;
    let q = t / 2000;
    let m = t % 2000;
    vstd::arithmetic::div_mod::lemma_fundamental_div_mod(t, 2000);
    assert(0 <= m < 2000);
    assert(q >= 0);
    let n = max_attempts_spec(timeout_ms) as int;
    assert(m == 0 ==> (q == 0 && n == 1) || (q >= 1 && n == q));
    assert(m != 0 ==> n == q + 1);
    assert(n * 2000 >= t && (n == 1 || (n - 1) * 2000 < t)) by (nonlinear_arith)
        requires
            t == 2000 * q + m,
            0 <= m < 2000,
            q >= 0,
            m == 0 ==> (q == 0 && n == 1) || (q >= 1 && n == q),
            m != 0 ==> n == q + 1,
    ;
}

} // verus!
