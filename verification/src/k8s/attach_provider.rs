//! Service discovery for attached Kubernetes clusters: which service port is
//! the node API, whether nodes are reached directly on their node ports or
//! through `kubectl port-forward`, and the requests that name the services.

use vstd::prelude::*;

use crate::k8s::forwarding::{AttachedForwardRegistry, ForwardSpec};
use crate::k8s::model::{ExistingCluster, ServiceInfo, ServicePortInfo};
use crate::text::{concat2, decimal, join, join_strings, str_eq, trim, trim_str, u64_to_decimal, views};

verus! {

/// Seconds that the direct probe of a discovered endpoint may take.
pub const DIRECT_PROBE_TIMEOUT_SECS: u64 = 3;

/// Service port resolved for one node service's API endpoint, together with
/// the node port when the service exposes one.
#[derive(Clone, Copy, Debug, PartialEq, Eq)]
pub struct ApiServicePort {
    /// Port of the service itself.
    pub service_port: u16,
    /// Node port, absent for services reachable only inside the cluster.
    pub node_port: Option<u16>,
}

/// One discovered node service together with its resolved API ports.
#[derive(Clone, Debug, PartialEq, Eq)]
pub struct ServiceEndpoint {
    /// Service name.
    pub name: String,
    /// Resolved API ports.
    pub ports: ApiServicePort,
}

/// How discovered node services are reached from the runner.
#[derive(Clone, Copy, Debug, PartialEq, Eq)]
pub enum AttachAccessMode {
    /// Discovered endpoints answer directly; build clients against them.
    Direct,
    /// Discovered endpoints are unreachable; reach the services through
    /// `kubectl port-forward`.
    PortForward,
}

/// Failures while discovering the node services of an attached cluster.
#[derive(Clone, Debug, PartialEq, Eq)]
pub enum K8sAttachDiscoveryError {
    /// The label selector is empty or white space.
    EmptyLabelSelector,
    /// The descriptor does not describe a Kubernetes deployment.
    UnsupportedSource { attach_source: ExistingCluster },
    /// A readiness wait was requested for a non-Kubernetes descriptor.
    WaitRequiresK8sSource,
    /// No service matched the selector.
    NoMatchingServices { namespace: String, selector: String },
    /// A service has no `metadata.name`.
    MissingServiceName,
    /// A service exposes no TCP port.
    ServiceHasNoTcpPorts { service: String },
    /// A service exposes no node port for direct access.
    ServiceHasNoNodePort { service: String },
    /// A service has several candidate API ports.
    ServiceHasMultipleApiPorts { service: String, ports: String },
    /// The direct probe failed and so did the port-forward fallback.
    EndpointsUnreachable { host: String, port: u16, timeout_secs: u64, source: String },
    /// No service has a node port and the port-forward fallback failed.
    ClusterIpForwardFailed { source: String },
}

impl K8sAttachDiscoveryError {
    /// The human-readable message of the error.
    pub open spec fn message_view(&self) -> Seq<char> {
        match self {
            K8sAttachDiscoveryError::EmptyLabelSelector => "k8s attach source requires a non-empty label selector"@,
            K8sAttachDiscoveryError::UnsupportedSource { .. } => "existing cluster descriptor is not supported by this provider: it names no k8s label selector"@,
            K8sAttachDiscoveryError::WaitRequiresK8sSource => "k8s cluster wait requires a k8s existing-cluster descriptor"@,
            K8sAttachDiscoveryError::NoMatchingServices { namespace, selector } =>
                "no services matched label selector '"@ + selector@ + "' in namespace '"@ + namespace@ + "'"@,
            K8sAttachDiscoveryError::MissingServiceName => "k8s service has no metadata.name"@,
            K8sAttachDiscoveryError::ServiceHasNoTcpPorts { service } =>
                "service '"@ + service@ + "' has no TCP ports exposed"@,
            K8sAttachDiscoveryError::ServiceHasNoNodePort { service } =>
                "service '"@ + service@ + "' exposes no node port for direct access"@,
            K8sAttachDiscoveryError::ServiceHasMultipleApiPorts { service, ports } =>
                "service '"@ + service@ + "' has multiple candidate API ports ("@ + ports@
                    + "); explicit API port required"@,
            K8sAttachDiscoveryError::EndpointsUnreachable { host, port, timeout_secs, source } =>
                "attached k8s cluster is unreachable: direct endpoint "@ + host@ + ":"@ + decimal(
                    *port as nat,
                ) + " did not accept a TCP connection within "@ + decimal(*timeout_secs as nat)
                    + "s, and the kubectl port-forward fallback failed: "@ + source@,
            K8sAttachDiscoveryError::ClusterIpForwardFailed { source } =>
                "attached k8s cluster is unreachable: the matched services expose no node ports for a direct connection, and the kubectl port-forward fallback failed: "@
                    + source@,
        }
    }

    /// The human-readable message of the error.
    pub fn message(&self) -> (r: String)
        ensures
            r@ == self.message_view(),
    {
        match self {
            K8sAttachDiscoveryError::EmptyLabelSelector => "k8s attach source requires a non-empty label selector".to_owned(),
            K8sAttachDiscoveryError::UnsupportedSource { .. } => "existing cluster descriptor is not supported by this provider: it names no k8s label selector".to_owned(),
            K8sAttachDiscoveryError::WaitRequiresK8sSource => "k8s cluster wait requires a k8s existing-cluster descriptor".to_owned(),
            K8sAttachDiscoveryError::NoMatchingServices { namespace, selector } => {
                let mut r = "no services matched label selector '".to_owned();
                r.append(selector.as_str());
                r.append("' in namespace '");
                r.append(namespace.as_str());
                r.append("'");
                r
            },
            K8sAttachDiscoveryError::MissingServiceName => "k8s service has no metadata.name".to_owned(),
            K8sAttachDiscoveryError::ServiceHasNoTcpPorts { service } => {
                let mut r = "service '".to_owned();
                r.append(service.as_str());
                r.append("' has no TCP ports exposed");
                r
            },
            K8sAttachDiscoveryError::ServiceHasNoNodePort { service } => {
                let mut r = "service '".to_owned();
                r.append(service.as_str());
                r.append("' exposes no node port for direct access");
                r
            },
            K8sAttachDiscoveryError::ServiceHasMultipleApiPorts { service, ports } => {
                let mut r = "service '".to_owned();
                r.append(service.as_str());
                r.append("' has multiple candidate API ports (");
                r.append(ports.as_str());
                r.append("); explicit API port required");
                r
            },
            K8sAttachDiscoveryError::EndpointsUnreachable { host, port, timeout_secs, source } => {
                let mut r = "attached k8s cluster is unreachable: direct endpoint ".to_owned();
                r.append(host.as_str());
                r.append(":");
                r.append(u64_to_decimal(*port as u64).as_str());
                r.append(" did not accept a TCP connection within ");
                r.append(u64_to_decimal(*timeout_secs).as_str());
                r.append("s, and the kubectl port-forward fallback failed: ");
                r.append(source.as_str());
                r
            },
            K8sAttachDiscoveryError::ClusterIpForwardFailed { source } => {
                let mut r = "attached k8s cluster is unreachable: the matched services expose no node ports for a direct connection, and the kubectl port-forward fallback failed: ".to_owned();
                r.append(source.as_str());
                r
            },
        }
    }
}

/// Decides how to reach an attached cluster from the direct-endpoint probe
/// result: a reachable endpoint keeps the direct-client behavior, an
/// unreachable one selects the port-forward fallback.
pub fn attach_access_mode(direct_endpoint_reachable: bool) -> (r: AttachAccessMode)
    ensures
        direct_endpoint_reachable ==> r == AttachAccessMode::Direct,
        !direct_endpoint_reachable ==> r == AttachAccessMode::PortForward,
{
    if direct_endpoint_reachable {
        AttachAccessMode::Direct
    } else {
        AttachAccessMode::PortForward
    }
}

/// The node port to probe for direct access: the first endpoint's, when every
/// discovered service exposes one.
pub open spec fn direct_probe_port_spec(endpoints: Seq<ServiceEndpoint>) -> Option<u16> {
    if endpoints.len() > 0 && forall|i: int| 0 <= i < endpoints.len() ==> (#[trigger] endpoints[i]).ports.node_port is Some {
        endpoints[0].ports.node_port
    } else {
        None
    }
}

/// Returns the node port to probe for direct access when every discovered
/// service exposes one.
///
/// Any service without a node port cannot be reached directly, so the whole
/// attachment skips the direct probe and goes straight to port-forwarding.
pub fn direct_probe_port(endpoints: &Vec<ServiceEndpoint>) -> (r: Option<u16>)
    ensures
        r == direct_probe_port_spec(endpoints@),
{
    let mut i: usize = 0;
    while i < endpoints.len()
        invariant
            i <= endpoints.len(),
            forall|j: int| 0 <= j < i ==> (#[trigger] endpoints@[j]).ports.node_port is Some,
        decreases endpoints.len() - i,
    {
        if endpoints[i].ports.node_port.is_none() {
            return None;
        }
        i = i + 1;
    }
    if endpoints.len() == 0 {
        return None;
    }
    endpoints[0].ports.node_port
}

/// Whether a port name marks the API port explicitly.
pub open spec fn is_api_name(name: Seq<char>) -> bool {
    name == "http"@ || name == "api"@
}

/// The TCP API port pair of one service port, or `None` when the port is not
/// a TCP port in the `u16` range.
pub open spec fn tcp_api_pair(p: ServicePortInfo) -> Option<(Seq<char>, ApiServicePort)> {
    if !(0 <= p.port <= 65535) {
        None
    } else if !(p.protocol is None || p.protocol->0@ == "TCP"@) {
        None
    } else {
        Some(
            (
                match p.name {
                    Some(n) => n@,
                    None => Seq::empty(),
                },
                ApiServicePort {
                    service_port: p.port as u16,
                    node_port: match p.node_port {
                        Some(v) => if 0 <= v <= 65535 {
                            Some(v as u16)
                        } else {
                            None
                        },
                        None => None,
                    },
                },
            ),
        )
    }
}

/// The TCP API port pairs of a list of service ports, in order.
pub open spec fn tcp_api_pairs(ports: Seq<ServicePortInfo>) -> Seq<(Seq<char>, ApiServicePort)>
    decreases ports.len(),
{
    if ports.len() == 0 {
        Seq::empty()
    } else {
        let rest = tcp_api_pairs(ports.drop_last());
        match tcp_api_pair(ports.last()) {
            Some(pair) => rest.push(pair),
            None => rest,
        }
    }
}

/// Views of named port pairs.
pub open spec fn pair_views(pairs: Seq<(String, ApiServicePort)>) -> Seq<(Seq<char>, ApiServicePort)> {
    pairs.map_values(|p: (String, ApiServicePort)| (p.0@, p.1))
}

/// Whether a port is TCP (a missing protocol counts as TCP).
fn is_tcp(protocol: &Option<String>) -> (r: bool)
    ensures
        r == (protocol is None || protocol->0@ == "TCP"@),
{
    match protocol {
        None => true,
        Some(p) => str_eq(p.as_str(), "TCP"),
    }
}

fn tcp_api_pair_exec(p: &ServicePortInfo) -> (r: Option<(String, ApiServicePort)>)
    ensures
        r matches Some(x) ==> tcp_api_pair(*p) == Some((x.0@, x.1)),
        r is None ==> tcp_api_pair(*p) is None,
{
    let node_port = match p.node_port {
        Some(v) => if 0 <= v && v <= 65535 {
            Some(v as u16)
        } else {
            None
        },
        None => None,
    };
    if !(0 <= p.port && p.port <= 65535) {
        return None;
    }
    if !is_tcp(&p.protocol) {
        return None;
    }
    let name = match &p.name {
        Some(n) => n.clone(),
        None => String::new(),
    };
    Some((name, ApiServicePort { service_port: p.port as u16, node_port }))
}

/// The TCP ports of a service as `(name, ports)` pairs, in declaration order.
pub fn tcp_api_port_pairs(service: &ServiceInfo) -> (r: Vec<(String, ApiServicePort)>)
    ensures
        pair_views(r@) == tcp_api_pairs(service.port_list()),
{
    let mut out: Vec<(String, ApiServicePort)> = Vec::new();
    match &service.ports {
        None => {
            assert(pair_views(out@) =~= Seq::<(Seq<char>, ApiServicePort)>::empty());
        },
        Some(ports) => {
            let mut i: usize = 0;
            while i < ports.len()
                invariant
                    i <= ports.len(),
                    service.port_list() == ports@,
                    pair_views(out@) == tcp_api_pairs(ports@.take(i as int)),
                decreases ports.len() - i,
            {
                let ghost before = pair_views(out@);
                assert(ports@.take(i + 1).drop_last() =~= ports@.take(i as int));
                assert(ports@.take(i + 1).last() == ports@[i as int]);
                match tcp_api_pair_exec(&ports[i]) {
                    Some(pair) => {
                        out.push(pair);
                        assert(pair_views(out@) =~= before.push((pair.0@, pair.1)));
                    },
                    None => {},
                }
                i = i + 1;
            }
            assert(ports@.take(ports.len() as int) =~= ports@);
        },
    }
    out
}

/// The ports of explicitly named API pairs (`http` or `api`), in order.
pub open spec fn explicit_api_ports(pairs: Seq<(Seq<char>, ApiServicePort)>) -> Seq<ApiServicePort>
    decreases pairs.len(),
{
    if pairs.len() == 0 {
        Seq::empty()
    } else {
        let rest = explicit_api_ports(pairs.drop_last());
        if is_api_name(pairs.last().0) {
            rest.push(pairs.last().1)
        } else {
            rest
        }
    }
}

/// The candidate API ports: the explicitly named ones when there are any,
/// otherwise every port.
pub open spec fn api_port_candidates_spec(pairs: Seq<(Seq<char>, ApiServicePort)>) -> Seq<ApiServicePort> {
    if explicit_api_ports(pairs).len() > 0 {
        explicit_api_ports(pairs)
    } else {
        pairs.map_values(|p: (Seq<char>, ApiServicePort)| p.1)
    }
}

/// Selects the API port candidates of a service: the ports named `http` or
/// `api` when there are any, otherwise every TCP port.
pub fn api_port_candidates(ports: Vec<(String, ApiServicePort)>) -> (r: Vec<ApiServicePort>)
    ensures
        r@ == api_port_candidates_spec(pair_views(ports@)),
{
    let ghost pv = pair_views(ports@);
    let mut explicit: Vec<ApiServicePort> = Vec::new();
    let mut all: Vec<ApiServicePort> = Vec::new();
    let mut i: usize = 0;
    while i < ports.len()
        invariant
            i <= ports.len(),
            pv == pair_views(ports@),
            explicit@ == explicit_api_ports(pv.take(i as int)),
            all@ == pv.take(i as int).map_values(|p: (Seq<char>, ApiServicePort)| p.1),
        decreases ports.len() - i,
    {
        assert(pv.take(i + 1).drop_last() =~= pv.take(i as int));
        assert(pv.take(i + 1).last() == (ports@[i as int].0@, ports@[i as int].1));
        let name = ports[i].0.as_str();
        if str_eq(name, "http") || str_eq(name, "api") {
            explicit.push(ports[i].1);
        }
        all.push(ports[i].1);
        assert(all@ =~= pv.take(i + 1).map_values(|p: (Seq<char>, ApiServicePort)| p.1));
        i = i + 1;
    }
    assert(pv.take(ports.len() as int) =~= pv);
    if explicit.len() > 0 {
        explicit
    } else {
        all
    }
}

/// The name used for a service in errors.
pub open spec fn service_label(service: ServiceInfo) -> Seq<char> {
    match service.name {
        Some(n) => n@,
        None => "<unknown>"@,
    }
}

fn service_label_exec(service: &ServiceInfo) -> (r: String)
    ensures
        r@ == service_label(*service),
{
    match &service.name {
        Some(n) => n.clone(),
        None => "<unknown>".to_owned(),
    }
}

/// Decimal service ports joined with `", "`.
pub open spec fn service_port_list(ports: Seq<ApiServicePort>) -> Seq<char> {
    join(ports.map_values(|p: ApiServicePort| decimal(p.service_port as nat)), ", "@)
}

fn service_port_list_exec(ports: &Vec<ApiServicePort>) -> (r: String)
    ensures
        r@ == service_port_list(ports@),
{
    let mut texts: Vec<String> = Vec::new();
    let mut i: usize = 0;
    while i < ports.len()
        invariant
            i <= ports.len(),
            views(texts@) == ports@.take(i as int).map_values(|p: ApiServicePort| decimal(p.service_port as nat)),
        decreases ports.len() - i,
    {
        let ghost before = views(texts@);
        let t = u64_to_decimal(ports[i].service_port as u64);
        texts.push(t);
        assert(views(texts@) =~= before.push(t@));
        assert(ports@.take(i + 1).map_values(|p: ApiServicePort| decimal(p.service_port as nat)) =~= ports@.take(
            i as int,
        ).map_values(|p: ApiServicePort| decimal(p.service_port as nat)).push(decimal(ports@[i as int].service_port as nat)));
        i = i + 1;
    }
    assert(ports@.take(ports.len() as int) =~= ports@);
    join_strings(&texts, ", ")
}

/// The candidate API ports of a service.
pub open spec fn service_api_ports(service: ServiceInfo) -> Seq<ApiServicePort> {
    api_port_candidates_spec(tcp_api_pairs(service.port_list()))
}

/// `e` is the error that resolving the API port of `service` reports when
/// the service does not have exactly one candidate.
pub open spec fn api_port_error(service: ServiceInfo, e: K8sAttachDiscoveryError) -> bool {
    let c = service_api_ports(service);
    &&& c.len() == 0 ==> (e matches K8sAttachDiscoveryError::ServiceHasNoTcpPorts { service: s }
        && s@ == service_label(service))
    &&& c.len() > 1 ==> (e matches K8sAttachDiscoveryError::ServiceHasMultipleApiPorts { service: s, ports: p }
        && s@ == service_label(service) && p@ == service_port_list(c))
}

/// Resolves the API port of a node service: the single candidate port, an
/// error when the service exposes no TCP port, or an error listing the
/// candidates when there are several.
pub fn extract_api_port(service: &ServiceInfo) -> (r: Result<ApiServicePort, K8sAttachDiscoveryError>)
    ensures
        service_api_ports(*service).len() == 1 ==> r == Ok::<ApiServicePort, K8sAttachDiscoveryError>(
            service_api_ports(*service)[0],
        ),
        service_api_ports(*service).len() != 1 ==> (r matches Err(e) && api_port_error(*service, e)),
{
    let service_name = service_label_exec(service);
    let ports = api_port_candidates(tcp_api_port_pairs(service));
    if ports.len() == 0 {
        Err(K8sAttachDiscoveryError::ServiceHasNoTcpPorts { service: service_name })
    } else if ports.len() == 1 {
        Ok(ports[0])
    } else {
        let list = service_port_list_exec(&ports);
        Err(K8sAttachDiscoveryError::ServiceHasMultipleApiPorts { service: service_name, ports: list })
    }
}

/// Resolves the node port used for direct access; a service without a node
/// port cannot be reached directly and is rejected here.
pub fn extract_api_node_port(service: &ServiceInfo) -> (r: Result<u16, K8sAttachDiscoveryError>)
    ensures
        ({
            let c = service_api_ports(*service);
            &&& c.len() != 1 ==> (r matches Err(e) && api_port_error(*service, e))
            &&& c.len() == 1 && c[0].node_port is Some ==> r == Ok::<u16, K8sAttachDiscoveryError>(c[0].node_port->0)
            &&& c.len() == 1 && c[0].node_port is None ==> (r matches Err(
                K8sAttachDiscoveryError::ServiceHasNoNodePort { service: s },
            ) && s@ == service_label(*service))
        }),
{
    let ports = extract_api_port(service)?;
    match ports.node_port {
        Some(p) => Ok(p),
        None => Err(K8sAttachDiscoveryError::ServiceHasNoNodePort { service: service_label_exec(service) }),
    }
}

/// Whether a discovered service yields an endpoint: it has a name and exactly
/// one candidate API port.
pub open spec fn service_endpoint_ok(service: ServiceInfo) -> bool {
    service.name is Some && service_api_ports(service).len() == 1
}

/// Builds the endpoint list of the discovered services: every service must
/// have a name and exactly one API port, and the first that does not decides
/// the error.
pub fn collect_service_endpoints(services: &Vec<ServiceInfo>) -> (r: Result<Vec<ServiceEndpoint>, K8sAttachDiscoveryError>)
    ensures
        r is Ok <==> forall|i: int| 0 <= i < services@.len() ==> service_endpoint_ok(#[trigger] services@[i]),
        r matches Ok(eps) ==> eps@.len() == services@.len() && forall|i: int| 0 <= i < eps@.len() ==> {
            &&& (#[trigger] eps@[i]).name@ == services@[i].name->0@
            &&& eps@[i].ports == service_api_ports(services@[i])[0]
        },
        r matches Err(e) ==> exists|i: int| 0 <= i < services@.len() && !service_endpoint_ok(#[trigger] services@[i])
            && (forall|j: int| 0 <= j < i ==> service_endpoint_ok(#[trigger] services@[j]))
            && (services@[i].name is None ==> e == K8sAttachDiscoveryError::MissingServiceName)
            && (services@[i].name is Some ==> api_port_error(services@[i], e)),
{
    let mut endpoints: Vec<ServiceEndpoint> = Vec::new();
    let mut i: usize = 0;
    while i < services.len()
        invariant
            i <= services.len(),
            endpoints@.len() == i,
            forall|j: int| 0 <= j < i ==> service_endpoint_ok(#[trigger] services@[j]),
            forall|j: int| 0 <= j < i ==> {
                &&& (#[trigger] endpoints@[j]).name@ == services@[j].name->0@
                &&& endpoints@[j].ports == service_api_ports(services@[j])[0]
            },
        decreases services.len() - i,
    {
        let service = &services[i];
        let name = match &service.name {
            Some(n) => n.clone(),
            None => {
                return Err(K8sAttachDiscoveryError::MissingServiceName);
            },
        };
        let ports = match extract_api_port(service) {
            Ok(p) => p,
            Err(e) => {
                return Err(e);
            },
        };
        endpoints.push(ServiceEndpoint { name, ports });
        i = i + 1;
    }
    Ok(endpoints)
}

/// The namespace and selector that name the node services of a request.
#[derive(Clone, Debug, PartialEq, Eq)]
pub struct K8sAttachRequest {
    /// Namespace holding the services (`default` when none is given).
    pub namespace: String,
    /// Label selector of the node services.
    pub label_selector: String,
}

/// The request named by a descriptor, when the descriptor names a non-blank
/// label selector.
pub open spec fn attach_request_ok(source: ExistingCluster, r: K8sAttachRequest) -> bool {
    &&& source.label_selector is Some
    &&& r.label_selector == source.label_selector->0
    &&& r.namespace@ == match source.namespace {
        Some(ns) => ns@,
        None => "default"@,
    }
}

fn request_from(source: &ExistingCluster, selector: String) -> (r: K8sAttachRequest)
    requires
        source.label_selector == Some(selector),
    ensures
        attach_request_ok(*source, r),
{
    let namespace = match &source.namespace {
        Some(ns) => ns.clone(),
        None => "default".to_owned(),
    };
    K8sAttachRequest { namespace, label_selector: selector }
}

/// Validates an attach descriptor: it must name a Kubernetes label selector
/// that is not blank; the namespace defaults to `default`.
pub fn k8s_attach_request(source: &ExistingCluster) -> (r: Result<K8sAttachRequest, K8sAttachDiscoveryError>)
    ensures
        source.label_selector is None ==> r == Err::<K8sAttachRequest, K8sAttachDiscoveryError>(
            K8sAttachDiscoveryError::UnsupportedSource { attach_source: *source },
        ),
        source.label_selector is Some && trim(source.label_selector->0@).len() == 0 ==> r
            == Err::<K8sAttachRequest, K8sAttachDiscoveryError>(K8sAttachDiscoveryError::EmptyLabelSelector),
        source.label_selector is Some && trim(source.label_selector->0@).len() > 0 ==> (r matches Ok(req)
            && attach_request_ok(*source, req)),
{
    let selector = match source.k8s_label_selector() {
        Some(s) => s,
        None => {
            return Err(K8sAttachDiscoveryError::UnsupportedSource { attach_source: source.clone() });
        },
    };
    if trim_str(selector.as_str()).as_str().is_empty() {
        return Err(K8sAttachDiscoveryError::EmptyLabelSelector);
    }
    Ok(request_from(source, selector))
}

/// Validates the descriptor of a readiness wait on an attached cluster, with
/// the same rules as [`k8s_attach_request`].
pub fn k8s_wait_request(source: &ExistingCluster) -> (r: Result<K8sAttachRequest, K8sAttachDiscoveryError>)
    ensures
        source.label_selector is None ==> r == Err::<K8sAttachRequest, K8sAttachDiscoveryError>(
            K8sAttachDiscoveryError::WaitRequiresK8sSource,
        ),
        source.label_selector is Some && trim(source.label_selector->0@).len() == 0 ==> r
            == Err::<K8sAttachRequest, K8sAttachDiscoveryError>(K8sAttachDiscoveryError::EmptyLabelSelector),
        source.label_selector is Some && trim(source.label_selector->0@).len() > 0 ==> (r matches Ok(req)
            && attach_request_ok(*source, req)),
{
    let selector = match source.k8s_label_selector() {
        Some(s) => s,
        None => {
            return Err(K8sAttachDiscoveryError::WaitRequiresK8sSource);
        },
    };
    if trim_str(selector.as_str()).as_str().is_empty() {
        return Err(K8sAttachDiscoveryError::EmptyLabelSelector);
    }
    Ok(request_from(source, selector))
}

/// The readiness URL of a node service reached on `host:port`.
pub open spec fn node_endpoint_url(host: Seq<char>, port: u16) -> Seq<char> {
    "http://"@ + host + ":"@ + decimal(port as nat) + "/"@
}

/// Formats the readiness URL of a node service reached on `host:port`.
pub fn node_endpoint_url_exec(host: &str, port: u16) -> (r: String)
    ensures
        r@ == node_endpoint_url(host@, port),
{
    let mut r = "http://".to_owned();
    r.append(host);
    r.append(":");
    r.append(u64_to_decimal(port as u64).as_str());
    r.append("/");
    r
}

/// `url` is the direct readiness URL of `service` on `host`: the service has
/// exactly one candidate API port and it has a node port.
pub open spec fn readiness_url_ok(service: ServiceInfo, host: Seq<char>, url: String) -> bool {
    let c = service_api_ports(service);
    &&& c.len() == 1
    &&& c[0].node_port is Some
    &&& url@ == node_endpoint_url(host, c[0].node_port->0)
}

/// The readiness endpoints of the discovered services, reached directly on
/// their node ports; the first service without a usable node port decides
/// the error.
pub fn collect_readiness_endpoints(host: &str, services: &Vec<ServiceInfo>) -> (r: Result<Vec<String>, K8sAttachDiscoveryError>)
    ensures
        r matches Ok(urls) ==> (urls@.len() == services@.len() && forall|i: int| 0 <= i < urls@.len()
            ==> readiness_url_ok(services@[i], host@, #[trigger] urls@[i])),
        r is Err ==> exists|i: int| 0 <= i < services@.len() && {
            let c = service_api_ports(#[trigger] services@[i]);
            c.len() != 1 || c[0].node_port is None
        },
{
    let mut urls: Vec<String> = Vec::new();
    let mut i: usize = 0;
    while i < services.len()
        invariant
            i <= services.len(),
            urls@.len() == i,
            forall|j: int| 0 <= j < i ==> readiness_url_ok(services@[j], host@, #[trigger] urls@[j]),
        decreases services.len() - i,
    {
        let port = match extract_api_node_port(&services[i]) {
            Ok(p) => p,
            Err(e) => {
                return Err(e);
            },
        };
        assert(service_api_ports(services@[i as int]).len() == 1);
        assert(service_api_ports(services@[i as int])[0].node_port == Some(port));
        let u = node_endpoint_url_exec(host, port);
        urls.push(u);
        assert(urls@[i as int] == u);
        i = i + 1;
    }
    Ok(urls)
}

/// The local address port-forwards listen on.
pub fn localhost() -> (r: String)
    ensures
        r@ == "127.0.0.1"@,
{
    "127.0.0.1".to_owned()
}

/// Describes a failed port-forward fallback: with the probed endpoint when a
/// direct probe preceded it, and as a cluster-IP failure otherwise.
pub fn forward_fallback_error(probe: Option<(String, u16)>, source: String) -> (r: K8sAttachDiscoveryError)
    ensures
        probe matches Some(p) ==> r == (K8sAttachDiscoveryError::EndpointsUnreachable {
            host: p.0,
            port: p.1,
            timeout_secs: DIRECT_PROBE_TIMEOUT_SECS,
            source,
        }),
        probe is None ==> r == (K8sAttachDiscoveryError::ClusterIpForwardFailed { source }),
{
    match probe {
        Some((host, port)) => K8sAttachDiscoveryError::EndpointsUnreachable {
            host,
            port,
            timeout_secs: DIRECT_PROBE_TIMEOUT_SECS,
            source,
        },
        None => K8sAttachDiscoveryError::ClusterIpForwardFailed { source },
    }
}

/// How the node services of an attached cluster are to be reached.
#[derive(Clone, Copy, Debug, PartialEq, Eq)]
pub enum DiscoveryPlan {
    /// Probe this node port on the node host, then decide with
    /// [`attach_access_mode`].
    ProbeDirect { node_port: u16 },
    /// Some service has no node port: forward every service, with no probe
    /// to report.
    ForwardWithoutProbe,
}

/// The first step of discovering an attached cluster from its resolved
/// endpoints: no endpoint means no matching service; endpoints that all
/// expose a node port are probed through the first one; otherwise every
/// service is forwarded.
pub fn discovery_plan(endpoints: &Vec<ServiceEndpoint>, request: &K8sAttachRequest) -> (r: Result<DiscoveryPlan, K8sAttachDiscoveryError>)
    ensures
        endpoints@.len() == 0 ==> r == Err::<DiscoveryPlan, K8sAttachDiscoveryError>(
            K8sAttachDiscoveryError::NoMatchingServices {
                namespace: request.namespace,
                selector: request.label_selector,
            },
        ),
        endpoints@.len() > 0 ==> match direct_probe_port_spec(endpoints@) {
            Some(p) => r == Ok::<DiscoveryPlan, K8sAttachDiscoveryError>(DiscoveryPlan::ProbeDirect { node_port: p }),
            None => r == Ok::<DiscoveryPlan, K8sAttachDiscoveryError>(DiscoveryPlan::ForwardWithoutProbe),
        },
{
    if endpoints.len() == 0 {
        return Err(
            K8sAttachDiscoveryError::NoMatchingServices {
                namespace: request.namespace.clone(),
                selector: request.label_selector.clone(),
            },
        );
    }
    match direct_probe_port(endpoints) {
        Some(p) => Ok(DiscoveryPlan::ProbeDirect { node_port: p }),
        None => Ok(DiscoveryPlan::ForwardWithoutProbe),
    }
}

/// The service names and node ports that direct clients are built against;
/// a service without a node port is an error.
pub fn direct_node_targets(endpoints: &Vec<ServiceEndpoint>) -> (r: Result<Vec<(String, u16)>, K8sAttachDiscoveryError>)
    ensures
        r is Ok <==> forall|i: int| 0 <= i < endpoints@.len() ==> (#[trigger] endpoints@[i]).ports.node_port is Some,
        r matches Ok(t) ==> t@.len() == endpoints@.len() && forall|i: int|
            0 <= i < t@.len() ==> (#[trigger] t@[i]).0 == endpoints@[i].name && Some(t@[i].1)
                == endpoints@[i].ports.node_port,
        r matches Err(e) ==> exists|i: int|
            0 <= i < endpoints@.len() && (#[trigger] endpoints@[i]).ports.node_port is None && (forall|j: int|
                0 <= j < i ==> (#[trigger] endpoints@[j]).ports.node_port is Some) && e
                == (K8sAttachDiscoveryError::ServiceHasNoNodePort { service: endpoints@[i].name }),
{
    let mut targets: Vec<(String, u16)> = Vec::new();
    let mut i: usize = 0;
    while i < endpoints.len()
        invariant
            i <= endpoints.len(),
            targets@.len() == i,
            forall|j: int| 0 <= j < i ==> (#[trigger] endpoints@[j]).ports.node_port is Some,
            forall|j: int|
                0 <= j < i ==> (#[trigger] targets@[j]).0 == endpoints@[j].name && Some(targets@[j].1)
                    == endpoints@[j].ports.node_port,
        decreases endpoints.len() - i,
    {
        let e = &endpoints[i];
        match e.ports.node_port {
            Some(p) => {
                targets.push((e.name.clone(), p));
            },
            None => {
                return Err(K8sAttachDiscoveryError::ServiceHasNoNodePort { service: e.name.clone() });
            },
        }
        i = i + 1;
    }
    Ok(targets)
}

/// Registers the forwards spawned for the discovered services (the `i`-th
/// forward listens on `local_ports[i]` for endpoint `i`) and returns the
/// client targets on the local host with the registry.
pub fn register_attach_forwards<H>(
    namespace: &str,
    endpoints: &Vec<ServiceEndpoint>,
    forwards: Vec<(u16, H)>,
) -> (r: (Vec<(String, u16)>, AttachedForwardRegistry<H>))
    requires
        forwards@.len() == endpoints@.len(),
    ensures
        r.0@.len() == endpoints@.len(),
        r.1@.len() == endpoints@.len(),
        forall|i: int|
            0 <= i < endpoints@.len() ==> {
                &&& (#[trigger] r.0@[i]).0 == endpoints@[i].name
                &&& r.0@[i].1 == forwards@[i].0
                &&& r.1@[i].0 == endpoints@[i].name@
                &&& r.1@[i].1 == (ForwardSpec {
                    namespace: r.1@[i].1.namespace,
                    service: endpoints@[i].name,
                    local_port: forwards@[i].0,
                    remote_port: endpoints@[i].ports.service_port,
                })
                &&& r.1@[i].1.namespace@ == namespace@
            },
        r.1.handles() == forwards@.map_values(|f: (u16, H)| f.1),
{
    let mut targets: Vec<(String, u16)> = Vec::new();
    let mut registry: AttachedForwardRegistry<H> = AttachedForwardRegistry::new();
    let mut rest = forwards;
    let ghost all = rest@;
    let mut taken: Vec<(u16, H)> = Vec::new();
    let mut k: usize = rest.len();
    while k > 0
        invariant
            k <= all.len(),
            rest@ == all.take(k as int),
            taken@.len() == all.len() - k,
            forall|j: int| 0 <= j < taken@.len() ==> (#[trigger] taken@[j]) == all[all.len() - 1 - j],
        decreases k,
    {
        let f = rest.pop().unwrap();
        assert(f == all[k - 1]);
        taken.push(f);
        k = k - 1;
    }
    let mut i: usize = 0;
    while i < endpoints.len()
        invariant
            all.len() == endpoints@.len(),
            i <= endpoints.len(),
            taken@.len() == endpoints@.len() - i,
            forall|j: int| 0 <= j < taken@.len() ==> (#[trigger] taken@[j]) == all[all.len() - 1 - j],
            registry.handles() == all.take(i as int).map_values(|f: (u16, H)| f.1),
            targets@.len() == i,
            registry@.len() == i,
            forall|j: int|
                0 <= j < i ==> {
                    &&& (#[trigger] targets@[j]).0 == endpoints@[j].name
                    &&& targets@[j].1 == all[j].0
                    &&& registry@[j].0 == endpoints@[j].name@
                    &&& registry@[j].1 == (ForwardSpec {
                        namespace: registry@[j].1.namespace,
                        service: endpoints@[j].name,
                        local_port: all[j].0,
                        remote_port: endpoints@[j].ports.service_port,
                    })
                    &&& registry@[j].1.namespace@ == namespace@
                },
        decreases endpoints.len() - i,
    {
        let (port, handle) = taken.pop().unwrap();
        assert(port == all[i as int].0);
        assert(handle == all[i as int].1);
        let e = &endpoints[i];
        targets.push((e.name.clone(), port));
        let spec = ForwardSpec {
            namespace: namespace.to_owned(),
            service: e.name.clone(),
            local_port: port,
            remote_port: e.ports.service_port,
        };
        let ghost before_handles = registry.handles();
        registry.register(e.name.clone(), spec, handle);
        assert(all.take(i + 1).map_values(|f: (u16, H)| f.1) =~= before_handles.push(all[i as int].1));
        i = i + 1;
    }
    assert(all.take(all.len() as int) =~= all);
    (targets, registry)
}

/// The message of a respawn request for a service with no forward.
pub open spec fn unregistered_forward_message(service: Seq<char>) -> Seq<char> {
    "no port-forward is registered for service '"@ + service + "'"@
}

/// The spec to respawn the forward of `service` with, or why there is none.
pub fn attached_respawn_spec<H>(forwards: &AttachedForwardRegistry<H>, service: &str) -> (r: Result<ForwardSpec, String>)
    ensures
        r is Ok <==> exists|i: int| 0 <= i < forwards@.len() && forwards@[i].0 == service@,
        r matches Ok(s) ==> exists|i: int|
            0 <= i < forwards@.len() && forwards@[i].0 == service@ && (forall|j: int|
                0 <= j < i ==> forwards@[j].0 != service@) && s == forwards@[i].1,
        r matches Err(m) ==> m@ == unregistered_forward_message(service@),
{
    match forwards.respawn_spec(service) {
        Some(s) => Ok(s),
        None => {
            let mut m = "no port-forward is registered for service '".to_owned();
            m.append(service);
            m.append("'");
            Err(m)
        },
    }
}

/// Ports none of which is named `http` or `api` give no explicit API port.
proof fn lemma_unnamed_ports_are_not_explicit(pairs: Seq<(Seq<char>, ApiServicePort)>)
    requires
        forall|j: int| 0 <= j < pairs.len() ==> (#[trigger] pairs[j]).0 != "http"@ && pairs[j].0 != "api"@,
    ensures
        explicit_api_ports(pairs).len() == 0,
    decreases pairs.len(),
{
    if pairs.len() > 0 {
        let rest = pairs.drop_last();
        assert forall|j: int| 0 <= j < rest.len() implies (#[trigger] rest[j]).0 != "http"@ && rest[j].0 != "api"@ by {
            assert(rest[j] == pairs[j]);
        }
        lemma_unnamed_ports_are_not_explicit(rest);
        assert(pairs.last() == pairs[pairs.len() - 1]);
    }
}

/// A port named `http` or `api` is the explicit API port: when exactly one
/// of the ports carries one of these names, it is the only candidate,
/// whatever the other ports are.
pub proof fn lemma_single_named_api_port_is_chosen(pairs: Seq<(Seq<char>, ApiServicePort)>, k: int)
    requires
        0 <= k < pairs.len(),
        pairs[k].0 == "http"@ || pairs[k].0 == "api"@,
        forall|j: int| 0 <= j < pairs.len() && j != k ==> (#[trigger] pairs[j]).0 != "http"@ && pairs[j].0 != "api"@,
    ensures
        api_port_candidates_spec(pairs) == seq![pairs[k].1],
{
    lemma_named_port_is_the_explicit_one(pairs, k);
}

proof fn lemma_named_port_is_the_explicit_one(pairs: Seq<(Seq<char>, ApiServicePort)>, k: int)
    requires
        0 <= k < pairs.len(),
        pairs[k].0 == "http"@ || pairs[k].0 == "api"@,
        forall|j: int| 0 <= j < pairs.len() && j != k ==> (#[trigger] pairs[j]).0 != "http"@ && pairs[j].0 != "api"@,
    ensures
        explicit_api_ports(pairs) == seq![pairs[k].1],
    decreases pairs.len(),
{
    let rest = pairs.drop_last();
    assert(pairs.last() == pairs[pairs.len() - 1]);
    if k == pairs.len() - 1 {
        assert forall|j: int| 0 <= j < rest.len() implies (#[trigger] rest[j]).0 != "http"@ && rest[j].0 != "api"@ by {
            assert(rest[j] == pairs[j]);
        }
        lemma_unnamed_ports_are_not_explicit(rest);
        assert(explicit_api_ports(rest) =~= Seq::<ApiServicePort>::empty());
        assert(explicit_api_ports(pairs) =~= seq![pairs[k].1]);
    } else {
        assert forall|j: int| 0 <= j < rest.len() && j != k implies (#[trigger] rest[j]).0 != "http"@ && rest[j].0
            != "api"@ by {
            assert(rest[j] == pairs[j]);
        }
        assert(rest[k] == pairs[k]);
        lemma_named_port_is_the_explicit_one(rest, k);
    }
}

/// The API port of a service whose TCP ports include exactly one named
/// `http` or `api` is that port, so resolving the service's API port
/// returns it.
pub proof fn lemma_service_named_api_port_is_resolved(service: ServiceInfo, k: int)
    requires
        0 <= k < tcp_api_pairs(service.port_list()).len(),
        tcp_api_pairs(service.port_list())[k].0 == "http"@ || tcp_api_pairs(service.port_list())[k].0 == "api"@,
        forall|j: int|
            0 <= j < tcp_api_pairs(service.port_list()).len() && j != k ==> (#[trigger] tcp_api_pairs(
                service.port_list(),
            )[j]).0 != "http"@ && tcp_api_pairs(service.port_list())[j].0 != "api"@,
    ensures
        service_api_ports(service) == seq![tcp_api_pairs(service.port_list())[k].1],
        service_api_ports(service).len() == 1,
{
    lemma_single_named_api_port_is_chosen(tcp_api_pairs(service.port_list()), k);
}

} // verus!
