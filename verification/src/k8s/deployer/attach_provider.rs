//! Attach discovery of a managed deployment's node services: every node is
//! reached directly on the node port of its API service port.

use vstd::prelude::*;

use crate::k8s::attach_provider::{is_api_name, node_endpoint_url, node_endpoint_url_exec, K8sAttachRequest};
use crate::k8s::model::{ExistingCluster, ServiceInfo, ServicePortInfo};
use crate::text::{decimal, join, join_strings, str_eq, trim, trim_str, u64_to_decimal, views};

verus! {

/// Failures while discovering node services by node port.
#[derive(Clone, Debug, PartialEq, Eq)]
pub enum K8sAttachDiscoveryError {
    /// The descriptor does not describe a Kubernetes deployment.
    UnsupportedSource { attach_source: ExistingCluster },
    /// The label selector is empty or white space.
    EmptyLabelSelector,
    /// A readiness wait was requested for a non-Kubernetes descriptor.
    WaitRequiresK8sSource,
    /// No service matched the selector.
    NoMatchingServices { namespace: String, selector: String },
    /// A service has no `metadata.name`.
    MissingServiceName,
    /// A service exposes no TCP node port.
    ServiceHasNoNodePorts { service: String },
    /// A service has several candidate API node ports.
    ServiceHasMultipleNodePorts { service: String, ports: String },
}

impl K8sAttachDiscoveryError {
    /// The human-readable message of the error.
    pub open spec fn message_view(&self) -> Seq<char> {
        match self {
            K8sAttachDiscoveryError::UnsupportedSource { .. } => "existing cluster descriptor is not supported by this provider: it names no k8s label selector"@,
            K8sAttachDiscoveryError::EmptyLabelSelector => "k8s attach source requires a non-empty label selector"@,
            K8sAttachDiscoveryError::WaitRequiresK8sSource => "k8s cluster wait requires a k8s existing-cluster descriptor"@,
            K8sAttachDiscoveryError::NoMatchingServices { namespace, selector } =>
                "no services matched label selector '"@ + selector@ + "' in namespace '"@ + namespace@ + "'"@,
            K8sAttachDiscoveryError::MissingServiceName => "k8s service has no metadata.name"@,
            K8sAttachDiscoveryError::ServiceHasNoNodePorts { service } =>
                "service '"@ + service@ + "' has no TCP node ports exposed"@,
            K8sAttachDiscoveryError::ServiceHasMultipleNodePorts { service, ports } =>
                "service '"@ + service@ + "' has multiple candidate API node ports ("@ + ports@
                    + "); explicit API port required"@,
        }
    }

    /// The human-readable message of the error.
    pub fn message(&self) -> (r: String)
        ensures
            r@ == self.message_view(),
    {
        match self {
            K8sAttachDiscoveryError::UnsupportedSource { .. } => "existing cluster descriptor is not supported by this provider: it names no k8s label selector".to_owned(),
            K8sAttachDiscoveryError::EmptyLabelSelector => "k8s attach source requires a non-empty label selector".to_owned(),
            K8sAttachDiscoveryError::WaitRequiresK8sSource => "k8s cluster wait requires a k8s existing-cluster descriptor".to_owned(),
            K8sAttachDiscoveryError::NoMatchingServices { namespace, selector } => {
                let mut r = "no services matched label selector '".to_owned();
                r.append(selector.as_str());
                r.append("' in namespace '");
                r.append(namespace.as_str());
                r.append("'");
                r
            },
            K8sAttachDiscoveryError::MissingServiceName => "k8s service has no metadata.name".to_owned(),
            K8sAttachDiscoveryError::ServiceHasNoNodePorts { service } => {
                let mut r = "service '".to_owned();
                r.append(service.as_str());
                r.append("' has no TCP node ports exposed");
                r
            },
            K8sAttachDiscoveryError::ServiceHasMultipleNodePorts { service, ports } => {
                let mut r = "service '".to_owned();
                r.append(service.as_str());
                r.append("' has multiple candidate API node ports (");
                r.append(ports.as_str());
                r.append("); explicit API port required");
                r
            },
        }
    }
}

/// The TCP node port of one service port: present only for TCP ports whose
/// node port is in the `u16` range.
pub open spec fn tcp_node_port(p: ServicePortInfo) -> Option<(Seq<char>, u16)> {
    match p.node_port {
        None => None,
        Some(v) => if !(0 <= v <= 65535) {
            None
        } else if !(p.protocol is None || p.protocol->0@ == "TCP"@) {
            None
        } else {
            Some(
                (
                    match p.name {
                        Some(n) => n@,
                        None => Seq::empty(),
                    },
                    v as u16,
                ),
            )
        },
    }
}

/// The TCP node ports of a list of service ports, in order.
pub open spec fn tcp_node_ports_spec(ports: Seq<ServicePortInfo>) -> Seq<(Seq<char>, u16)>
    decreases ports.len(),
{
    if ports.len() == 0 {
        Seq::empty()
    } else {
        let rest = tcp_node_ports_spec(ports.drop_last());
        match tcp_node_port(ports.last()) {
            Some(pair) => rest.push(pair),
            None => rest,
        }
    }
}

/// Views of named node ports.
pub open spec fn named_port_views(pairs: Seq<(String, u16)>) -> Seq<(Seq<char>, u16)> {
    pairs.map_values(|p: (String, u16)| (p.0@, p.1))
}

fn tcp_node_port_exec(p: &ServicePortInfo) -> (r: Option<(String, u16)>)
    ensures
        r matches Some(x) ==> tcp_node_port(*p) == Some((x.0@, x.1)),
        r is None ==> tcp_node_port(*p) is None,
{
    let v = match p.node_port {
        Some(v) => v,
        None => {
            return None;
        },
    };
    if !(0 <= v && v <= 65535) {
        return None;
    }
    let tcp = match &p.protocol {
        None => true,
        Some(x) => str_eq(x.as_str(), "TCP"),
    };
    if !tcp {
        return None;
    }
    let name = match &p.name {
        Some(n) => n.clone(),
        None => String::new(),
    };
    Some((name, v as u16))
}

/// The TCP node ports of a service as `(name, node port)` pairs.
pub fn tcp_node_ports(service: &ServiceInfo) -> (r: Vec<(String, u16)>)
    ensures
        named_port_views(r@) == tcp_node_ports_spec(service.port_list()),
{
    let mut out: Vec<(String, u16)> = Vec::new();
    match &service.ports {
        None => {
            assert(named_port_views(out@) =~= Seq::<(Seq<char>, u16)>::empty());
        },
        Some(ports) => {
            let mut i: usize = 0;
            while i < ports.len()
                invariant
                    i <= ports.len(),
                    service.port_list() == ports@,
                    named_port_views(out@) == tcp_node_ports_spec(ports@.take(i as int)),
                decreases ports.len() - i,
            {
                let ghost before = named_port_views(out@);
                assert(ports@.take(i + 1).drop_last() =~= ports@.take(i as int));
                assert(ports@.take(i + 1).last() == ports@[i as int]);
                match tcp_node_port_exec(&ports[i]) {
                    Some(pair) => {
                        out.push(pair);
                        assert(named_port_views(out@) =~= before.push((pair.0@, pair.1)));
                    },
                    None => {},
                }
                i = i + 1;
            }
            assert(ports@.take(ports.len() as int) =~= ports@);
        },
    }
    out
}

/// The node ports of explicitly named API ports (`http` or `api`).
pub open spec fn explicit_api_node_ports(pairs: Seq<(Seq<char>, u16)>) -> Seq<u16>
    decreases pairs.len(),
{
    if pairs.len() == 0 {
        Seq::empty()
    } else {
        let rest = explicit_api_node_ports(pairs.drop_last());
        if is_api_name(pairs.last().0) {
            rest.push(pairs.last().1)
        } else {
            rest
        }
    }
}

/// The candidate API node ports: the explicitly named ones when there are
/// any, otherwise every node port.
pub open spec fn api_port_candidates_spec(pairs: Seq<(Seq<char>, u16)>) -> Seq<u16> {
    if explicit_api_node_ports(pairs).len() > 0 {
        explicit_api_node_ports(pairs)
    } else {
        pairs.map_values(|p: (Seq<char>, u16)| p.1)
    }
}

/// Selects the API node port candidates of a service.
pub fn api_port_candidates(ports: Vec<(String, u16)>) -> (r: Vec<u16>)
    ensures
        r@ == api_port_candidates_spec(named_port_views(ports@)),
{
    let ghost pv = named_port_views(ports@);
    let mut explicit: Vec<u16> = Vec::new();
    let mut all: Vec<u16> = Vec::new();
    let mut i: usize = 0;
    while i < ports.len()
        invariant
            i <= ports.len(),
            pv == named_port_views(ports@),
            explicit@ == explicit_api_node_ports(pv.take(i as int)),
            all@ == pv.take(i as int).map_values(|p: (Seq<char>, u16)| p.1),
        decreases ports.len() - i,
    {
        assert(pv.take(i + 1).drop_last() =~= pv.take(i as int));
        assert(pv.take(i + 1).last() == (ports@[i as int].0@, ports@[i as int].1));
        let name = ports[i].0.as_str();
        if str_eq(name, "http") || str_eq(name, "api") {
            explicit.push(ports[i].1);
        }
        all.push(ports[i].1);
        assert(all@ =~= pv.take(i + 1).map_values(|p: (Seq<char>, u16)| p.1));
        i = i + 1;
    }
    assert(pv.take(ports.len() as int) =~= pv);
    if explicit.len() > 0 {
        explicit
    } else {
        all
    }
}

/// The candidate API node ports of a service.
pub open spec fn service_node_ports(service: ServiceInfo) -> Seq<u16> {
    api_port_candidates_spec(tcp_node_ports_spec(service.port_list()))
}

/// Decimal ports joined with `", "`.
pub open spec fn port_list(ports: Seq<u16>) -> Seq<char> {
    join(ports.map_values(|p: u16| decimal(p as nat)), ", "@)
}

fn port_list_exec(ports: &Vec<u16>) -> (r: String)
    ensures
        r@ == port_list(ports@),
{
    let mut texts: Vec<String> = Vec::new();
    let mut i: usize = 0;
    while i < ports.len()
        invariant
            i <= ports.len(),
            views(texts@) == ports@.take(i as int).map_values(|p: u16| decimal(p as nat)),
        decreases ports.len() - i,
    {
        let ghost before = views(texts@);
        let t = u64_to_decimal(ports[i] as u64);
        texts.push(t);
        assert(views(texts@) =~= before.push(t@));
        assert(ports@.take(i + 1).map_values(|p: u16| decimal(p as nat)) =~= ports@.take(i as int).map_values(
            |p: u16| decimal(p as nat),
        ).push(decimal(ports@[i as int] as nat)));
        i = i + 1;
    }
    assert(ports@.take(ports.len() as int) =~= ports@);
    join_strings(&texts, ", ")
}

/// The name used for a service in errors.
pub open spec fn service_label(service: ServiceInfo) -> Seq<char> {
    match service.name {
        Some(n) => n@,
        None => "<unknown>"@,
    }
}

/// `e` is the error reported for a service without exactly one candidate.
pub open spec fn node_port_error(service: ServiceInfo, e: K8sAttachDiscoveryError) -> bool {
    let c = service_node_ports(service);
    &&& c.len() == 0 ==> (e matches K8sAttachDiscoveryError::ServiceHasNoNodePorts { service: s } && s@
        == service_label(service))
    &&& c.len() > 1 ==> (e matches K8sAttachDiscoveryError::ServiceHasMultipleNodePorts { service: s, ports: p }
        && s@ == service_label(service) && p@ == port_list(c))
}

/// Resolves the API node port of a service: its single candidate, or an
/// error naming the service when it has none or several.
pub fn extract_api_node_port(service: &ServiceInfo) -> (r: Result<u16, K8sAttachDiscoveryError>)
    ensures
        service_node_ports(*service).len() == 1 ==> r == Ok::<u16, K8sAttachDiscoveryError>(
            service_node_ports(*service)[0],
        ),
        service_node_ports(*service).len() != 1 ==> (r matches Err(e) && node_port_error(*service, e)),
{
    let service_name = match &service.name {
        Some(n) => n.clone(),
        None => "<unknown>".to_owned(),
    };
    let ports = api_port_candidates(tcp_node_ports(service));
    if ports.len() == 0 {
        Err(K8sAttachDiscoveryError::ServiceHasNoNodePorts { service: service_name })
    } else if ports.len() == 1 {
        Ok(ports[0])
    } else {
        let list = port_list_exec(&ports);
        Err(K8sAttachDiscoveryError::ServiceHasMultipleNodePorts { service: service_name, ports: list })
    }
}

/// Whether a service has at least one TCP node port (others are dropped from
/// discovery).
pub fn has_tcp_node_ports(service: &ServiceInfo) -> (r: bool)
    ensures
        r == (tcp_node_ports_spec(service.port_list()).len() > 0),
{
    tcp_node_ports(service).len() > 0
}

/// Views of a list of services.
pub open spec fn service_views(services: Seq<ServiceInfo>) -> Seq<(Option<String>, Seq<ServicePortInfo>)> {
    services.map_values(|s: ServiceInfo| s@)
}

/// The services that expose at least one TCP node port, in order.
pub open spec fn services_with_node_ports(services: Seq<(Option<String>, Seq<ServicePortInfo>)>) -> Seq<
    (Option<String>, Seq<ServicePortInfo>),
> {
    services.filter(|s: (Option<String>, Seq<ServicePortInfo>)| tcp_node_ports_spec(s.1).len() > 0)
}

/// Keeps the services that expose at least one TCP node port.
pub fn filter_services_with_tcp_node_ports(services: Vec<ServiceInfo>) -> (r: Vec<ServiceInfo>)
    ensures
        service_views(r@) == services_with_node_ports(service_views(services@)),
{
    let mut out: Vec<ServiceInfo> = Vec::new();
    let mut i: usize = 0;
    let ghost sv = service_views(services@);
    let ghost pred = |s: (Option<String>, Seq<ServicePortInfo>)| tcp_node_ports_spec(s.1).len() > 0;
    while i < services.len()
        invariant
            i <= services.len(),
            sv == service_views(services@),
            pred == (|s: (Option<String>, Seq<ServicePortInfo>)| tcp_node_ports_spec(s.1).len() > 0),
            service_views(out@) == sv.take(i as int).filter(pred),
        decreases services.len() - i,
    {
        let ghost before = service_views(out@);
        proof {
            reveal(Seq::filter);
            assert(sv.take(i + 1).drop_last() =~= sv.take(i as int));
            assert(sv.take(i + 1).last() == services@[i as int]@);
        }
        if has_tcp_node_ports(&services[i]) {
            let c = services[i].clone();
            out.push(c);
            assert(service_views(out@) =~= before.push(c@));
        } else {
            assert(service_views(out@) =~= before);
        }
        i = i + 1;
    }
    assert(sv.take(services.len() as int) =~= sv);
    out
}

/// The name and direct endpoint of one attached node service.
pub fn attached_node_endpoint(host: &str, service: &ServiceInfo) -> (r: Result<(String, String), K8sAttachDiscoveryError>)
    ensures
        service.name is None ==> r == Err::<(String, String), K8sAttachDiscoveryError>(
            K8sAttachDiscoveryError::MissingServiceName,
        ),
        service.name is Some && service_node_ports(*service).len() == 1 ==> (r matches Ok(x) && x.0 == service.name->0
            && x.1@ == node_endpoint_url(host@, service_node_ports(*service)[0])),
        service.name is Some && service_node_ports(*service).len() != 1 ==> (r matches Err(e) && node_port_error(
            *service,
            e,
        )),
{
    let name = match &service.name {
        Some(n) => n.clone(),
        None => {
            return Err(K8sAttachDiscoveryError::MissingServiceName);
        },
    };
    let port = extract_api_node_port(service)?;
    Ok((name, node_endpoint_url_exec(host, port)))
}

/// The request named by a descriptor, when the descriptor names a non-blank
/// label selector.
pub open spec fn request_ok(source: ExistingCluster, r: K8sAttachRequest) -> bool {
    &&& source.label_selector is Some
    &&& r.label_selector == source.label_selector->0
    &&& r.namespace@ == match source.namespace {
        Some(ns) => ns@,
        None => "default"@,
    }
}

fn request_from(source: &ExistingCluster, selector: String) -> (r: K8sAttachRequest)
    requires
        source.label_selector == Some(selector),
    ensures
        request_ok(*source, r),
{
    let namespace = match &source.namespace {
        Some(ns) => ns.clone(),
        None => "default".to_owned(),
    };
    K8sAttachRequest { namespace, label_selector: selector }
}

/// Validates an attach descriptor: it must name a non-blank Kubernetes label
/// selector; the namespace defaults to `default`.
pub fn k8s_attach_request(source: &ExistingCluster) -> (r: Result<K8sAttachRequest, K8sAttachDiscoveryError>)
    ensures
        source.label_selector is None ==> r == Err::<K8sAttachRequest, K8sAttachDiscoveryError>(
            K8sAttachDiscoveryError::UnsupportedSource { attach_source: *source },
        ),
        source.label_selector is Some && trim(source.label_selector->0@).len() == 0 ==> r
            == Err::<K8sAttachRequest, K8sAttachDiscoveryError>(K8sAttachDiscoveryError::EmptyLabelSelector),
        source.label_selector is Some && trim(source.label_selector->0@).len() > 0 ==> (r matches Ok(req)
            && request_ok(*source, req)),
{
    let selector = match source.k8s_label_selector() {
        Some(s) => s,
        None => {
            return Err(K8sAttachDiscoveryError::UnsupportedSource { attach_source: source.clone() });
        },
    };
    if trim_str(selector.as_str()).as_str().is_empty() {
        return Err(K8sAttachDiscoveryError::EmptyLabelSelector);
    }
    Ok(request_from(source, selector))
}

/// Validates the descriptor of a readiness wait, with the same rules.
pub fn k8s_wait_request(source: &ExistingCluster) -> (r: Result<K8sAttachRequest, K8sAttachDiscoveryError>)
    ensures
        source.label_selector is None ==> r == Err::<K8sAttachRequest, K8sAttachDiscoveryError>(
            K8sAttachDiscoveryError::WaitRequiresK8sSource,
        ),
        source.label_selector is Some && trim(source.label_selector->0@).len() == 0 ==> r
            == Err::<K8sAttachRequest, K8sAttachDiscoveryError>(K8sAttachDiscoveryError::EmptyLabelSelector),
        source.label_selector is Some && trim(source.label_selector->0@).len() > 0 ==> (r matches Ok(req)
            && request_ok(*source, req)),
{
    let selector = match source.k8s_label_selector() {
        Some(s) => s,
        None => {
            return Err(K8sAttachDiscoveryError::WaitRequiresK8sSource);
        },
    };
    if trim_str(selector.as_str()).as_str().is_empty() {
        return Err(K8sAttachDiscoveryError::EmptyLabelSelector);
    }
    Ok(request_from(source, selector))
}

} // verus!
