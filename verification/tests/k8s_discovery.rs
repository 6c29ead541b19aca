use testing_framework_runner::k8s::attach_provider::{
    api_port_candidates, attach_access_mode, collect_readiness_endpoints, collect_service_endpoints,
    direct_probe_port, extract_api_node_port, extract_api_port, forward_fallback_error, k8s_attach_request,
    k8s_wait_request, tcp_api_port_pairs, ApiServicePort, AttachAccessMode, K8sAttachDiscoveryError,
    ServiceEndpoint,
};
use testing_framework_runner::k8s::deployer::attach_provider as deployer_attach;
use testing_framework_runner::k8s::model::{ExistingCluster, ServiceInfo, ServicePortInfo};

fn port(name: Option<&str>, port: i32, node_port: Option<i32>) -> ServicePortInfo {
    ServicePortInfo { name: name.map(|n| n.to_owned()), port, node_port, protocol: None }
}

fn service(name: Option<&str>, ports: Vec<ServicePortInfo>) -> ServiceInfo {
    ServiceInfo { name: name.map(|n| n.to_owned()), ports: Some(ports) }
}

#[test]
fn attach_provider_extract_api_node_port_returns_single_port() {
    let service = service(None, vec![port(None, 8080, Some(31234))]);
    let port = extract_api_node_port(&service).expect("single port should resolve");
    assert_eq!(port, 31234);
}

#[test]
fn attach_provider_extract_api_node_port_prefers_http_name() {
    let service = service(
        None,
        vec![port(Some("testing-http"), 8081, Some(31234)), port(Some("http"), 8080, Some(31235))],
    );
    let port = extract_api_node_port(&service).expect("http-named port should resolve");
    assert_eq!(port, 31235);
}

#[test]
fn extract_api_port_pairs_service_and_node_ports() {
    let service = service(None, vec![port(Some("api"), 8080, Some(31234))]);
    let ports = extract_api_port(&service).expect("api port should resolve");
    assert_eq!(ports.service_port, 8080);
    assert_eq!(ports.node_port, Some(31234));
}

#[test]
fn cluster_ip_service_resolves_to_forward_path() {
    let service = service(None, vec![port(Some("api"), 8080, None)]);
    let ports = extract_api_port(&service).expect("a ClusterIP service must resolve");
    assert_eq!(ports.service_port, 8080);
    assert_eq!(ports.node_port, None);

    let endpoints = vec![ServiceEndpoint { name: "kv-node-0".to_owned(), ports }];
    assert_eq!(
        direct_probe_port(&endpoints),
        None,
        "a service without a node port must skip the direct probe and go straight to port-forwarding"
    );

    let error = extract_api_node_port(&service).expect_err("direct access must be rejected without a node port");
    assert!(error.message().contains("no node port"), "got: {}", error.message());
}

#[test]
fn node_port_services_keep_the_direct_probe() {
    let endpoints = vec![
        ServiceEndpoint {
            name: "kv-node-0".to_owned(),
            ports: ApiServicePort { service_port: 8080, node_port: Some(31234) },
        },
        ServiceEndpoint {
            name: "kv-node-1".to_owned(),
            ports: ApiServicePort { service_port: 8080, node_port: Some(31235) },
        },
    ];
    assert_eq!(direct_probe_port(&endpoints), Some(31234));
}

#[test]
fn reachable_endpoint_keeps_direct_access() {
    assert_eq!(attach_access_mode(true), AttachAccessMode::Direct);
}

#[test]
fn unreachable_endpoint_selects_port_forward_fallback() {
    assert_eq!(attach_access_mode(false), AttachAccessMode::PortForward);
}

#[test]
fn extract_api_node_port_returns_single_port() {
    let service = service(None, vec![port(None, 0, Some(31234))]);
    let port = deployer_attach::extract_api_node_port(&service).expect("single port should resolve");
    assert_eq!(port, 31234);
}

#[test]
fn extract_api_node_port_prefers_http_name() {
    let service = service(
        None,
        vec![port(Some("testing-http"), 0, Some(31234)), port(Some("http"), 0, Some(31235))],
    );
    let port = deployer_attach::extract_api_node_port(&service).expect("http-named port should resolve");
    assert_eq!(port, 31235);
}

#[test]
fn udp_ports_are_not_api_candidates() {
    let mut udp = port(Some("http"), 9000, Some(32000));
    udp.protocol = Some("UDP".to_owned());
    let service = service(Some("kv-node-0"), vec![udp, port(Some("metrics"), 9100, Some(32001))]);
    let pairs = tcp_api_port_pairs(&service);
    assert_eq!(pairs.len(), 1);
    assert_eq!(pairs[0].0, "metrics");
    assert_eq!(extract_api_node_port(&service), Ok(32001));
}

#[test]
fn several_unnamed_candidates_are_ambiguous() {
    let candidates = api_port_candidates(vec![
        ("a".to_owned(), ApiServicePort { service_port: 1, node_port: None }),
        ("b".to_owned(), ApiServicePort { service_port: 2, node_port: None }),
    ]);
    assert_eq!(candidates.len(), 2);
    let service = service(Some("kv-node-0"), vec![port(Some("a"), 1, None), port(Some("b"), 2, None)]);
    assert!(extract_api_port(&service).is_err());
}

#[test]
fn service_without_tcp_ports_is_rejected() {
    let service = ServiceInfo { name: Some("kv-node-0".to_owned()), ports: None };
    assert_eq!(
        extract_api_port(&service),
        Err(K8sAttachDiscoveryError::ServiceHasNoTcpPorts { service: "kv-node-0".to_owned() })
    );
}

#[test]
fn service_endpoints_keep_service_order() {
    let services = vec![
        service(Some("kv-node-0"), vec![port(Some("http"), 8080, Some(31000))]),
        service(Some("kv-node-1"), vec![port(Some("http"), 8080, Some(31001))]),
    ];
    let endpoints = collect_service_endpoints(&services).expect("both services resolve");
    assert_eq!(endpoints.len(), 2);
    assert_eq!(endpoints[0].name, "kv-node-0");
    assert_eq!(endpoints[1].ports.node_port, Some(31001));
}

#[test]
fn unnamed_service_is_rejected_during_collection() {
    let services = vec![service(None, vec![port(Some("http"), 8080, Some(31000))])];
    assert_eq!(collect_service_endpoints(&services), Err(K8sAttachDiscoveryError::MissingServiceName));
}

#[test]
fn readiness_endpoints_use_node_ports() {
    let services = vec![
        service(Some("kv-node-0"), vec![port(Some("http"), 8080, Some(31000))]),
        service(Some("kv-node-1"), vec![port(Some("http"), 8080, Some(31001))]),
    ];
    let urls = collect_readiness_endpoints("10.0.0.5", &services).expect("node ports resolve");
    assert_eq!(urls, vec!["http://10.0.0.5:31000/".to_owned(), "http://10.0.0.5:31001/".to_owned()]);
}

#[test]
fn attach_request_requires_a_selector() {
    let empty = ExistingCluster::for_k8s_selector("   ".to_owned());
    assert_eq!(k8s_attach_request(&empty), Err(K8sAttachDiscoveryError::EmptyLabelSelector));
    let source = ExistingCluster::for_k8s_selector_in_namespace("ns".to_owned(), "app=kv".to_owned());
    let request = k8s_attach_request(&source).expect("selector is present");
    assert_eq!(request.namespace, "ns");
    assert_eq!(request.label_selector, "app=kv");
    let wait = k8s_wait_request(&source).expect("selector is present");
    assert_eq!(wait.label_selector, "app=kv");
}

#[test]
fn attach_request_defaults_to_the_default_namespace() {
    let source = ExistingCluster::for_k8s_selector("app=kv".to_owned());
    let request = k8s_attach_request(&source).expect("selector is present");
    assert_eq!(request.namespace, "default");
}

#[test]
fn fallback_error_mentions_the_probe() {
    let error = forward_fallback_error(Some(("10.0.0.5".to_owned(), 31000)), "refused".to_owned());
    let message = error.message();
    assert!(message.contains("refused"), "got: {message}");
}

#[test]
fn deployer_filters_services_without_tcp_node_ports() {
    let services = vec![
        service(Some("kv-node-0"), vec![port(Some("http"), 8080, Some(31000))]),
        service(Some("kv-node-1"), vec![port(Some("http"), 8080, None)]),
    ];
    let kept = deployer_attach::filter_services_with_tcp_node_ports(services);
    assert_eq!(kept.len(), 1);
    assert_eq!(kept[0].name.as_deref(), Some("kv-node-0"));
}
