use testing_framework_runner::k8s::attach_provider::{
    attached_respawn_spec, direct_node_targets, discovery_plan, register_attach_forwards, ApiServicePort,
    DiscoveryPlan, K8sAttachDiscoveryError, K8sAttachRequest, ServiceEndpoint,
};
use testing_framework_runner::k8s::cleanup::{
    after_api_delete, after_kubectl_delete, cleanup_route, kubectl_delete_namespace_args, namespace_deleted,
    namespace_phase_display, termination_step, CleanupRoute, DeleteRequestOutcome, DeleteStep, NamespacePoll,
    RunnerCleanup, TerminationStep,
};
use testing_framework_runner::k8s::deployer::{
    ensure_non_empty_node_clients, ensure_supported_topology, K8sDeployer, K8sRunnerError,
};
use testing_framework_runner::k8s::forwarding::{
    forward_ready_step, forward_ready_timeout, kubectl_port_forward_args, node_forward_specs, port_forward_process_error,
    port_forward_stderr_details, ForwardPoll, ForwardReadyStep,
};
use testing_framework_runner::k8s::infrastructure::assets::{
    build_node_group, build_values, cfgsync_timeout, helm_chart_path, kzg_display, resolve_kzg_path, script_paths,
    stack_assets_root, stack_scripts_root, testnet_image, validate_kzg_params, validate_scripts, AssetsError,
    GeneratedNodePorts, KzgMode,
};
use testing_framework_runner::k8s::wait::{ClusterWaitError, NodeConfigPorts, NodePortAllocation};

fn endpoint(name: &str, service_port: u16, node_port: Option<u16>) -> ServiceEndpoint {
    ServiceEndpoint { name: name.to_owned(), ports: ApiServicePort { service_port, node_port } }
}

fn request() -> K8sAttachRequest {
    K8sAttachRequest { namespace: "ns".to_owned(), label_selector: "app=kv".to_owned() }
}

#[test]
fn discovery_probes_node_ports_or_forwards() {
    assert_eq!(
        discovery_plan(&vec![], &request()),
        Err(K8sAttachDiscoveryError::NoMatchingServices { namespace: "ns".to_owned(), selector: "app=kv".to_owned() })
    );
    let direct = vec![endpoint("kv-0", 8080, Some(31000)), endpoint("kv-1", 8080, Some(31001))];
    assert_eq!(discovery_plan(&direct, &request()), Ok(DiscoveryPlan::ProbeDirect { node_port: 31000 }));
    assert_eq!(
        direct_node_targets(&direct),
        Ok(vec![("kv-0".to_owned(), 31000), ("kv-1".to_owned(), 31001)])
    );
    let mixed = vec![endpoint("kv-0", 8080, Some(31000)), endpoint("kv-1", 8080, None)];
    assert_eq!(discovery_plan(&mixed, &request()), Ok(DiscoveryPlan::ForwardWithoutProbe));
    assert_eq!(
        direct_node_targets(&mixed),
        Err(K8sAttachDiscoveryError::ServiceHasNoNodePort { service: "kv-1".to_owned() })
    );
}

#[test]
fn wait_node_ready_requires_registered_forward() {
    let endpoints = vec![endpoint("kv-0", 8080, None), endpoint("kv-1", 9090, None)];
    let (targets, registry) = register_attach_forwards("ns", &endpoints, vec![(41000, "h0"), (41001, "h1")]);
    assert_eq!(targets, vec![("kv-0".to_owned(), 41000), ("kv-1".to_owned(), 41001)]);
    let spec = attached_respawn_spec(&registry, "kv-1").expect("kv-1 has a forward");
    assert_eq!((spec.namespace.as_str(), spec.local_port, spec.remote_port), ("ns", 41001, 9090));
    assert_eq!(
        attached_respawn_spec(&registry, "kv-9").err(),
        Some("no port-forward is registered for service 'kv-9'".to_owned())
    );
    assert_eq!(registry.local_api_ports(), vec![41000, 41001]);
}

#[test]
fn port_forward_arguments_and_failures() {
    assert_eq!(
        kubectl_port_forward_args("ns", "kv-0", 41000, 8080),
        vec!["port-forward", "-n", "ns", "svc/kv-0", "41000:8080"]
    );
    assert_eq!(port_forward_stderr_details("  \n"), None);
    assert_eq!(port_forward_stderr_details(" refused \n"), Some("refused".to_owned()));
    assert_eq!(port_forward_process_error("exit status: 1", Some("refused")), "kubectl exited with exit status: 1: refused");
    assert_eq!(forward_ready_step(0, ForwardPoll::Reachable, "kv-0", 8080), ForwardReadyStep::Ready);
    assert_eq!(forward_ready_step(0, ForwardPoll::NotYetReachable, "kv-0", 8080), ForwardReadyStep::PollAgain);
    assert_eq!(forward_ready_step(239, ForwardPoll::NotYetReachable, "kv-0", 8080), ForwardReadyStep::GiveUp);
    assert_eq!(
        forward_ready_step(3, ForwardPoll::Exited { status: "exit status: 1".to_owned(), details: None }, "kv-0", 8080),
        ForwardReadyStep::Failed(ClusterWaitError::PortForward {
            service: "kv-0".to_owned(),
            port: 8080,
            source: "kubectl exited with exit status: 1".to_owned(),
        })
    );
    assert_eq!(
        forward_ready_timeout("kv-0", 8080, " gone "),
        ClusterWaitError::PortForward {
            service: "kv-0".to_owned(),
            port: 8080,
            source: "port-forward did not become ready: gone".to_owned(),
        }
    );
    let (api, auxiliary, allocation) =
        node_forward_specs("ns", "kv-0", NodeConfigPorts { api: 8080, auxiliary: 8081 }, 41000, 41001);
    assert_eq!((api.local_port, api.remote_port), (41000, 8080));
    assert_eq!((auxiliary.local_port, auxiliary.remote_port), (41001, 8081));
    assert_eq!(allocation, NodePortAllocation { api: 41000, auxiliary: 41001 });
}

#[test]
fn cleanup_guard_runs_once_and_locks_out_operations() {
    assert!(RunnerCleanup::new("ns".to_owned(), "rel".to_owned(), false).tears_down());
    assert!(!RunnerCleanup::new("ns".to_owned(), "rel".to_owned(), true).tears_down());
    assert_eq!(kubectl_delete_namespace_args("ns"), vec!["delete", "namespace", "ns", "--wait=true"]);
    assert_eq!(after_api_delete(DeleteRequestOutcome::Accepted), DeleteStep::AwaitTermination);
    assert_eq!(after_api_delete(DeleteRequestOutcome::TimedOut), DeleteStep::DeleteViaKubectl);
    assert_eq!(after_kubectl_delete(DeleteRequestOutcome::Failed), DeleteStep::GiveUp);
    assert!(!namespace_deleted(&NamespacePoll::Present { phase: None }));
    assert!(namespace_deleted(&NamespacePoll::Absent));
    assert!(namespace_deleted(&NamespacePoll::Failed { source: "x".to_owned() }));
    assert_eq!(namespace_phase_display(&None), "Unknown");
    assert_eq!(termination_step(0, false), TerminationStep::PollAgain { next: 1 });
    assert_eq!(termination_step(59, false), TerminationStep::StillPresent);
    assert_eq!(termination_step(10, true), TerminationStep::Done);
    assert_eq!(cleanup_route(false, true), CleanupRoute::Done);
    assert_eq!(cleanup_route(true, true), CleanupRoute::BackgroundThread);
    assert_eq!(cleanup_route(false, false), CleanupRoute::BackgroundThread);
}

#[test]
fn runner_errors_and_preflight() {
    assert_eq!(ensure_supported_topology(0), Err(K8sRunnerError::UnsupportedTopology { nodes: 0 }));
    assert!(ensure_supported_topology(2).is_ok());
    assert_eq!(ensure_non_empty_node_clients(0), Err(K8sRunnerError::RuntimePreflight));
    assert_eq!(
        K8sRunnerError::UnsupportedTopology { nodes: 0 }.message(),
        "kubernetes runner requires at least one node (nodes=0)"
    );
    assert_eq!(
        K8sRunnerError::SourceOrchestration { source: "boom".to_owned() }.message(),
        "source orchestration failed: boom"
    );
    let deployer = K8sDeployer::new();
    assert!(deployer.readiness_enabled(true));
    assert!(!deployer.with_readiness(false).readiness_enabled(true));
}

#[test]
fn stack_assets_layout() {
    assert_eq!(cfgsync_timeout(10), 300);
    assert_eq!(cfgsync_timeout(600), 600);
    assert_eq!(stack_assets_root("/w", "stack", true), "/w/stack");
    assert_eq!(stack_assets_root("/w", "stack", false), "/w/testnet");
    assert_eq!(stack_scripts_root("/w", "stack", true), "/w/stack/scripts");
    assert_eq!(stack_scripts_root("/w", "stack", false), "/w/testnet/scripts");
    let paths = script_paths("/w/testnet/scripts");
    assert_eq!(paths.run_node, "/w/testnet/scripts/run_nomos_node.sh");
    assert_eq!(
        validate_scripts(script_paths("/s"), (true, false, false)),
        Err(AssetsError::MissingScript { path: "/s/run_nomos.sh".to_owned() })
    );
    assert!(validate_scripts(script_paths("/s"), (true, true, true)).is_ok());
    assert_eq!(
        validate_kzg_params("/w", "kzg", None, false),
        Err(AssetsError::MissingKzg { path: "/w/kzg".to_owned() })
    );
    assert_eq!(validate_kzg_params("/w", "kzg", Some("/p".to_owned()), true), Ok("/p".to_owned()));
    assert_eq!(resolve_kzg_path(KzgMode::InImage, Err(AssetsError::MissingKzg { path: "/p".to_owned() })), Ok(None));
    assert_eq!(kzg_display(&None), "<in-image>");
    assert_eq!(
        helm_chart_path("/crate", false).err().map(|e| e.message()),
        Some("missing Helm chart at /crate/helm/nomos-runner; ensure the repository is up-to-date".to_owned())
    );
    assert_eq!(testnet_image(None), "public.ecr.aws/r4s5t9y4/logos/logos-blockchain:test");
}

#[test]
fn stack_values_carry_node_environment() {
    let nodes = vec![
        GeneratedNodePorts { network: 3000, da: 3100, blend: 3200, api: 8080, testing_http: 8081 },
        GeneratedNodePorts { network: 3001, da: 3101, blend: 3201, api: 8090, testing_http: 8091 },
    ];
    let group = build_node_group(&nodes, "false");
    assert_eq!(group.count, 2);
    let env: Vec<(&str, &str)> = group.nodes[1].env.iter().map(|(k, v)| (k.as_str(), v.as_str())).collect();
    assert_eq!(
        env,
        vec![
            ("CFG_API_PORT", "8090"),
            ("CFG_BLEND_PORT", "3201"),
            ("CFG_DA_PORT", "3101"),
            ("CFG_HOST_IDENTIFIER", "node-1"),
            ("CFG_NETWORK_PORT", "3001"),
            ("CFG_TESTING_HTTP_PORT", "8091"),
            ("POL_PROOF_DEV_MODE", "false"),
        ]
    );
    let values = build_values(4400, None, None, &nodes);
    assert_eq!(values.image_pull_policy, "IfNotPresent");
    assert_eq!(values.cfgsync_port, 4400);
    assert_eq!(values.nodes.nodes[0].env[6].1, "true");
    assert_eq!(values.nodes.nodes[0].testing_http_port, 8081);
}
