use testing_framework_runner::k8s::workspace::resolve_optional_relative_dir;
use testing_framework_runner::k8s::env::default_cluster_identifiers;
use testing_framework_runner::k8s::deployer::endpoint_or_disabled;
use testing_framework_runner::k8s::env::{
    cfgsync_hostnames, default_attach_node_service_selector, default_node_name, format_indexed_name, indent_yaml,
    indexed_names, normalize_yaml_document, HelmManifest,
};
use testing_framework_runner::k8s::forwarding::{AttachedForwardRegistry, ForwardEntry, ForwardSpec, PortForwardRegistry};
use testing_framework_runner::k8s::infrastructure::helm::{
    build_install_args, build_uninstall_args, helm_command_label, helm_outcome, HelmError, HelmFileSetting,
    HelmInstallSpec, HelmReleaseBundle, HelmValueSetting,
};
use testing_framework_runner::k8s::model::DeploymentInfo;
use testing_framework_runner::k8s::provisioner::K8sClusterProvisioner;
use testing_framework_runner::k8s::wait::{ensure_ready_replicas, max_attempts_for_timeout, NodePortAllocation};
use testing_framework_runner::k8s::workspace::{
    bundled_runner_chart_path, join_relative, require_existing_path, require_existing_paths, select_workspace_root, RequiredPathError,
};
use testing_framework_runner::local::deployer::LocalClusterProvisioner;
use testing_framework_runner::scenario::{ClusterControlProfile, ClusterSourceKind, ClusterStartMode};

fn spec(service: &str, local: u16, remote: u16) -> ForwardSpec {
    ForwardSpec { namespace: "ns".to_owned(), service: service.to_owned(), local_port: local, remote_port: remote }
}

#[test]
fn helm_install_arguments_follow_the_bundle() {
    let mut bundle = HelmReleaseBundle::new("/charts/tf-runner".to_owned());
    bundle.values_files.push("values.yaml".to_owned());
    bundle.set_values.push(HelmValueSetting { key: "replicas".to_owned(), value: "2".to_owned() });
    bundle.set_files.push(HelmFileSetting { key: "config".to_owned(), path: "/tmp/config.yaml".to_owned() });
    let install = bundle.install_spec("tf-run".to_owned(), "tf-ns".to_owned());
    assert_eq!(
        build_install_args(&install),
        vec![
            "install", "tf-run", "/charts/tf-runner", "--namespace", "tf-ns", "--create-namespace", "--wait",
            "--timeout", "5m", "--set", "replicas=2", "-f", "values.yaml", "--set-file", "config=/tmp/config.yaml",
        ]
        .into_iter()
        .map(String::from)
        .collect::<Vec<_>>()
    );
    let bare = HelmInstallSpec::new("r".to_owned(), "c".to_owned(), "n".to_owned());
    assert_eq!(build_install_args(&bare).len(), 9);
}

#[test]
fn helm_uninstall_and_errors() {
    assert_eq!(build_uninstall_args("tf-run", "tf-ns"), vec!["uninstall", "tf-run", "--namespace", "tf-ns"]);
    assert_eq!(helm_command_label("install", "tf-run"), "helm install tf-run");
    assert_eq!(helm_outcome("helm install tf-run", true, Some(0), String::new(), String::new()), Ok(()));
    let error = helm_outcome("helm install tf-run", false, Some(1), "out".to_owned(), "err".to_owned())
        .expect_err("a failed helm run is an error");
    assert_eq!(error.message(), "helm install tf-run exited with status Some(1)\nstderr:\nerr\nstdout:\nout");
    assert_eq!(
        HelmError::Spawn { command: "helm install tf-run".to_owned(), source: "not found".to_owned() }.message(),
        "failed to spawn helm install tf-run: not found"
    );
}

#[test]
fn node_names_and_selectors() {
    assert_eq!(default_node_name("tf", 2), "tf-node-2");
    assert_eq!(default_attach_node_service_selector("tf"), "app.kubernetes.io/instance=tf");
    assert_eq!(cfgsync_hostnames("tf", 2), vec!["tf-node-0".to_owned(), "tf-node-1".to_owned()]);
    assert_eq!(format_indexed_name("node", 3), "node-3");
    assert_eq!(indexed_names("node", 2), vec!["node-0".to_owned(), "node-1".to_owned()]);
}

#[test]
fn manifests_join_documents() {
    let mut manifest = HelmManifest::new();
    manifest.push_raw_yaml("  a: 1\n");
    manifest.push_raw_yaml("   ");
    manifest.push_serialized_yaml("---\nb: 2\n");
    let mut other = HelmManifest::new();
    other.push_raw_yaml("c: 3");
    manifest.extend(other);
    assert_eq!(manifest.render(), "a: 1\n---\nb: 2\n---\nc: 3");
    assert_eq!(normalize_yaml_document("---\n---\nkey: v\n"), "key: v");
    assert_eq!(indent_yaml("a: 1\nb: 2", 2), "  a: 1\n  b: 2");
}

#[test]
fn chart_path_and_workspace_selection() {
    assert_eq!(join_relative("/work", "chart"), "/work/chart");
    assert_eq!(join_relative("/work/", "chart"), "/work/chart");
    assert_eq!(
        bundled_runner_chart_path("/work", true, "/crate/chart"),
        "/work/testing-framework/deployers/k8s/assets/helm/tf-runner"
    );
    assert_eq!(bundled_runner_chart_path("/work", false, "/crate/chart"), "/crate/chart");
    assert_eq!(
        select_workspace_root(None, vec![("/a".to_owned(), false), ("/b".to_owned(), true), ("/c".to_owned(), true)]),
        Some("/b".to_owned())
    );
    assert_eq!(select_workspace_root(Some("/o".to_owned()), vec![("/b".to_owned(), true)]), Some("/o".to_owned()));
    assert_eq!(select_workspace_root(None, vec![("/a".to_owned(), false)]), None);
}

#[test]
fn required_paths_must_exist() {
    assert_eq!(
        require_existing_paths(vec![("/a".to_owned(), Ok(true)), ("/b".to_owned(), Ok(true))]),
        Ok(vec!["/a".to_owned(), "/b".to_owned()])
    );
    let error = require_existing_paths(vec![("/a".to_owned(), Ok(false)), ("/b".to_owned(), Err("denied".to_owned()))])
        .expect_err("a missing path is an error");
    assert_eq!(error, RequiredPathError::MissingPath { path: "/a".to_owned() });
    assert_eq!(error.message(), "missing required path at /a");
}

#[test]
fn unreadable_required_path_is_an_io_error() {
    assert_eq!(
        require_existing_paths(vec![("/a".to_owned(), Ok(true)), ("/b".to_owned(), Err("denied".to_owned()))]),
        Err(RequiredPathError::Io { path: "/b".to_owned(), source: "denied".to_owned() })
    );
    assert_eq!(require_existing_path("/c".to_owned(), Ok(true)), Ok("/c".to_owned()));
    assert_eq!(
        require_existing_path("/c".to_owned(), Ok(false)),
        Err(RequiredPathError::MissingPath { path: "/c".to_owned() })
    );
}

#[test]
fn deployment_readiness_polls() {
    assert_eq!(max_attempts_for_timeout(0), 1);
    assert_eq!(max_attempts_for_timeout(2000), 1);
    assert_eq!(max_attempts_for_timeout(2001), 2);
    assert_eq!(max_attempts_for_timeout(60_000), 30);
    assert!(ensure_ready_replicas(&DeploymentInfo { replicas: None, ready_replicas: Some(1) }));
    assert!(!ensure_ready_replicas(&DeploymentInfo { replicas: Some(2), ready_replicas: Some(1) }));
    assert!(!ensure_ready_replicas(&DeploymentInfo { replicas: None, ready_replicas: None }));
}

#[test]
fn node_forwards_are_indexed_by_node() {
    let mut registry: PortForwardRegistry<u32> = PortForwardRegistry::new();
    assert!(registry.is_empty());
    registry.register_node(
        ForwardEntry { spec: spec("n0", 40000, 8080), handle: 1 },
        ForwardEntry { spec: spec("n0", 40001, 8081), handle: 2 },
    );
    assert_eq!(registry.registered_node_count(), 1);
    assert_eq!(registry.local_ports(0), Some(NodePortAllocation { api: 40000, auxiliary: 40001 }));
    assert_eq!(registry.local_ports(1), None);
    assert_eq!(registry.replace_handles(0, 3, 4), Some((1, 2)));
    let (api, _) = registry.respawn_specs(0).expect("node 0 has forwards");
    assert_eq!(api.local_port, 40000);
    assert!(registry.respawn_specs(1).is_err());
}

#[test]
fn attached_forwards_are_found_by_service() {
    let mut registry: AttachedForwardRegistry<u32> = AttachedForwardRegistry::new();
    registry.register("kv-node-0".to_owned(), spec("kv-node-0", 41000, 8080), 7);
    registry.register("kv-node-1".to_owned(), spec("kv-node-1", 41001, 8080), 8);
    assert_eq!(registry.local_api_ports(), vec![41000, 41001]);
    assert_eq!(registry.local_port("kv-node-1"), Some(41001));
    assert_eq!(registry.local_port("kv-node-2"), None);
    assert_eq!(registry.replace_handle("kv-node-0", 9), Some(7));
    assert_eq!(registry.respawn_spec("kv-node-0"), Some(spec("kv-node-0", 41000, 8080)));
    let taken = registry.take_all();
    assert_eq!(taken.iter().map(|e| e.handle).collect::<Vec<u32>>(), vec![9, 8]);
    assert_eq!(taken[1].service, "kv-node-1");
    assert!(registry.take_all().is_empty());
}

#[test]
fn on_demand_managed_unit_exposes_shared_control_and_cleanup() {
    let plan = K8sClusterProvisioner.plan(ClusterSourceKind::Managed, ClusterStartMode::OnDemand, true);
    assert_eq!(plan.profile, ClusterControlProfile::ManualControlled);
    assert!(plan.node_control);
    let eager = K8sClusterProvisioner.plan(ClusterSourceKind::Managed, ClusterStartMode::Eager, false);
    assert_eq!(eager.profile, ClusterControlProfile::FrameworkManaged);
    assert!(!eager.node_control);
}

#[test]
fn external_unit_is_borrowed_and_uncontrolled() {
    let plan = K8sClusterProvisioner.plan(ClusterSourceKind::External, ClusterStartMode::Eager, true);
    assert_eq!(plan.profile, ClusterControlProfile::ExternalUncontrolled);
    assert!(!plan.node_control);
}

#[test]
fn attached_unit_reports_backend_support_gap() {
    let k8s = K8sClusterProvisioner.plan(ClusterSourceKind::Attached, ClusterStartMode::Eager, true);
    assert_eq!(k8s.profile, ClusterControlProfile::ExistingClusterAttached);
    assert!(LocalClusterProvisioner.plan(ClusterSourceKind::Attached, ClusterStartMode::Eager, true).is_err());
}

#[test]
fn identifiers_and_observability_labels() {
    assert_eq!(
        default_cluster_identifiers(0x18f2a, 0x2a),
        ("tf-testnet-18f2a-2a".to_owned(), "tf-runner".to_owned())
    );
    assert_eq!(endpoint_or_disabled(None), "<disabled>");
    assert_eq!(endpoint_or_disabled(Some("http://grafana:3000/")), "http://grafana:3000/");
    assert_eq!(resolve_optional_relative_dir("/w", Some("logs".to_owned())), Some("/w/logs".to_owned()));
    assert_eq!(resolve_optional_relative_dir("/w", Some("/abs".to_owned())), Some("/abs".to_owned()));
    assert_eq!(resolve_optional_relative_dir("/w", None), None);
}
