use std::collections::HashSet;

use testing_framework_runner::k8s::attached_control::{
    validate_deployment_shape, K8sAttachedControlError, K8sAttachedNodeControl,
};
use testing_framework_runner::k8s::deployer::node_control::{
    ensure_default_start_options, ensure_node_running, K8sNodeControl, K8sNodeControlError,
};
use testing_framework_runner::k8s::manual::{
    canonical_node_name, ensure_default_cfgsync_options, replica_wait, scale_down_step, ReplicaWait, ScaleDownStep,
    SCALE_DOWN_POLL_INTERVAL_MS, SCALE_DOWN_POLL_RETRIES, finish_scale_down, is_retryable_scale_error,
    is_valid_cluster_name, parse_node_index, scale_down_poll, validate_provision_request,
    validate_restart_options, validate_start_options, ManualCluster, ManualClusterError,
};
use testing_framework_runner::k8s::model::DeploymentInfo;
use testing_framework_runner::k8s::wait::{NodeConfigPorts, NodePortAllocation};
use testing_framework_runner::scenario::{PeerSelection, StartNodeOptions};

fn deployment_with_replicas(replicas: Option<i32>) -> DeploymentInfo {
    DeploymentInfo { replicas, ready_replicas: None }
}

fn ports(n: usize) -> Vec<NodeConfigPorts> {
    (0..n).map(|_| NodeConfigPorts { api: 8080, auxiliary: 8081 }).collect()
}

#[test]
fn parse_node_index_accepts_node_labels() {
    assert_eq!(parse_node_index("node-0"), Some(0));
    assert_eq!(parse_node_index("node-12"), Some(12));
    assert_eq!(parse_node_index("validator-0"), None);
}

#[test]
fn canonical_names_parse_back() {
    for index in [0usize, 1, 9, 10, 4096] {
        assert_eq!(parse_node_index(&canonical_node_name(index)), Some(index));
    }
    assert_eq!(canonical_node_name(7), "node-7");
    assert_eq!(parse_node_index("node-"), None);
    assert_eq!(parse_node_index("node-x"), None);
}

#[test]
fn validate_start_options_accepts_config_overrides() {
    let override_config = StartNodeOptions::default().with_config_override("override".to_owned());
    let patched = StartNodeOptions::default().with_config_patch();
    assert!(validate_start_options(&override_config).is_ok());
    assert!(validate_start_options(&patched).is_ok());
}

#[test]
fn validate_start_options_rejects_persist_and_snapshot_dirs() {
    let persist = StartNodeOptions::default().with_persist_dir("/tmp/demo".to_owned());
    let snapshot = StartNodeOptions::default().with_snapshot_dir("/tmp/snapshot".to_owned());
    assert!(matches!(
        validate_start_options(&persist),
        Err(ManualClusterError::UnsupportedStartOptions { .. })
    ));
    assert!(matches!(
        validate_start_options(&snapshot),
        Err(ManualClusterError::UnsupportedStartOptions { .. })
    ));
}

#[test]
fn ensure_default_cfgsync_options_rejects_non_default_overrides() {
    let peers = StartNodeOptions::default().with_peers(PeerSelection::Named(vec!["node-0".to_owned()]));
    let override_config = StartNodeOptions::default().with_config_override("override".to_owned());
    assert!(matches!(
        ensure_default_cfgsync_options(&peers),
        Err(ManualClusterError::UnsupportedStartOptions { .. })
    ));
    assert!(matches!(
        ensure_default_cfgsync_options(&override_config),
        Err(ManualClusterError::UnsupportedStartOptions { .. })
    ));
    assert!(ensure_default_cfgsync_options(&StartNodeOptions::default()).is_ok());
}

#[test]
fn validate_restart_options_rejects_args_and_timeout_overrides() {
    let with_args = StartNodeOptions::default().with_args(vec!["--flag".to_owned()]);
    let with_timeout = StartNodeOptions::default().with_start_timeout_secs(5);
    assert!(matches!(
        validate_restart_options(&with_args),
        Err(ManualClusterError::UnsupportedStartOptions { .. })
    ));
    assert!(matches!(
        validate_restart_options(&with_timeout),
        Err(ManualClusterError::UnsupportedStartOptions { .. })
    ));
    assert!(validate_restart_options(&StartNodeOptions::default()).is_ok());
}

#[test]
fn record_node_client_replaces_entry_after_restart() {
    let mut cluster: ManualCluster<String> = ManualCluster::on_demand("ns".to_owned(), "rel".to_owned(), ports(1));
    cluster.record_node_client(0, "http://old/".to_owned());
    cluster.mark_running(0);

    cluster.record_node_client(0, "http://new/".to_owned());

    assert_eq!(cluster.node_clients().len(), 1);
    assert_eq!(cluster.node_clients(), &vec!["http://new/".to_owned()]);
    assert_eq!(cluster.node_client("node-0").map(|c| c.as_str()), Some("http://new/"));
}

#[test]
fn record_node_client_appends_once_for_first_start() {
    let mut cluster: ManualCluster<String> = ManualCluster::on_demand("ns".to_owned(), "rel".to_owned(), ports(1));

    cluster.record_node_client(0, "http://first/".to_owned());
    cluster.record_node_client(0, "http://second/".to_owned());

    assert_eq!(cluster.node_clients().len(), 1);
    assert_eq!(cluster.node_clients(), &vec!["http://second/".to_owned()]);
}

#[test]
fn external_client_appends_keep_recorded_slots_stable() {
    let mut cluster: ManualCluster<String> = ManualCluster::on_demand("ns".to_owned(), "rel".to_owned(), ports(2));
    cluster.record_node_client(1, "http://node-1/".to_owned());
    cluster.add_external_client("http://external/".to_owned());
    cluster.record_node_client(0, "http://node-0/".to_owned());
    cluster.record_node_client(1, "http://node-1-restarted/".to_owned());

    assert_eq!(
        cluster.node_clients(),
        &vec![
            "http://node-1-restarted/".to_owned(),
            "http://external/".to_owned(),
            "http://node-0/".to_owned()
        ]
    );
    assert_eq!(cluster.node_client("node-0").map(|c| c.as_str()), Some("http://node-0/"));
    assert_eq!(cluster.node_client("node-1").map(|c| c.as_str()), Some("http://node-1-restarted/"));
    assert_eq!(cluster.node_client("node-2"), None);
}

#[test]
fn invalid_cluster_name_is_rejected_before_kubernetes_access() {
    let result = validate_provision_request(1, Some("Bad_Name"));
    assert!(matches!(
        result,
        Err(ManualClusterError::InvalidClusterName { name }) if name == "Bad_Name"
    ));
    assert!(validate_provision_request(1, Some("good-name-1")).is_ok());
    assert!(validate_provision_request(1, None).is_ok());
    assert_eq!(
        validate_provision_request(0, None),
        Err(ManualClusterError::UnsupportedTopology { nodes: 0 })
    );
}

#[test]
fn cluster_names_are_dns_labels() {
    assert!(is_valid_cluster_name("a"));
    assert!(is_valid_cluster_name("tf-run-42"));
    assert!(!is_valid_cluster_name(""));
    assert!(!is_valid_cluster_name("-leading"));
    assert!(!is_valid_cluster_name("trailing-"));
    assert!(!is_valid_cluster_name("Upper"));
    assert!(!is_valid_cluster_name(&"a".repeat(64)));
    assert!(is_valid_cluster_name(&"a".repeat(63)));
}

#[test]
fn manual_cluster_start_stop_bookkeeping() {
    let mut cluster: ManualCluster<String> = ManualCluster::on_demand("ns".to_owned(), "rel".to_owned(), ports(2));
    let options = StartNodeOptions::default();
    assert_eq!(cluster.begin_start("node-1", &options), Ok(1));
    assert_eq!(
        cluster.begin_start("node-2", &options),
        Err(ManualClusterError::NodeIndexOutOfRange { index: 2, nodes: 2 })
    );
    assert!(matches!(
        cluster.begin_start("worker", &options),
        Err(ManualClusterError::InvalidNodeName { name }) if name == "worker"
    ));
    assert!(matches!(
        cluster.begin_restart("node-1", &options),
        Err(ManualClusterError::NodeNotRunning { name }) if name == "node-1"
    ));
    cluster.mark_running(1);
    assert!(matches!(
        cluster.begin_start("node-1", &options),
        Err(ManualClusterError::NodeAlreadyRunning { name }) if name == "node-1"
    ));
    assert_eq!(cluster.begin_restart("node-1", &options), Ok(1));
    assert_eq!(cluster.begin_stop("node-1"), Ok(1));
    assert_eq!(cluster.running_nodes(), vec![1]);
}

#[test]
fn closed_cluster_refuses_operations() {
    let mut cluster: ManualCluster<String> = ManualCluster::on_demand("ns".to_owned(), "rel".to_owned(), ports(1));
    assert!(cluster.close());
    assert!(!cluster.close());
    assert!(cluster.is_closed());
    assert_eq!(cluster.begin_start("node-0", &StartNodeOptions::default()), Err(ManualClusterError::Closed));
    assert_eq!(cluster.network_readiness_ports(), Err(ManualClusterError::Closed));
    assert_eq!(ManualClusterError::Closed.message(), "k8s manual cluster is no longer owned by an active run");
}

#[test]
fn wait_network_ready_is_ok_before_any_node_started() {
    let cluster: ManualCluster<String> = ManualCluster::on_demand("ns".to_owned(), "rel".to_owned(), ports(2));
    assert_eq!(cluster.network_readiness_ports(), Ok(None));
}

#[test]
fn node_control_wait_node_ready_requires_allocation() {
    let mut cluster: ManualCluster<String> = ManualCluster::on_demand("ns".to_owned(), "rel".to_owned(), ports(1));
    cluster.mark_running(0);
    let error = cluster.node_readiness_port("node-0").expect_err("no allocation yet");
    assert!(matches!(&error, ManualClusterError::NodeClient { name, .. } if name == "node-0"));
    assert!(error.message().contains("no active port-forward allocation"));
    cluster.set_allocation(0, NodePortAllocation { api: 40000, auxiliary: 40001 });
    assert_eq!(cluster.node_readiness_port("node-0"), Ok(40000));
    assert_eq!(cluster.network_readiness_ports(), Ok(Some(vec![40000])));
}

#[test]
fn node_control_wait_node_ready_rejects_stopped_node() {
    let cluster: ManualCluster<String> = ManualCluster::on_demand("ns".to_owned(), "rel".to_owned(), ports(1));
    let error = cluster.require_running_node_index("node-0").expect_err("node-0 is stopped");
    assert!(matches!(&error, ManualClusterError::NodeNotRunning { name } if name == "node-0"));
    assert!(error.message().contains("is not running"));
}

#[test]
fn wait_network_ready_errors_when_all_nodes_stopped() {
    let mut cluster: ManualCluster<String> = ManualCluster::on_demand("ns".to_owned(), "rel".to_owned(), ports(2));
    cluster.record_node_client(0, "http://node-0/".to_owned());
    let error = cluster.network_readiness_ports().expect_err("every node is stopped");
    assert_eq!(
        error.message(),
        "cluster network readiness failed: all 2 nodes are stopped; no running nodes to await readiness"
    );
}

#[test]
fn node_control_reports_canonical_node_names() {
    let cluster: ManualCluster<String> = ManualCluster::on_demand("ns".to_owned(), "rel".to_owned(), ports(3));
    assert_eq!(cluster.node_names(), vec!["node-0".to_owned(), "node-1".to_owned(), "node-2".to_owned()]);
}

#[test]
fn attachment_describes_namespace_and_node_service_selector() {
    let cluster: ManualCluster<String> = ManualCluster::on_demand("tf-ns".to_owned(), "tf-rel".to_owned(), ports(1));
    let attachment = cluster.attachment();
    assert_eq!(attachment.k8s_namespace().as_deref(), Some("tf-ns"));
    assert_eq!(attachment.k8s_label_selector().as_deref(), Some("app.kubernetes.io/instance=tf-rel"));
}

#[test]
fn eager_cluster_runs_every_node() {
    let cluster: ManualCluster<String> = ManualCluster::eager(
        "ns".to_owned(),
        "rel".to_owned(),
        "10.0.0.5".to_owned(),
        ports(2),
        vec![NodePortAllocation { api: 31000, auxiliary: 31001 }, NodePortAllocation { api: 31002, auxiliary: 31003 }],
        vec!["http://a/".to_owned(), "http://b/".to_owned()],
    );
    assert_eq!(cluster.running_nodes(), vec![0, 1]);
    assert_eq!(cluster.network_readiness_ports(), Ok(Some(vec![31000, 31002])));
    assert_eq!(
        cluster.node_access("node-1"),
        Ok(("10.0.0.5".to_owned(), NodePortAllocation { api: 31002, auxiliary: 31003 }))
    );
}

#[test]
fn scale_down_polls_until_no_replica_remains() {
    assert!(scale_down_poll("node-0", Some(0), Some(0)).is_ok());
    assert!(scale_down_poll("node-0", None, Some(0)).is_ok());
    let still_running = scale_down_poll("node-0", Some(1), Some(0));
    assert!(matches!(&still_running, Err(e) if is_retryable_scale_error(e)));
    assert!(scale_down_poll("node-0", None, None).is_err());
    assert_eq!(
        finish_scale_down(still_running, "node-0", 0),
        Err(ManualClusterError::ReplicaScaleTimeout { name: "node-0".to_owned(), replicas: 0 })
    );
    assert_eq!(finish_scale_down(Ok(()), "node-0", 0), Ok(()));
}

#[test]
fn manual_error_messages() {
    assert_eq!(
        ManualClusterError::InvalidNodeName { name: "x".to_owned() }.message(),
        "invalid node name 'x'; expected node-<index>"
    );
    assert_eq!(
        ManualClusterError::NodeIndexOutOfRange { index: 4, nodes: 2 }.message(),
        "node index 4 is out of range for topology with 2 nodes"
    );
    assert_eq!(
        ManualClusterError::ReplicaScaleTimeout { name: "node-1".to_owned(), replicas: -1 }.message(),
        "node 'node-1' did not reach -1 replicas before the scale timeout"
    );
    assert_eq!(
        ManualClusterError::UnsupportedTopology { nodes: 0 }.message(),
        "kubernetes runner requires at least one node (nodes=0)"
    );
}

#[test]
fn default_start_options_are_accepted() {
    let options = StartNodeOptions::default();
    assert!(ensure_default_start_options(&options).is_ok());
}

#[test]
fn persist_and_config_overrides_are_rejected() {
    let persist = StartNodeOptions::default().with_persist_dir("/tmp/demo".to_owned());
    let override_config = StartNodeOptions::default().with_config_override("override".to_owned());
    assert!(matches!(
        ensure_default_start_options(&persist),
        Err(K8sNodeControlError::UnsupportedStartOptions { .. })
    ));
    assert!(matches!(
        ensure_default_start_options(&override_config),
        Err(K8sNodeControlError::UnsupportedStartOptions { .. })
    ));
}

#[test]
fn args_and_start_timeout_overrides_are_rejected() {
    let mut with_args = StartNodeOptions::default();
    with_args.args.push("--flag".to_owned());
    let mut with_timeout = StartNodeOptions::default();
    with_timeout.start_timeout_secs = Some(5);
    assert!(matches!(
        ensure_default_start_options(&with_args),
        Err(K8sNodeControlError::UnsupportedStartOptions { .. })
    ));
    assert!(matches!(
        ensure_default_start_options(&with_timeout),
        Err(K8sNodeControlError::UnsupportedStartOptions { .. })
    ));
}

#[test]
fn running_state_rejects_stopped_nodes() {
    let running = HashSet::from([0]);
    assert!(ensure_node_running(&running, 0).is_ok());
    assert!(matches!(
        ensure_node_running(&running, 1),
        Err(K8sNodeControlError::NodeNotRunning { name }) if name == "node-1"
    ));
}

#[test]
fn deployment_shape_accepts_single_replica() {
    let explicit = deployment_with_replicas(Some(1));
    let defaulted = deployment_with_replicas(None);
    assert!(validate_deployment_shape(&explicit, "kv-node-0", "attached-ns").is_ok());
    assert!(validate_deployment_shape(&defaulted, "kv-node-0", "attached-ns").is_ok());
}

#[test]
fn deployment_shape_rejects_scaled_out_workload() {
    let scaled = deployment_with_replicas(Some(3));
    let error = validate_deployment_shape(&scaled, "kv-node-0", "attached-ns")
        .expect_err("a multi-replica deployment must be rejected");
    assert!(matches!(error, K8sAttachedControlError::UnexpectedReplicas { replicas: 3, .. }));
    let message = error.message();
    assert!(message.contains("kv-node-0"), "got: {message}");
    assert!(message.contains("attached-ns"), "got: {message}");
}

#[test]
fn restart_node_rejects_unknown_node_names() {
    let control = K8sAttachedNodeControl::new(
        "attached-ns".to_owned(),
        vec![("kv-node-0".to_owned(), "http://a/".to_owned()), ("kv-node-1".to_owned(), "http://b/".to_owned())],
    );
    let error = control.require_known_node("kv-node-9").expect_err("unknown node must be rejected");
    assert!(matches!(
        &error,
        K8sAttachedControlError::UnknownNode { name, known, .. } if name == "kv-node-9" && known == "kv-node-0, kv-node-1"
    ));
    assert!(control.require_known_node("kv-node-1").is_ok());
}

#[test]
fn node_names_and_clients_come_from_discovery() {
    let control = K8sAttachedNodeControl::new(
        "attached-ns".to_owned(),
        vec![("kv-node-0".to_owned(), "http://a/".to_owned()), ("kv-node-1".to_owned(), "http://b/".to_owned())],
    );
    assert_eq!(control.node_names(), vec!["kv-node-0".to_owned(), "kv-node-1".to_owned()]);
    assert_eq!(control.node_client("kv-node-1").map(|c| c.as_str()), Some("http://b/"));
    assert_eq!(control.node_client("kv-node-2"), None);
}

#[test]
fn start_and_restart_checks_follow_running_state() {
    let mut control = K8sNodeControl::new(
        "ns".to_owned(),
        "rel".to_owned(),
        "127.0.0.1".to_owned(),
        vec![8080, 8081],
        vec![9090, 9091],
        false,
    );
    let defaults = StartNodeOptions::default();
    assert!(matches!(
        control.begin_start_with("node-0", &defaults),
        Err(K8sNodeControlError::NodeAlreadyRunning { name }) if name == "node-0"
    ));
    assert_eq!(control.begin_restart_with("node-1", &defaults).ok(), Some(1));
    control.set_running(1, false);
    assert_eq!(control.begin_start_with("node-1", &defaults).ok(), Some(1));
    assert!(matches!(
        control.begin_restart_with("node-1", &defaults),
        Err(K8sNodeControlError::NodeNotRunning { name }) if name == "node-1"
    ));
    assert!(control.begin_start_with("node-7", &defaults).is_err());
    let persist = StartNodeOptions::default().with_persist_dir("/tmp/demo".to_owned());
    assert!(matches!(
        control.begin_start_with("node-1", &persist),
        Err(K8sNodeControlError::UnsupportedStartOptions { .. })
    ));
}

#[test]
fn scale_down_is_polled_on_a_fixed_schedule() {
    assert_eq!(replica_wait(1), ReplicaWait::UntilReady);
    assert_eq!(replica_wait(0), ReplicaWait::UntilScaledDown);
    assert_eq!(SCALE_DOWN_POLL_INTERVAL_MS, 500);
    assert_eq!(SCALE_DOWN_POLL_RETRIES, 240);
    let running = || Err(ManualClusterError::NodeAlreadyRunning { name: "node-0".to_owned() });
    assert_eq!(scale_down_step(0, running(), "node-0", 0), ScaleDownStep::PollAgain { next: 1 });
    assert_eq!(scale_down_step(239, running(), "node-0", 0), ScaleDownStep::PollAgain { next: 240 });
    assert_eq!(
        scale_down_step(240, running(), "node-0", 0),
        ScaleDownStep::Finished(Err(ManualClusterError::ReplicaScaleTimeout { name: "node-0".to_owned(), replicas: 0 }))
    );
    assert_eq!(scale_down_step(3, Ok(()), "node-0", 0), ScaleDownStep::Finished(Ok(())));
    let patch_failed = ManualClusterError::PatchDeployment { name: "d".to_owned(), source: "gone".to_owned() };
    assert_eq!(
        scale_down_step(3, Err(patch_failed), "node-0", 0),
        ScaleDownStep::Finished(Err(ManualClusterError::PatchDeployment { name: "d".to_owned(), source: "gone".to_owned() }))
    );
}
