use testing_framework_runner::named_map::NamedMap;
use testing_framework_runner::local::node_control::{resolve_peer_ports, udp_port_allocation_error};
use testing_framework_runner::local::binary::{
    debug_quote, encode_hex, encode_sha256, lock_step, resolve_uncached, u64_to_hex, BinaryCache,
    BinaryProviderError, BuildBinaryProvider, BuildCommand, DownloadBinaryProvider, EnvBinaryProvider,
    FallbackBinaryProvider, FallbackStep, LockAttempt, LockStep, PathBinaryProvider,
};
use testing_framework_runner::local::deployer::{
    build_retry_execution_config, ensure_local_cluster_mode, env_enabled, should_retry, ClusterMode,
    LocalDeployer, RetryPolicy,
};
use testing_framework_runner::local::env::{
    allocate_local_node_ports, build_local_peer_nodes, compact_peer_ports, preallocate_ports, text_config_launch_spec,
    LocalNodePorts, LocalProcessSpec,
};
use testing_framework_runner::local::external::{parse_api_endpoint, ExternalClientBuildError};
use testing_framework_runner::local::node_control::{
    normalize_node_name, validate_restart_options, LocalNodeRegistry, NetworkWaitStep, NodeManagerError,
    NodeManagerSeed,
};
use testing_framework_runner::local::process::{NodeEndpointPort, NodeEndpoints};
use testing_framework_runner::local::readiness::{is_ready, timeout_message, ManualNetworkStatus};
use testing_framework_runner::scenario::StartNodeOptions;

#[test]
fn typed_ports_roundtrip() {
    let mut endpoints = NodeEndpoints::default();
    endpoints.insert_port(NodeEndpointPort::TestingApi, 18081);
    endpoints.insert_port(NodeEndpointPort::Network, 3000);
    endpoints.insert_port(NodeEndpointPort::Custom("metrics".to_string()), 9000);

    assert_eq!(endpoints.port(&NodeEndpointPort::TestingApi), Some(18081));
    assert_eq!(endpoints.port(&NodeEndpointPort::Network), Some(3000));
    assert_eq!(endpoints.port(&NodeEndpointPort::Custom("metrics".to_string())), Some(9000));
}

#[test]
fn inserting_a_port_again_replaces_it() {
    let mut endpoints = NodeEndpoints::from_api_port(8080);
    endpoints.insert_port(NodeEndpointPort::Network, 3000);
    endpoints.insert_port(NodeEndpointPort::Network, 3001);
    assert_eq!(endpoints.port(&NodeEndpointPort::Network), Some(3001));
    assert_eq!(endpoints.port(&NodeEndpointPort::Custom("other".to_owned())), None);
    assert_eq!(endpoints.extra_ports().len(), 1);
}

#[test]
fn local_cluster_validator_accepts_managed_mode() {
    ensure_local_cluster_mode(ClusterMode::Managed).expect("managed mode should be accepted");
}

#[test]
fn local_cluster_validator_rejects_existing_cluster_mode() {
    let error = ensure_local_cluster_mode(ClusterMode::ExistingCluster)
        .expect_err("existing-cluster mode should be rejected");
    assert_eq!(
        error.message(),
        "source orchestration failed: local deployer does not support existing-cluster mode"
    );
}

#[test]
fn sha256_of_abc_matches_the_reference_vector() {
    assert_eq!(
        encode_sha256(b"abc"),
        "ba7816bf8f01cfea414140de5dae2223b00361a396177a9cb410ff61f20015ad"
    );
    assert_eq!(
        encode_sha256(b""),
        "e3b0c44298fc1c149afbf4c8996fb92427ae41e4649b934ca495991b7852b855"
    );
}

#[test]
fn hex_rendering() {
    assert_eq!(encode_hex(&[0x00, 0x0f, 0xa0, 0xff]), "000fa0ff");
    assert_eq!(u64_to_hex(0), "0");
    assert_eq!(u64_to_hex(255), "ff");
    assert_eq!(u64_to_hex(u64::MAX), "ffffffffffffffff");
    assert_eq!(DownloadBinaryProvider::download_file_name(0xbeef), "binary-beef");
}

#[test]
fn checksum_verification() {
    let good = "ba7816bf8f01cfea414140de5dae2223b00361a396177a9cb410ff61f20015ad".to_owned();
    assert!(DownloadBinaryProvider::verify_checksum("/tmp/bin", Some(good), b"abc").is_ok());
    assert!(DownloadBinaryProvider::verify_checksum("/tmp/bin", None, b"abc").is_ok());
    let error = DownloadBinaryProvider::verify_checksum("/tmp/bin", Some("00".to_owned()), b"abc")
        .expect_err("a wrong checksum must be rejected");
    assert_eq!(
        error,
        BinaryProviderError::ChecksumMismatch {
            path: "/tmp/bin".to_owned(),
            expected: "00".to_owned(),
            actual: "ba7816bf8f01cfea414140de5dae2223b00361a396177a9cb410ff61f20015ad".to_owned(),
        }
    );
    assert_eq!(
        error.message(),
        "downloaded binary sha256 mismatch for \"/tmp/bin\": expected 00, got ba7816bf8f01cfea414140de5dae2223b00361a396177a9cb410ff61f20015ad"
    );
}

#[test]
fn debug_quote_escapes_like_debug() {
    for s in ["plain", "with \"quotes\"", "back\\slash", "line\nbreak", "tab\there", "esc\u{1b}[0m", "del\u{7f}", "nul\0"] {
        assert_eq!(debug_quote(s), format!("{s:?}"));
    }
}

#[test]
fn resolves_configured_absolute_path() {
    let provider = PathBinaryProvider::new("/usr/bin/node".to_owned());
    assert_eq!(provider.try_resolve_with(true), Ok(Some("/usr/bin/node".to_owned())));
    assert_eq!(provider.try_resolve_with(false), Ok(None));
    assert_eq!(provider.cache_key(), "path:/usr/bin/node");
}

#[test]
fn rejects_relative_configured_path() {
    let provider = PathBinaryProvider::new("bin/node".to_owned());
    let error = provider.try_resolve_with(true).expect_err("relative paths are rejected");
    assert_eq!(error.message(), "binary path must be absolute: \"bin/node\"");
}

#[test]
fn unresolved_provider_reports_not_found() {
    assert_eq!(
        resolve_uncached(Ok(None), "env".to_owned()),
        Err(BinaryProviderError::NotFound { provider: "env".to_owned() })
    );
    assert_eq!(resolve_uncached(Ok(Some("/bin/x".to_owned())), "env".to_owned()), Ok("/bin/x".to_owned()));
    let env = EnvBinaryProvider::new("NODE_BIN".to_owned());
    assert_eq!(env.try_resolve_with(Some("/bin/x".to_owned()), true), Some("/bin/x".to_owned()));
    assert_eq!(env.try_resolve_with(Some("/bin/x".to_owned()), false), None);
    assert_eq!(env.cache_key(), "env:NODE_BIN");
}

#[test]
fn resolves_first_available_fallback_provider() {
    assert_eq!(
        FallbackBinaryProvider::<PathBinaryProvider>::step(Err(BinaryProviderError::NotFound {
            provider: "env".to_owned()
        })),
        FallbackStep::TryNext
    );
    assert_eq!(
        FallbackBinaryProvider::<PathBinaryProvider>::step(Ok("/bin/x".to_owned())),
        FallbackStep::Resolved("/bin/x".to_owned())
    );
    assert_eq!(
        FallbackBinaryProvider::<PathBinaryProvider>::step(Err(BinaryProviderError::RelativePath {
            path: "x".to_owned()
        })),
        FallbackStep::Fail(BinaryProviderError::RelativePath { path: "x".to_owned() })
    );
    assert_eq!(
        FallbackBinaryProvider::<PathBinaryProvider>::display_of(&vec!["env".to_owned(), "path".to_owned()]),
        "env,path"
    );
}

#[test]
fn build_provider_paths_and_keys() {
    let command = BuildCommand::new("cargo".to_owned()).with_args(vec!["build".to_owned(), "--release".to_owned()]);
    assert_eq!(command.display(), "cargo build --release");
    let provider = BuildBinaryProvider::new(command, "target/release/node".to_owned());
    assert_eq!(provider.cache_key(), "build:cargo build --release:target/release/node:");
    assert_eq!(provider.output_path_in("/work"), "/work/target/release/node");
    assert_eq!(provider.lock_path_in("/work"), "/work/.tf-binaries/node.lock");
    assert_eq!(
        BuildBinaryProvider::output_outcome("/work/out".to_owned(), false),
        Err(BinaryProviderError::MissingBuildOutput { path: "/work/out".to_owned() })
    );
    assert_eq!(
        BuildBinaryProvider::build_outcome(false, "exit status: 1".to_owned()),
        Err(BinaryProviderError::BuildFailed { status: "exit status: 1".to_owned() })
    );
}

#[test]
fn download_provider_keys() {
    let provider = DownloadBinaryProvider::from_url("https://example.test/node".to_owned());
    assert_eq!(provider.cache_key(), "download:https://example.test/node:::");
    assert_eq!(provider.processor_label(), "identity");
    let processed = provider.with_processor("untar".to_owned());
    assert_eq!(processed.processor_label(), "untar");
    assert_eq!(processed.cache_key(), "download:https://example.test/node::untar:");
}

#[test]
fn lock_protocol_steps() {
    assert_eq!(lock_step(LockAttempt::Created, 0, "/l"), LockStep::Acquired);
    assert_eq!(lock_step(LockAttempt::AlreadyExists, 1000, "/l"), LockStep::RetryAfterMillis(200));
    assert_eq!(
        lock_step(LockAttempt::AlreadyExists, 600_000, "/l"),
        LockStep::Fail(BinaryProviderError::LockTimeout { path: "/l".to_owned() })
    );
    assert_eq!(
        lock_step(LockAttempt::Failed("denied".to_owned()), 0, "/l"),
        LockStep::Fail(BinaryProviderError::Io { path: "/l".to_owned(), source: "denied".to_owned() })
    );
}

#[test]
fn fallback_reuses_inner_provider_cache() {
    let mut cache = BinaryCache::new();
    assert_eq!(cache.get("env:X"), None);
    cache.insert("env:X".to_owned(), "/bin/a".to_owned());
    cache.insert("path:/bin/b".to_owned(), "/bin/b".to_owned());
    cache.insert("env:X".to_owned(), "/bin/c".to_owned());
    assert_eq!(cache.get("env:X"), Some("/bin/c".to_owned()));
    assert_eq!(cache.get("path:/bin/b"), Some("/bin/b".to_owned()));
}

#[test]
fn successful_resolutions_are_cached_by_key() {
    let mut cache = BinaryCache::new();
    let failed = cache.record_resolution(
        "env:X".to_owned(),
        resolve_uncached(Ok(None), "env var X".to_owned()),
    );
    assert_eq!(failed, Err(BinaryProviderError::NotFound { provider: "env var X".to_owned() }));
    assert_eq!(cache.get("env:X"), None);
    let resolved = cache.record_resolution("env:X".to_owned(), resolve_uncached(Ok(Some("/bin/x".to_owned())), "env var X".to_owned()));
    assert_eq!(resolved, Ok("/bin/x".to_owned()));
    assert_eq!(cache.get("env:X"), Some("/bin/x".to_owned()));
    assert_eq!(cache.get("env:Y"), None);
}

#[test]
fn cached_resolution_skips_the_attempt() {
    let mut cache = BinaryCache::new();
    let mut runs = 0;
    let failed = cache.resolve_through("path:/bin/x".to_owned(), "path".to_owned(), || {
        runs += 1;
        Ok(None)
    });
    assert_eq!(failed, Err(BinaryProviderError::NotFound { provider: "path".to_owned() }));
    let first = cache.resolve_through("path:/bin/x".to_owned(), "path".to_owned(), || {
        runs += 1;
        Ok(Some("/bin/x".to_owned()))
    });
    assert_eq!(first, Ok("/bin/x".to_owned()));
    let second = cache.resolve_through("path:/bin/x".to_owned(), "path".to_owned(), || {
        runs += 1;
        Ok(Some("/bin/other".to_owned()))
    });
    assert_eq!(second, Ok("/bin/x".to_owned()));
    assert_eq!(runs, 2);
}

#[test]
fn port_preallocation_reports_the_first_failure() {
    assert_eq!(preallocate_ports(vec![Ok(1), Ok(2)], "node").ok(), Some(vec![1, 2]));
    let error = preallocate_ports(vec![Ok(1), Err("busy".to_owned()), Err("later".to_owned())], "node")
        .expect_err("a failed attempt fails the allocation");
    assert_eq!(error.message().contains("failed to pre-allocate node ports: busy"), true);
}

#[test]
fn node_ports_are_allocated_per_role() {
    let names = vec!["api".to_owned(), "metrics".to_owned()];
    let ports = allocate_local_node_ports(
        2,
        &names,
        "local",
        vec![Ok(3000), Ok(3001)],
        vec![vec![Ok(8080), Ok(8081)], vec![Ok(9090), Ok(9091)]],
    )
    .expect("every attempt succeeded");
    assert_eq!(ports.len(), 2);
    assert_eq!(ports[1].network_port(), 3001);
    assert_eq!(ports[0].get("api"), Some(8080));
    assert_eq!(ports[1].get("metrics"), Some(9091));
    assert_eq!(ports[1].get("other"), None);
    assert!(ports[0].require("other").is_err());

    let failed = allocate_local_node_ports(1, &names, "local", vec![Ok(3000)], vec![vec![Ok(8080)], vec![Err("busy".to_owned())]]);
    assert!(failed.is_err());
}

#[test]
fn peers_exclude_the_node_itself() {
    let peers = build_local_peer_nodes(&vec![3000, 3001, 3002], 1);
    assert_eq!(peers.len(), 2);
    assert_eq!(peers[0].index(), 0);
    assert_eq!(peers[1].index(), 2);
    assert_eq!(peers[1].network_port(), 3002);
    assert_eq!(peers[1].authority(), "127.0.0.1:3002");
    assert_eq!(compact_peer_ports(&vec![3000, 3001, 3002], 0), vec![3001, 3002]);
}

#[test]
fn launch_spec_uses_flag_config_by_default() {
    let spec = LocalProcessSpec::new("APP_BIN").with_binary_path("/tmp/app".to_owned());
    let launch = text_config_launch_spec("config", &spec, spec.resolve_binary(true)).expect("launch spec");
    assert_eq!(launch.args, ["--config", "config.yaml"]);
    assert_eq!(launch.binary, "/tmp/app");
    assert_eq!(launch.files.len(), 1);
    assert_eq!(launch.files[0].relative_path, "config.yaml");
    assert_eq!(launch.files[0].contents, b"config".to_vec());
}

#[test]
fn launch_spec_can_use_positional_config_path() {
    let spec = LocalProcessSpec::new("APP_BIN")
        .with_binary_path("/tmp/app".to_owned())
        .with_positional_config_file("app.json")
        .with_args(vec!["--port".to_owned(), "8080".to_owned()]);
    let launch = text_config_launch_spec("config", &spec, spec.resolve_binary(true)).expect("launch spec");
    assert_eq!(launch.args, ["app.json", "--port", "8080"]);
}

#[test]
fn launch_spec_fails_when_the_binary_does_not_resolve() {
    let spec = LocalProcessSpec::new("APP_BIN").with_binary_path("/tmp/app".to_owned());
    assert_eq!(
        text_config_launch_spec("config", &spec, spec.resolve_binary(false)).err(),
        Some(BinaryProviderError::NotFound { provider: "path".to_owned() })
    );
    let relative = LocalProcessSpec::new("APP_BIN").with_binary_path("bin/app".to_owned());
    assert_eq!(
        text_config_launch_spec("config", &relative, relative.resolve_binary(true)).err(),
        Some(BinaryProviderError::RelativePath { path: "bin/app".to_owned() })
    );
    let from_env = LocalProcessSpec::new("APP_BIN");
    let launch = text_config_launch_spec("config", &from_env, from_env.resolve_binary(Some("/opt/app".to_owned()), true))
        .expect("launch spec");
    assert_eq!(launch.binary, "/opt/app");
    assert_eq!(
        from_env.resolve_binary(Some("/opt/app".to_owned()), false),
        Err(BinaryProviderError::NotFound { provider: "env".to_owned() })
    );
}

#[test]
fn launch_spec_keeps_flag_environment_and_rendered_bytes() {
    let spec = LocalProcessSpec::new("NODE_BIN").with_config_file("node.yaml", "--cfg").with_rust_log("info");
    let launch = spec.rendered_config_launch_spec(b"a: 1".to_vec(), "/bin/node".to_owned());
    assert_eq!(launch.args, vec!["--cfg".to_owned(), "node.yaml".to_owned()]);
    assert_eq!(launch.files[0].contents, b"a: 1".to_vec());
    assert_eq!(launch.env.len(), 1);
}

#[test]
fn external_endpoints_are_parsed() {
    assert_eq!(parse_api_endpoint("ext", " http://10.0.0.5:8080/ "), Ok(("10.0.0.5".to_owned(), 8080)));
    assert_eq!(parse_api_endpoint("ext", "https://[::1]:443"), Ok(("::1".to_owned(), 443)));
    assert_eq!(
        parse_api_endpoint("ext", "  "),
        Err(ExternalClientBuildError::EmptyEndpoint { label: "ext".to_owned() })
    );
    assert!(matches!(
        parse_api_endpoint("ext", "ftp://host:21"),
        Err(ExternalClientBuildError::UnsupportedScheme { .. })
    ));
    assert!(matches!(
        parse_api_endpoint("ext", "http://host"),
        Err(ExternalClientBuildError::MissingPort { .. })
    ));
    assert!(matches!(
        parse_api_endpoint("ext", "http://:80"),
        Err(ExternalClientBuildError::MissingHost { .. })
    ));
}

#[test]
fn network_readiness_summary() {
    let statuses = vec![
        ManualNetworkStatus { label: "node-0".to_owned(), expected_peers: Some(1), result: Ok(1) },
        ManualNetworkStatus { label: "node-1".to_owned(), expected_peers: Some(1), result: Err("refused".to_owned()) },
    ];
    assert!(!is_ready(&statuses));
    assert_eq!(
        timeout_message(&statuses),
        "timed out waiting for network readiness: node-0 (peers 1/1), node-1 (error: refused)"
    );
    assert!(is_ready(&statuses[..1].iter().map(|s| ManualNetworkStatus {
        label: s.label.clone(),
        expected_peers: s.expected_peers,
        result: s.result.clone(),
    }).collect()));
}

#[test]
fn retry_configuration_defaults() {
    let (policy, execution) = build_retry_execution_config(None, true, false, false, true);
    assert_eq!(policy, RetryPolicy { max_attempts: 3, base_delay_ms: 250, max_delay_ms: 2000 });
    assert_eq!(execution.max_attempts, 3);
    assert!(execution.readiness_enabled);
    assert!(should_retry(2, &execution));
    assert!(!should_retry(3, &execution));
    let (_, zero) = build_retry_execution_config(
        Some(RetryPolicy { max_attempts: 0, base_delay_ms: 1, max_delay_ms: 1 }),
        true,
        true,
        false,
        false,
    );
    assert_eq!(zero.max_attempts, 1);
    assert!(zero.keep_tempdir);
    assert!(!zero.readiness_enabled);
    assert!(env_enabled(Some("TRUE")));
    assert!(env_enabled(Some("1")));
    assert!(!env_enabled(Some("0")));
    assert!(!env_enabled(None));
    assert!(LocalDeployer::new().membership_check());
    assert!(LocalDeployer::default().membership_check());
    assert!(!LocalDeployer::new().with_membership_check(false).membership_check());
}

#[test]
fn node_names_are_normalized() {
    assert_eq!(normalize_node_name(3, ""), "node-3");
    assert_eq!(normalize_node_name(3, "node-a"), "node-a");
    assert_eq!(normalize_node_name(3, "a"), "node-a");
}

#[test]
fn local_restart_rejects_config_overrides() {
    assert!(validate_restart_options(&StartNodeOptions::default()).is_ok());
    let error = validate_restart_options(&StartNodeOptions::default().with_config_override("x".to_owned()))
        .expect_err("config overrides are rejected on restart");
    assert_eq!(error.message(), "restart_node_with does not support config override overrides");
}

fn registry_with_two_nodes() -> LocalNodeRegistry<&'static str, String, String> {
    let mut registry: LocalNodeRegistry<&'static str, String, String> = LocalNodeRegistry::new(&NodeManagerSeed::default());
    registry.register_node("node-0".to_owned(), 3000, "http://a/".to_owned(), None, "proc-0", 8080);
    registry.register_node("node-1".to_owned(), 3001, "http://b/".to_owned(), Some(30), "proc-1", 8081);
    registry
}

#[test]
fn node_names_reports_registered_names_in_index_order() {
    let registry = registry_with_two_nodes();
    assert_eq!(registry.node_names(), vec!["node-0".to_owned(), "node-1".to_owned()]);
    assert_eq!(registry.node_count(), 2);
    assert_eq!(registry.peer_ports(), &vec![3000, 3001]);
}

#[test]
fn sibling_lookups_stay_valid_while_a_node_is_taken_for_restart() {
    let mut registry = registry_with_two_nodes();
    let (index, handle) = registry.take_node("node-0").expect("node-0 is in place");
    assert_eq!((index, handle), (0, "proc-0"));
    assert_eq!(registry.readiness_target("node-1"), Ok((8081, Some(30))));
    assert_eq!(registry.node_client("node-1").map(|c| c.as_str()), Some("http://b/"));
    assert_eq!(
        registry.take_node("node-0").err(),
        Some(NodeManagerError::NodeName { name: "node-0".to_owned() })
    );
    registry.put_node_back(index, handle);
    assert_eq!(registry.readiness_target("node-0"), Ok((8080, None)));
}

#[test]
fn restart_returns_node_to_probe_set() {
    let mut registry = registry_with_two_nodes();
    registry.mark_node_stopped("node-0");
    assert_eq!(registry.running_probe_ports(), vec![8081]);
    registry.mark_node_running("node-0");
    assert_eq!(registry.running_probe_ports(), vec![8080, 8081]);
}

#[test]
fn wait_network_ready_fails_when_every_node_is_stopped() {
    let mut registry = registry_with_two_nodes();
    registry.mark_node_stopped("node-0");
    registry.mark_node_stopped("node-1");
    assert_eq!(
        registry.network_wait_step(0),
        NetworkWaitStep::Fail("all 2 nodes are stopped; no running nodes to await readiness".to_owned())
    );
}

#[test]
fn wait_network_ready_waits_out_a_restart_window() {
    let mut registry = registry_with_two_nodes();
    registry.mark_node_stopped("node-1");
    let (_, handle) = registry.take_node("node-0").expect("node-0 is in place");
    registry.mark_node_restarting("node-0");
    assert_eq!(registry.network_wait_step(0), NetworkWaitStep::RetryAfterMillis(100));
    assert_eq!(
        registry.network_wait_step(60_000),
        NetworkWaitStep::Fail("1 restarting nodes did not return within 60s".to_owned())
    );
    registry.put_node_back(0, handle);
    registry.mark_node_running("node-0");
    assert_eq!(registry.network_wait_step(0), NetworkWaitStep::Probe(vec![8080]));
}

#[test]
fn wait_network_ready_skips_stopped_nodes() {
    let empty: LocalNodeRegistry<&'static str, String, String> = LocalNodeRegistry::new(&NodeManagerSeed::default());
    assert_eq!(empty.network_wait_step(0), NetworkWaitStep::Ready);
    let mut registry = registry_with_two_nodes();
    registry.mark_node_stopped("node-1");
    assert_eq!(registry.network_wait_step(0), NetworkWaitStep::Probe(vec![8080]));
}

#[test]
fn new_node_names_must_be_unused() {
    let registry = registry_with_two_nodes();
    assert_eq!(registry.validate_new_node_name(""), Ok("node-2".to_owned()));
    assert_eq!(
        registry.validate_new_node_name("1"),
        Err(NodeManagerError::InvalidArgument { message: "node name 'node-1' already exists".to_owned() })
    );
}

#[test]
fn named_peers_resolve_to_known_ports() {
    let mut by_name = NamedMap::new();
    by_name.insert("node-0".to_owned(), 3000u16);
    by_name.insert("node-1".to_owned(), 3001u16);
    assert_eq!(
        resolve_peer_ports(&by_name, &vec!["node-1".to_owned(), "node-0".to_owned()]),
        Ok(vec![3001, 3000])
    );
    assert_eq!(
        resolve_peer_ports(&by_name, &vec!["node-0".to_owned(), "node-7".to_owned()]),
        Err(NodeManagerError::InvalidArgument { message: "unknown peer name 'node-7'".to_owned() })
    );
    assert_eq!(
        udp_port_allocation_error("network port").message(),
        "failed to allocate free UDP port for network port"
    );
}

#[test]
fn node_put_back_after_clear_is_kept_until_reset() {
    let mut registry = registry_with_two_nodes();
    let (index, handle) = registry.take_node("node-1").expect("node-1 is in place");
    let cleared = registry.clear_registered_nodes();
    assert_eq!(cleared, vec![Some("proc-0"), None]);
    registry.put_node_back(index, handle);
    assert!(registry.node_names().is_empty());
    assert!(registry.running_probe_ports().is_empty());
    let stopped = registry.reset_to_seed(&NodeManagerSeed::default());
    assert_eq!(stopped, vec![Some("proc-1")]);
}

#[test]
fn registering_a_name_again_supersedes_the_earlier_node() {
    let mut registry = registry_with_two_nodes();
    registry.register_node("node-0".to_owned(), 3002, "http://c/".to_owned(), None, "proc-2", 8082);
    assert_eq!(registry.node_names(), vec!["node-1".to_owned(), "node-0".to_owned()]);
    assert_eq!(registry.node_index("node-0"), Some(2));
    assert_eq!(registry.node_count(), 3);
    assert_eq!(registry.running_probe_ports(), vec![8081, 8082]);
    assert_eq!(registry.node_client("node-0").map(|c| c.as_str()), Some("http://c/"));
    let (index, handle) = registry.take_node("node-0").expect("the newest node-0 is in place");
    assert_eq!((index, handle), (2, "proc-2"));
}

#[test]
fn named_port_is_allocated_once() {
    let mut ports = LocalNodePorts::new(3000);
    assert_eq!(ports.allocate("metrics".to_owned(), Err("no free port".to_owned())), Err("no free port".to_owned()));
    assert_eq!(ports.get("metrics"), None);
    assert_eq!(ports.allocate("metrics".to_owned(), Ok(4000)), Ok(4000));
    assert_eq!(ports.allocate("metrics".to_owned(), Ok(5000)), Ok(4000));
    assert_eq!(ports.require("metrics"), Ok(4000));
    assert_eq!(ports.network_port(), 3000);
}
