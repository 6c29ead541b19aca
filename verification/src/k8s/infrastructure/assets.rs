//! The assets of a Helm install of the node stack: where its scripts,
//! configuration template and KZG parameters are found, the node values the
//! chart receives, and the settings read from the environment. Rendering the
//! cfgsync template and writing files are the caller's part.

use vstd::prelude::*;

use crate::local::binary::{join_paths, path_join};
use crate::text::{decimal, owned, u64_to_decimal};

verus! {

/// Failures while preparing the Helm assets.
#[derive(Debug, PartialEq, Eq)]
pub enum AssetsError {
    /// The workspace root could not be found.
    WorkspaceRoot { source: String },
    /// The cfgsync configuration could not be rendered.
    Cfgsync { source: String },
    /// A start script is missing.
    MissingScript { path: String },
    /// The KZG parameters are missing.
    MissingKzg { path: String },
    /// The Helm chart is missing.
    MissingChart { path: String },
    /// No temporary directory could be created for the rendered assets.
    TempDir { source: String },
    /// Writing an asset failed.
    Io { path: String, source: String },
    /// The Helm values could not be rendered.
    Values { source: String },
}

impl AssetsError {
    /// The human-readable message of the error.
    pub open spec fn message_view(&self) -> Seq<char> {
        match self {
            AssetsError::WorkspaceRoot { source } => "failed to locate workspace root: "@ + source@,
            AssetsError::Cfgsync { source } => "failed to render cfgsync configuration: "@ + source@,
            AssetsError::MissingScript { path } => "missing required script at "@ + path@,
            AssetsError::MissingKzg { path } =>
                "missing KZG parameters at "@ + path@ + "; build them with `make kzgrs_test_params`"@,
            AssetsError::MissingChart { path } =>
                "missing Helm chart at "@ + path@ + "; ensure the repository is up-to-date"@,
            AssetsError::TempDir { source } =>
                "failed to create temporary directory for rendered assets: "@ + source@,
            AssetsError::Io { path, source } => "failed to write asset at "@ + path@ + ": "@ + source@,
            AssetsError::Values { source } => "failed to render Helm values: "@ + source@,
        }
    }

    /// The human-readable message of the error.
    pub fn message(&self) -> (r: String)
        ensures
            r@ == self.message_view(),
    {
        match self {
            AssetsError::WorkspaceRoot { source } => {
                let mut r = owned("failed to locate workspace root: ");
                r.append(source.as_str());
                r
            },
            AssetsError::Cfgsync { source } => {
                let mut r = owned("failed to render cfgsync configuration: ");
                r.append(source.as_str());
                r
            },
            AssetsError::MissingScript { path } => {
                let mut r = owned("missing required script at ");
                r.append(path.as_str());
                r
            },
            AssetsError::MissingKzg { path } => {
                let mut r = owned("missing KZG parameters at ");
                r.append(path.as_str());
                r.append("; build them with `make kzgrs_test_params`");
                r
            },
            AssetsError::MissingChart { path } => {
                let mut r = owned("missing Helm chart at ");
                r.append(path.as_str());
                r.append("; ensure the repository is up-to-date");
                r
            },
            AssetsError::TempDir { source } => {
                let mut r = owned("failed to create temporary directory for rendered assets: ");
                r.append(source.as_str());
                r
            },
            AssetsError::Io { path, source } => {
                let mut r = owned("failed to write asset at ");
                r.append(path.as_str());
                r.append(": ");
                r.append(source.as_str());
                r
            },
            AssetsError::Values { source } => {
                let mut r = owned("failed to render Helm values: ");
                r.append(source.as_str());
                r
            },
        }
    }
}

/// Shortest cfgsync timeout, in seconds, of a Kubernetes deployment.
pub const CFGSYNC_K8S_TIMEOUT_SECS: u64 = 300;

/// The cfgsync timeout of a Kubernetes deployment: the template's, raised
/// to at least five minutes.
pub fn cfgsync_timeout(configured_secs: u64) -> (r: u64)
    ensures
        r == if configured_secs >= CFGSYNC_K8S_TIMEOUT_SECS {
            configured_secs
        } else {
            CFGSYNC_K8S_TIMEOUT_SECS
        },
{
    if configured_secs >= CFGSYNC_K8S_TIMEOUT_SECS {
        configured_secs
    } else {
        CFGSYNC_K8S_TIMEOUT_SECS
    }
}

/// Where the stack's assets live: the configured stack directory when it
/// exists, otherwise the legacy `testnet` directory.
pub fn stack_assets_root(root: &str, stack_dir: &str, stack_dir_exists: bool) -> (r: String)
    ensures
        stack_dir_exists ==> r@ == path_join(root@, stack_dir@),
        !stack_dir_exists ==> r@ == path_join(root@, "testnet"@),
{
    if stack_dir_exists {
        join_paths(root, stack_dir)
    } else {
        join_paths(root, "testnet")
    }
}

/// Where the stack's start scripts live: `scripts` in the configured stack
/// directory when that exists, otherwise `testnet/scripts`.
pub fn stack_scripts_root(root: &str, stack_dir: &str, scripts_dir_exists: bool) -> (r: String)
    ensures
        scripts_dir_exists ==> r@ == path_join(path_join(root@, stack_dir@), "scripts"@),
        !scripts_dir_exists ==> r@ == path_join(root@, "testnet/scripts"@),
{
    if scripts_dir_exists {
        let dir = join_paths(root, stack_dir);
        join_paths(dir.as_str(), "scripts")
    } else {
        join_paths(root, "testnet/scripts")
    }
}

/// The stack's start scripts.
#[derive(Debug, PartialEq, Eq)]
pub struct ScriptPaths {
    /// Starts cfgsync.
    pub run_cfgsync: String,
    /// Shared node entry point.
    pub run_shared: String,
    /// Starts one node.
    pub run_node: String,
}

/// The start scripts in a scripts directory.
pub fn script_paths(scripts_dir: &str) -> (r: ScriptPaths)
    ensures
        r.run_cfgsync@ == path_join(scripts_dir@, "run_cfgsync.sh"@),
        r.run_shared@ == path_join(scripts_dir@, "run_nomos.sh"@),
        r.run_node@ == path_join(scripts_dir@, "run_nomos_node.sh"@),
{
    ScriptPaths {
        run_cfgsync: join_paths(scripts_dir, "run_cfgsync.sh"),
        run_shared: join_paths(scripts_dir, "run_nomos.sh"),
        run_node: join_paths(scripts_dir, "run_nomos_node.sh"),
    }
}

/// Checks that every start script exists (`exists` says so for the cfgsync,
/// shared and node scripts, in that order); the first missing one is the
/// error.
pub fn validate_scripts(paths: ScriptPaths, exists: (bool, bool, bool)) -> (r: Result<ScriptPaths, AssetsError>)
    ensures
        !exists.0 ==> r == Err::<ScriptPaths, AssetsError>(AssetsError::MissingScript { path: paths.run_cfgsync }),
        exists.0 && !exists.1 ==> r == Err::<ScriptPaths, AssetsError>(
            AssetsError::MissingScript { path: paths.run_shared },
        ),
        exists.0 && exists.1 && !exists.2 ==> r == Err::<ScriptPaths, AssetsError>(
            AssetsError::MissingScript { path: paths.run_node },
        ),
        exists.0 && exists.1 && exists.2 ==> r == Ok::<ScriptPaths, AssetsError>(paths),
{
    if !exists.0 {
        return Err(AssetsError::MissingScript { path: paths.run_cfgsync });
    }
    if !exists.1 {
        return Err(AssetsError::MissingScript { path: paths.run_shared });
    }
    if !exists.2 {
        return Err(AssetsError::MissingScript { path: paths.run_node });
    }
    Ok(paths)
}

/// Where nodes get their KZG parameters from.
#[derive(Clone, Copy, Debug, PartialEq, Eq)]
pub enum KzgMode {
    /// A host directory mounted into the pods.
    HostPath,
    /// The parameters baked into the image.
    InImage,
}

/// The host directory of the KZG parameters, which must exist; without a
/// configured directory the error names the default one under the root.
pub fn validate_kzg_params(
    root: &str,
    default_host_dir: &str,
    host_params_dir: Option<String>,
    exists: bool,
) -> (r: Result<String, AssetsError>)
    ensures
        host_params_dir is None ==> (r matches Err(AssetsError::MissingKzg { path }) && path@ == path_join(
            root@,
            default_host_dir@,
        )),
        host_params_dir is Some && exists ==> r == Ok::<String, AssetsError>(host_params_dir->0),
        host_params_dir is Some && !exists ==> r == Err::<String, AssetsError>(
            AssetsError::MissingKzg { path: host_params_dir->0 },
        ),
{
    match host_params_dir {
        None => Err(AssetsError::MissingKzg { path: join_paths(root, default_host_dir) }),
        Some(p) => if exists {
            Ok(p)
        } else {
            Err(AssetsError::MissingKzg { path: p })
        },
    }
}

/// The KZG path mounted into the pods: the validated host directory in host
/// mode, none when the image carries the parameters.
pub fn resolve_kzg_path(mode: KzgMode, validated: Result<String, AssetsError>) -> (r: Result<Option<String>, AssetsError>)
    ensures
        mode == KzgMode::InImage ==> r == Ok::<Option<String>, AssetsError>(None),
        mode == KzgMode::HostPath ==> match validated {
            Ok(p) => r == Ok::<Option<String>, AssetsError>(Some(p)),
            Err(e) => r == Err::<Option<String>, AssetsError>(e),
        },
{
    match mode {
        KzgMode::InImage => Ok(None),
        KzgMode::HostPath => match validated {
            Ok(p) => Ok(Some(p)),
            Err(e) => Err(e),
        },
    }
}

/// How the KZG path appears in logs.
pub fn kzg_display(kzg_path: &Option<String>) -> (r: String)
    ensures
        kzg_path matches Some(p) ==> r@ == p@,
        kzg_path is None ==> r@ == "<in-image>"@,
{
    match kzg_path {
        Some(p) => p.clone(),
        None => owned("<in-image>"),
    }
}

/// The chart of the node stack, shipped at `helm/nomos-runner` in the
/// crate directory, which must exist.
pub fn helm_chart_path(crate_dir: &str, exists: bool) -> (r: Result<String, AssetsError>)
    ensures
        exists ==> (r matches Ok(p) && p@ == path_join(crate_dir@, "helm/nomos-runner"@)),
        !exists ==> (r matches Err(AssetsError::MissingChart { path }) && path@ == path_join(
            crate_dir@,
            "helm/nomos-runner"@,
        )),
{
    let path = join_paths(crate_dir, "helm/nomos-runner");
    if exists {
        Ok(path)
    } else {
        Err(AssetsError::MissingChart { path })
    }
}

/// The node image: the configured one, or the published test image.
pub fn testnet_image(configured: Option<String>) -> (r: String)
    ensures
        configured matches Some(i) ==> r == i,
        configured is None ==> r@ == "public.ecr.aws/r4s5t9y4/logos/logos-blockchain:test"@,
{
    match configured {
        Some(i) => i,
        None => owned("public.ecr.aws/r4s5t9y4/logos/logos-blockchain:test"),
    }
}

/// The proof development mode handed to nodes: the configured one, or
/// `true`.
pub fn pol_proof_mode(configured: Option<String>) -> (r: String)
    ensures
        configured matches Some(m) ==> r == m,
        configured is None ==> r@ == "true"@,
{
    match configured {
        Some(m) => m,
        None => owned("true"),
    }
}

/// The image pull policy: the configured one, or `IfNotPresent`.
pub fn image_pull_policy(configured: Option<String>) -> (r: String)
    ensures
        configured matches Some(p) ==> r == p,
        configured is None ==> r@ == "IfNotPresent"@,
{
    match configured {
        Some(p) => p,
        None => owned("IfNotPresent"),
    }
}

/// The ports of one generated node.
#[derive(Clone, Copy, Debug, PartialEq, Eq)]
pub struct GeneratedNodePorts {
    /// Peer-to-peer port.
    pub network: u16,
    /// Data availability port.
    pub da: u16,
    /// Blend port.
    pub blend: u16,
    /// API port.
    pub api: u16,
    /// Testing HTTP port.
    pub testing_http: u16,
}

/// The chart values of one node.
#[derive(Debug, PartialEq, Eq)]
pub struct NodeValues {
    /// API port.
    pub api_port: u16,
    /// Testing HTTP port.
    pub testing_http_port: u16,
    /// Environment of the node's container, ordered by variable name.
    pub env: Vec<(String, String)>,
}

/// The environment of node `index`: its ports, its host identifier
/// `node-<index>` and the proof mode, ordered by variable name.
pub open spec fn node_env(index: nat, ports: GeneratedNodePorts, pol_mode: Seq<char>) -> Seq<(Seq<char>, Seq<char>)> {
    seq![
        ("CFG_API_PORT"@, decimal(ports.api as nat)),
        ("CFG_BLEND_PORT"@, decimal(ports.blend as nat)),
        ("CFG_DA_PORT"@, decimal(ports.da as nat)),
        ("CFG_HOST_IDENTIFIER"@, "node-"@ + decimal(index)),
        ("CFG_NETWORK_PORT"@, decimal(ports.network as nat)),
        ("CFG_TESTING_HTTP_PORT"@, decimal(ports.testing_http as nat)),
        ("POL_PROOF_DEV_MODE"@, pol_mode),
    ]
}

/// Views of an environment.
pub open spec fn env_view(env: Seq<(String, String)>) -> Seq<(Seq<char>, Seq<char>)> {
    env.map_values(|e: (String, String)| (e.0@, e.1@))
}

fn env_entry(key: &str, value: String) -> (r: (String, String))
    ensures
        r.0@ == key@,
        r.1 == value,
{
    (owned(key), value)
}

/// The chart values of node `index`.
pub fn build_node_values(index: usize, ports: &GeneratedNodePorts, pol_mode: &str) -> (r: NodeValues)
    ensures
        r.api_port == ports.api,
        r.testing_http_port == ports.testing_http,
        env_view(r.env@) == node_env(index as nat, *ports, pol_mode@),
{
    let mut host = owned("node-");
    host.append(u64_to_decimal(index as u64).as_str());
    let mut env: Vec<(String, String)> = Vec::new();
    env.push(env_entry("CFG_API_PORT", u64_to_decimal(ports.api as u64)));
    env.push(env_entry("CFG_BLEND_PORT", u64_to_decimal(ports.blend as u64)));
    env.push(env_entry("CFG_DA_PORT", u64_to_decimal(ports.da as u64)));
    env.push(env_entry("CFG_HOST_IDENTIFIER", host));
    env.push(env_entry("CFG_NETWORK_PORT", u64_to_decimal(ports.network as u64)));
    env.push(env_entry("CFG_TESTING_HTTP_PORT", u64_to_decimal(ports.testing_http as u64)));
    env.push(env_entry("POL_PROOF_DEV_MODE", owned(pol_mode)));
    assert(env_view(env@) =~= node_env(index as nat, *ports, pol_mode@));
    NodeValues { api_port: ports.api, testing_http_port: ports.testing_http, env }
}

/// The chart values of all nodes.
#[derive(Debug, PartialEq, Eq)]
pub struct NodeGroup {
    /// Number of nodes.
    pub count: usize,
    /// Values of each node, by index.
    pub nodes: Vec<NodeValues>,
}

/// The chart values of the generated nodes, node `i` with index `i`.
pub fn build_node_group(nodes: &Vec<GeneratedNodePorts>, pol_mode: &str) -> (r: NodeGroup)
    ensures
        r.count == nodes@.len(),
        r.nodes@.len() == nodes@.len(),
        forall|i: int|
            0 <= i < nodes@.len() ==> {
                &&& (#[trigger] r.nodes@[i]).api_port == nodes@[i].api
                &&& r.nodes@[i].testing_http_port == nodes@[i].testing_http
                &&& env_view(r.nodes@[i].env@) == node_env(i as nat, nodes@[i], pol_mode@)
            },
{
    let mut values: Vec<NodeValues> = Vec::new();
    let mut i: usize = 0;
    while i < nodes.len()
        invariant
            i <= nodes.len(),
            values@.len() == i,
            forall|k: int|
                0 <= k < i ==> {
                    &&& (#[trigger] values@[k]).api_port == nodes@[k].api
                    &&& values@[k].testing_http_port == nodes@[k].testing_http
                    &&& env_view(values@[k].env@) == node_env(k as nat, nodes@[k], pol_mode@)
                },
        decreases nodes.len() - i,
    {
        values.push(build_node_values(i, &nodes[i], pol_mode));
        i = i + 1;
    }
    NodeGroup { count: nodes.len(), nodes: values }
}

/// The chart values of the node stack.
#[derive(Debug, PartialEq, Eq)]
pub struct HelmValues {
    /// Image pull policy.
    pub image_pull_policy: String,
    /// Port of the cfgsync service.
    pub cfgsync_port: u16,
    /// The nodes.
    pub nodes: NodeGroup,
}

/// The chart values: the pull policy and proof mode from their configured
/// values or defaults, the cfgsync port, and the node group.
pub fn build_values(
    cfgsync_port: u16,
    configured_pull_policy: Option<String>,
    configured_pol_mode: Option<String>,
    nodes: &Vec<GeneratedNodePorts>,
) -> (r: HelmValues)
    ensures
        r.cfgsync_port == cfgsync_port,
        configured_pull_policy matches Some(p) ==> r.image_pull_policy == p,
        configured_pull_policy is None ==> r.image_pull_policy@ == "IfNotPresent"@,
        r.nodes.count == nodes@.len(),
        r.nodes.nodes@.len() == nodes@.len(),
        forall|i: int|
            0 <= i < nodes@.len() ==> {
                &&& (#[trigger] r.nodes.nodes@[i]).api_port == nodes@[i].api
                &&& r.nodes.nodes@[i].testing_http_port == nodes@[i].testing_http
                &&& env_view(r.nodes.nodes@[i].env@) == node_env(
                    i as nat,
                    nodes@[i],
                    match configured_pol_mode {
                        Some(m) => m@,
                        None => "true"@,
                    },
                )
            },
{
    let pol_mode = pol_proof_mode(configured_pol_mode);
    let group = build_node_group(nodes, pol_mode.as_str());
    HelmValues { image_pull_policy: image_pull_policy(configured_pull_policy), cfgsync_port, nodes: group }
}

} // verus!
