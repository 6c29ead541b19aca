//! The node runtime spec of a deployment: images, node group, asset layout,
//! the optional shared (bootstrap) service and the script files. The chart
//! values and the Helm release bundle are both derived from it.

use std::collections::BTreeMap;

use vstd::prelude::*;

use crate::k8s::infrastructure::chart_values::{
    BootstrapExtraFile, BootstrapFiles, BootstrapScripts, BootstrapValues, NodeGroup, RunnerAssetLayout,
    RunnerChartValues, RunnerFiles, RunnerValues,
};
use crate::k8s::infrastructure::helm::{HelmFileSetting, HelmReleaseBundle, HelmValueSetting};
use crate::text::{decimal, owned, u64_to_decimal};

verus! {

/// A file the shared service mounts besides its configuration.
#[derive(Debug, PartialEq, Eq)]
pub struct SharedServiceFileSpec {
    /// Key of the file in the chart's config map.
    pub key: String,
    /// Mount path of the file.
    pub path: String,
    /// File content.
    pub content: String,
}

impl Clone for SharedServiceFileSpec {
    fn clone(&self) -> (r: Self)
        ensures
            r == *self,
    {
        SharedServiceFileSpec { key: self.key.clone(), path: self.path.clone(), content: self.content.clone() }
    }
}

impl SharedServiceFileSpec {
    /// A file given inline.
    pub fn inline(key: String, path: String, content: String) -> (r: Self)
        ensures
            r == (SharedServiceFileSpec { key, path, content }),
    {
        SharedServiceFileSpec { key, path, content }
    }
}

/// The service deployed beside the nodes that serves their configuration.
#[derive(Debug)]
pub struct SharedServiceSpec {
    /// Service name.
    pub service_name: String,
    /// Container image.
    pub image: String,
    /// Image pull policy.
    pub image_pull_policy: String,
    /// Service port.
    pub port: u16,
    /// Environment of the container.
    pub env: BTreeMap<String, String>,
    /// Writable mount path, empty for none.
    pub writable_mount_path: String,
    /// Primary configuration content.
    pub primary_config: String,
    /// Artifacts configuration content.
    pub artifacts_config: String,
    /// File holding the primary configuration.
    pub primary_config_file: String,
    /// File holding the start script.
    pub start_script_file: String,
    /// Further files.
    pub extra_files: Vec<SharedServiceFileSpec>,
}

impl SharedServiceSpec {
    /// A shared service with no environment, no writable mount and no extra
    /// file.
    pub fn new(
        service_name: String,
        image: String,
        image_pull_policy: String,
        port: u16,
        primary_config: String,
        artifacts_config: String,
        primary_config_file: String,
        start_script_file: String,
    ) -> (r: Self)
        ensures
            r.service_name == service_name,
            r.image == image,
            r.image_pull_policy == image_pull_policy,
            r.port == port,
            r.env@ == Map::<String, String>::empty(),
            r.writable_mount_path@ == Seq::<char>::empty(),
            r.primary_config == primary_config,
            r.artifacts_config == artifacts_config,
            r.primary_config_file == primary_config_file,
            r.start_script_file == start_script_file,
            r.extra_files@.len() == 0,
    {
        SharedServiceSpec {
            service_name,
            image,
            image_pull_policy,
            port,
            env: BTreeMap::new(),
            writable_mount_path: String::new(),
            primary_config,
            artifacts_config,
            primary_config_file,
            start_script_file,
            extra_files: Vec::new(),
        }
    }

    /// Replaces the environment.
    pub fn with_env(self, env: BTreeMap<String, String>) -> (r: Self)
        ensures
            r == (SharedServiceSpec { env, ..self }),
    {
        SharedServiceSpec { env, ..self }
    }

    /// Sets the writable mount path.
    pub fn with_writable_mount_path(self, path: String) -> (r: Self)
        ensures
            r == (SharedServiceSpec { writable_mount_path: path, ..self }),
    {
        SharedServiceSpec { writable_mount_path: path, ..self }
    }

    /// Replaces the extra files.
    pub fn with_extra_files(self, files: Vec<SharedServiceFileSpec>) -> (r: Self)
        ensures
            r == (SharedServiceSpec { extra_files: files, ..self }),
    {
        SharedServiceSpec { extra_files: files, ..self }
    }
}

/// How the chart mounts a shared-service file.
pub open spec fn extra_file_of(f: SharedServiceFileSpec) -> BootstrapExtraFile {
    BootstrapExtraFile { key: f.key, path: f.path, content: f.content }
}

/// The bootstrap extra files of a shared service, in order.
pub fn collect_bootstrap_extra_files(shared: &SharedServiceSpec) -> (r: Vec<BootstrapExtraFile>)
    ensures
        r@ == shared.extra_files@.map_values(|f: SharedServiceFileSpec| extra_file_of(f)),
{
    let mut out: Vec<BootstrapExtraFile> = Vec::new();
    let mut i: usize = 0;
    while i < shared.extra_files.len()
        invariant
            i <= shared.extra_files.len(),
            out@ == shared.extra_files@.take(i as int).map_values(|f: SharedServiceFileSpec| extra_file_of(f)),
        decreases shared.extra_files.len() - i,
    {
        let f = &shared.extra_files[i];
        out.push(BootstrapExtraFile { key: f.key.clone(), path: f.path.clone(), content: f.content.clone() });
        assert(out@ =~= shared.extra_files@.take(i + 1).map_values(
            |f: SharedServiceFileSpec| extra_file_of(f),
        ));
        i = i + 1;
    }
    assert(shared.extra_files@.take(shared.extra_files.len() as int) =~= shared.extra_files@);
    out
}

/// Everything a deployment's nodes run with.
#[derive(Debug)]
pub struct NodeRuntimeSpec {
    /// Node container image.
    pub node_image: String,
    /// Node image pull policy.
    pub node_image_pull_policy: String,
    /// Name prefix of the chart's resources.
    pub fullname_override: String,
    /// Where the chart places scripts and configuration.
    pub layout: RunnerAssetLayout,
    /// The nodes.
    pub nodes: NodeGroup,
    /// The shared service, if the deployment has one.
    pub shared_service: Option<SharedServiceSpec>,
    /// File holding the per-node start script.
    pub node_start_script_file: String,
    /// File holding the shared start script.
    pub common_start_script_file: String,
    /// Chart directory.
    pub chart_path: String,
    /// Working directory of the `helm` process.
    pub current_dir: Option<String>,
}

/// Whether `b` is the bootstrap part of the chart values of a deployment
/// with shared service `shared` and layout `layout`: disabled without a
/// shared service, otherwise the service's image, port, environment and
/// configuration with the layout's paths and an empty inline script.
pub open spec fn bootstrap_of(b: BootstrapValues, shared: Option<SharedServiceSpec>, layout: RunnerAssetLayout) -> bool {
    match shared {
        None => b.is_disabled(),
        Some(s) => {
            &&& b.enabled
            &&& b.image == s.image
            &&& b.image_pull_policy == s.image_pull_policy
            &&& b.service_name == s.service_name
            &&& b.port == s.port
            &&& b.env@ == s.env@
            &&& b.writable_mount_path == s.writable_mount_path
            &&& b.files.primary_config == s.primary_config
            &&& b.files.artifacts_config == s.artifacts_config
            &&& b.files.primary_config_path == layout.bootstrap_primary_config_path
            &&& b.files.artifacts_config_path == layout.bootstrap_artifacts_config_path
            &&& b.files.extra_files@ == s.extra_files@.map_values(|f: SharedServiceFileSpec| extra_file_of(f))
            &&& b.scripts.start@ == Seq::<char>::empty()
            &&& b.scripts.start_path == layout.bootstrap_start_path
        },
    }
}

/// The `--set` settings of a bundle as key/value views.
pub open spec fn value_setting_views(s: Seq<HelmValueSetting>) -> Seq<(Seq<char>, Seq<char>)> {
    s.map_values(|v: HelmValueSetting| (v.key@, v.value@))
}

/// The `--set-file` settings of a bundle as key/path views.
pub open spec fn file_setting_views(s: Seq<HelmFileSetting>) -> Seq<(Seq<char>, Seq<char>)> {
    s.map_values(|f: HelmFileSetting| (f.key@, f.path@))
}

/// The `--set` settings of a runtime spec's release: the node image and
/// node count, and the shared service's port when there is one.
pub open spec fn release_value_settings(spec: NodeRuntimeSpec) -> Seq<(Seq<char>, Seq<char>)> {
    seq![("nodeImage"@, spec.node_image@), ("nodes.count"@, decimal(spec.nodes.count as nat))] + match spec.shared_service {
        Some(s) => seq![("bootstrap.port"@, decimal(s.port as nat))],
        None => Seq::empty(),
    }
}

/// The `--set-file` settings of a runtime spec's release: the node start
/// scripts, and the shared service's configuration and start script when
/// there is one.
pub open spec fn release_file_settings(spec: NodeRuntimeSpec) -> Seq<(Seq<char>, Seq<char>)> {
    seq![
        ("runner.files.nodeStart"@, spec.node_start_script_file@),
        ("runner.files.commonStart"@, spec.common_start_script_file@),
    ] + match spec.shared_service {
        Some(s) => seq![
            ("bootstrap.files.primaryConfig"@, s.primary_config_file@),
            ("bootstrap.scripts.start"@, s.start_script_file@),
        ],
        None => Seq::empty(),
    }
}

fn value_setting(key: &str, value: String) -> (r: HelmValueSetting)
    ensures
        r.key@ == key@,
        r.value == value,
{
    HelmValueSetting { key: owned(key), value }
}

fn file_setting(key: &str, path: String) -> (r: HelmFileSetting)
    ensures
        r.key@ == key@,
        r.path == path,
{
    HelmFileSetting { key: owned(key), path }
}

impl NodeRuntimeSpec {
    /// Runner values: no inline scripts, the layout's script paths.
    pub fn runner_values(&self) -> (r: RunnerValues)
        ensures
            r.files.common_start@ == Seq::<char>::empty(),
            r.files.node_start@ == Seq::<char>::empty(),
            r.files.common_start_path == self.layout.runner_common_start_path,
            r.files.node_start_path == self.layout.runner_node_start_path,
    {
        let mut runner = RunnerValues {
            files: RunnerFiles {
                common_start: String::new(),
                node_start: String::new(),
                common_start_path: String::new(),
                node_start_path: String::new(),
            },
        };
        runner.apply_layout(&self.layout);
        runner
    }

    /// Bootstrap values of the shared service, if there is one.
    pub fn bootstrap_values(&self) -> (r: Option<BootstrapValues>)
        ensures
            self.shared_service is None ==> r is None,
            self.shared_service is Some ==> (r matches Some(b) && bootstrap_of(b, self.shared_service, self.layout)),
    {
        let shared = match &self.shared_service {
            Some(s) => s,
            None => {
                return None;
            },
        };
        let mut bootstrap = BootstrapValues::enabled(
            shared.service_name.clone(),
            shared.image.clone(),
            shared.image_pull_policy.clone(),
            shared.port,
        );
        bootstrap.env = shared.env.clone();
        bootstrap.writable_mount_path = shared.writable_mount_path.clone();
        bootstrap.files.primary_config = shared.primary_config.clone();
        bootstrap.files.artifacts_config = shared.artifacts_config.clone();
        bootstrap.files.extra_files = collect_bootstrap_extra_files(shared);
        bootstrap.scripts.start = String::new();
        bootstrap.apply_layout(&self.layout);
        Some(bootstrap)
    }

    /// The chart values of the deployment.
    pub fn chart_values(&self) -> (r: RunnerChartValues)
        ensures
            r.node_image == self.node_image,
            r.node_image_pull_policy == self.node_image_pull_policy,
            r.fullname_override == self.fullname_override,
            r.asset_mount_path == self.layout.asset_mount_path,
            r.nodes@ == self.nodes@,
            r.runner.files.common_start@ == Seq::<char>::empty(),
            r.runner.files.node_start@ == Seq::<char>::empty(),
            r.runner.files.common_start_path == self.layout.runner_common_start_path,
            r.runner.files.node_start_path == self.layout.runner_node_start_path,
            bootstrap_of(r.bootstrap, self.shared_service, self.layout),
    {
        let mut values = RunnerChartValues::new(
            self.node_image.clone(),
            self.node_image_pull_policy.clone(),
            self.fullname_override.clone(),
            self.layout.asset_mount_path.clone(),
            self.nodes.clone(),
        );
        values.runner = self.runner_values();
        match self.bootstrap_values() {
            Some(shared) => {
                values.bootstrap = shared;
            },
            None => {},
        }
        values
    }

    /// The Helm release bundle of the deployment: the chart with the node
    /// image, node count and script files set, plus the shared service's
    /// port, configuration and start script when there is one.
    pub fn release_bundle(&self) -> (r: HelmReleaseBundle)
        ensures
            r.chart_path == self.chart_path,
            r.values_files@.len() == 0,
            value_setting_views(r.set_values@) == release_value_settings(*self),
            file_setting_views(r.set_files@) == release_file_settings(*self),
            r.current_dir == self.current_dir,
            r.wait_timeout@ == "5m"@,
    {
        let mut bundle = HelmReleaseBundle::new(self.chart_path.clone());
        bundle.set_values.push(value_setting("nodeImage", self.node_image.clone()));
        bundle.set_values.push(value_setting("nodes.count", u64_to_decimal(self.nodes.count as u64)));
        bundle.set_files.push(file_setting("runner.files.nodeStart", self.node_start_script_file.clone()));
        bundle.set_files.push(file_setting("runner.files.commonStart", self.common_start_script_file.clone()));
        match &self.shared_service {
            Some(shared) => {
                bundle.set_values.push(value_setting("bootstrap.port", u64_to_decimal(shared.port as u64)));
                bundle.set_files.push(file_setting("bootstrap.files.primaryConfig", shared.primary_config_file.clone()));
                bundle.set_files.push(file_setting("bootstrap.scripts.start", shared.start_script_file.clone()));
            },
            None => {},
        }
        bundle.current_dir = self.current_dir.clone();
        assert(value_setting_views(bundle.set_values@) =~= release_value_settings(*self));
        assert(file_setting_views(bundle.set_files@) =~= release_file_settings(*self));
        bundle
    }
}

} // verus!
