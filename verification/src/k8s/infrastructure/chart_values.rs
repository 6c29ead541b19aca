//! The values handed to the runner Helm chart: node image and pull policy,
//! the node group with its ports and environments, the optional bootstrap
//! service, and where the chart mounts its scripts and configuration.

use std::collections::BTreeMap;

use vstd::prelude::*;

use crate::text::owned;

verus! {

/// Paths under the asset mount where the chart places configuration and
/// start scripts.
#[derive(Debug, PartialEq, Eq)]
pub struct RunnerAssetLayout {
    /// Where the chart mounts the assets in each pod.
    pub asset_mount_path: String,
    /// Bootstrap primary configuration, relative to the mount.
    pub bootstrap_primary_config_path: String,
    /// Bootstrap artifacts configuration, relative to the mount.
    pub bootstrap_artifacts_config_path: String,
    /// Bootstrap start script, relative to the mount.
    pub bootstrap_start_path: String,
    /// Start script shared by all nodes, relative to the mount.
    pub runner_common_start_path: String,
    /// Per-node start script, relative to the mount.
    pub runner_node_start_path: String,
}

impl Clone for RunnerAssetLayout {
    fn clone(&self) -> (r: Self)
        ensures
            r == *self,
    {
        RunnerAssetLayout {
            asset_mount_path: self.asset_mount_path.clone(),
            bootstrap_primary_config_path: self.bootstrap_primary_config_path.clone(),
            bootstrap_artifacts_config_path: self.bootstrap_artifacts_config_path.clone(),
            bootstrap_start_path: self.bootstrap_start_path.clone(),
            runner_common_start_path: self.runner_common_start_path.clone(),
            runner_node_start_path: self.runner_node_start_path.clone(),
        }
    }
}

impl RunnerAssetLayout {
    /// The conventional layout under `mount_path`.
    pub fn under_mount(mount_path: &str) -> (r: Self)
        ensures
            r.asset_mount_path@ == mount_path@,
            r.bootstrap_primary_config_path@ == "bootstrap/primary.yaml"@,
            r.bootstrap_artifacts_config_path@ == "bootstrap/artifacts.yaml"@,
            r.bootstrap_start_path@ == "scripts/bootstrap-start.sh"@,
            r.runner_common_start_path@ == "scripts/runner-common-start.sh"@,
            r.runner_node_start_path@ == "scripts/runner-node-start.sh"@,
    {
        RunnerAssetLayout {
            asset_mount_path: owned(mount_path),
            bootstrap_primary_config_path: owned("bootstrap/primary.yaml"),
            bootstrap_artifacts_config_path: owned("bootstrap/artifacts.yaml"),
            bootstrap_start_path: owned("scripts/bootstrap-start.sh"),
            runner_common_start_path: owned("scripts/runner-common-start.sh"),
            runner_node_start_path: owned("scripts/runner-node-start.sh"),
        }
    }

    /// A layout with explicit paths.
    pub fn with_paths(
        mount_path: &str,
        bootstrap_primary_config_path: &str,
        bootstrap_artifacts_config_path: &str,
        bootstrap_start_path: &str,
        runner_common_start_path: &str,
        runner_node_start_path: &str,
    ) -> (r: Self)
        ensures
            r.asset_mount_path@ == mount_path@,
            r.bootstrap_primary_config_path@ == bootstrap_primary_config_path@,
            r.bootstrap_artifacts_config_path@ == bootstrap_artifacts_config_path@,
            r.bootstrap_start_path@ == bootstrap_start_path@,
            r.runner_common_start_path@ == runner_common_start_path@,
            r.runner_node_start_path@ == runner_node_start_path@,
    {
        RunnerAssetLayout {
            asset_mount_path: owned(mount_path),
            bootstrap_primary_config_path: owned(bootstrap_primary_config_path),
            bootstrap_artifacts_config_path: owned(bootstrap_artifacts_config_path),
            bootstrap_start_path: owned(bootstrap_start_path),
            runner_common_start_path: owned(runner_common_start_path),
            runner_node_start_path: owned(runner_node_start_path),
        }
    }
}

/// A file the bootstrap service mounts besides its configuration.
#[derive(Debug, PartialEq, Eq)]
pub struct BootstrapExtraFile {
    /// Key of the file in the chart's config map.
    pub key: String,
    /// Mount path of the file.
    pub path: String,
    /// File content.
    pub content: String,
}

impl Clone for BootstrapExtraFile {
    fn clone(&self) -> (r: Self)
        ensures
            r == *self,
    {
        BootstrapExtraFile { key: self.key.clone(), path: self.path.clone(), content: self.content.clone() }
    }
}

/// Configuration files of the bootstrap service.
#[derive(Debug, PartialEq, Eq)]
pub struct BootstrapFiles {
    /// Primary configuration content.
    pub primary_config: String,
    /// Artifacts configuration content.
    pub artifacts_config: String,
    /// Mount path of the primary configuration.
    pub primary_config_path: String,
    /// Mount path of the artifacts configuration.
    pub artifacts_config_path: String,
    /// Further files.
    pub extra_files: Vec<BootstrapExtraFile>,
}

impl BootstrapFiles {
    /// No configuration at all.
    pub fn default() -> (r: Self)
        ensures
            r.is_empty(),
    {
        BootstrapFiles {
            primary_config: String::new(),
            artifacts_config: String::new(),
            primary_config_path: String::new(),
            artifacts_config_path: String::new(),
            extra_files: Vec::new(),
        }
    }
}

/// Start script of the bootstrap service.
#[derive(Debug, PartialEq, Eq)]
pub struct BootstrapScripts {
    /// Script content.
    pub start: String,
    /// Mount path of the script.
    pub start_path: String,
}

impl BootstrapScripts {
    /// No script.
    pub fn default() -> (r: Self)
        ensures
            r.is_empty(),
    {
        BootstrapScripts { start: String::new(), start_path: String::new() }
    }
}

/// The optional bootstrap service deployed beside the nodes.
#[derive(Debug)]
pub struct BootstrapValues {
    /// Whether the chart deploys it.
    pub enabled: bool,
    /// Container image.
    pub image: String,
    /// Image pull policy.
    pub image_pull_policy: String,
    /// Service name.
    pub service_name: String,
    /// Service port.
    pub port: u16,
    /// Environment of the container.
    pub env: BTreeMap<String, String>,
    /// Writable mount path, empty for none.
    pub writable_mount_path: String,
    /// Configuration files.
    pub files: BootstrapFiles,
    /// Start script.
    pub scripts: BootstrapScripts,
}

impl BootstrapValues {
    /// Whether these are the values of a disabled bootstrap service.
    pub open spec fn is_disabled(self) -> bool {
        &&& !self.enabled
        &&& self.image@ == Seq::<char>::empty()
        &&& self.image_pull_policy@ == "IfNotPresent"@
        &&& self.service_name@ == "bootstrap"@
        &&& self.port == 0
        &&& self.env@ == Map::<String, String>::empty()
        &&& self.writable_mount_path@ == Seq::<char>::empty()
        &&& self.files.is_empty()
        &&& self.scripts.is_empty()
    }

    /// The chart deploys no bootstrap service.
    pub fn disabled() -> (r: Self)
        ensures
            r.is_disabled(),
    {
        BootstrapValues {
            enabled: false,
            image: String::new(),
            image_pull_policy: owned("IfNotPresent"),
            service_name: owned("bootstrap"),
            port: 0,
            env: BTreeMap::new(),
            writable_mount_path: String::new(),
            files: BootstrapFiles::default(),
            scripts: BootstrapScripts::default(),
        }
    }

    /// The chart deploys the bootstrap service `service_name` from `image`
    /// on `port`.
    pub fn enabled(service_name: String, image: String, image_pull_policy: String, port: u16) -> (r: Self)
        ensures
            r.enabled,
            r.image == image,
            r.image_pull_policy == image_pull_policy,
            r.service_name == service_name,
            r.port == port,
            r.env@ == Map::<String, String>::empty(),
            r.writable_mount_path@ == Seq::<char>::empty(),
            r.files.is_empty(),
            r.scripts.is_empty(),
    {
        BootstrapValues {
            enabled: true,
            image,
            image_pull_policy,
            service_name,
            port,
            env: BTreeMap::new(),
            writable_mount_path: String::new(),
            files: BootstrapFiles::default(),
            scripts: BootstrapScripts::default(),
        }
    }

    /// Points the bootstrap files and script at the layout's paths.
    pub fn apply_layout(&mut self, layout: &RunnerAssetLayout)
        ensures
            final(self).files == (BootstrapFiles {
                primary_config_path: layout.bootstrap_primary_config_path,
                artifacts_config_path: layout.bootstrap_artifacts_config_path,
                ..old(self).files
            }),
            final(self).scripts == (BootstrapScripts { start_path: layout.bootstrap_start_path, ..old(self).scripts }),
            final(self).enabled == old(self).enabled,
            final(self).image == old(self).image,
            final(self).image_pull_policy == old(self).image_pull_policy,
            final(self).service_name == old(self).service_name,
            final(self).port == old(self).port,
            final(self).env == old(self).env,
            final(self).writable_mount_path == old(self).writable_mount_path,
    {
        self.files.primary_config_path = layout.bootstrap_primary_config_path.clone();
        self.files.artifacts_config_path = layout.bootstrap_artifacts_config_path.clone();
        self.scripts.start_path = layout.bootstrap_start_path.clone();
    }
}

impl BootstrapFiles {
    /// Whether every file is empty and there is no extra file.
    pub open spec fn is_empty(self) -> bool {
        &&& self.primary_config@ == Seq::<char>::empty()
        &&& self.artifacts_config@ == Seq::<char>::empty()
        &&& self.primary_config_path@ == Seq::<char>::empty()
        &&& self.artifacts_config_path@ == Seq::<char>::empty()
        &&& self.extra_files@ == Seq::<BootstrapExtraFile>::empty()
    }
}

impl BootstrapScripts {
    /// Whether the script and its path are empty.
    pub open spec fn is_empty(self) -> bool {
        &&& self.start@ == Seq::<char>::empty()
        &&& self.start_path@ == Seq::<char>::empty()
    }
}

/// Start scripts of the nodes.
#[derive(Debug, PartialEq, Eq)]
pub struct RunnerFiles {
    /// Shared start script content.
    pub common_start: String,
    /// Per-node start script content.
    pub node_start: String,
    /// Mount path of the shared start script.
    pub common_start_path: String,
    /// Mount path of the per-node start script.
    pub node_start_path: String,
}

/// Runner values of the chart.
#[derive(Debug, PartialEq, Eq)]
pub struct RunnerValues {
    /// Start scripts of the nodes.
    pub files: RunnerFiles,
}

impl RunnerValues {
    /// No scripts and no paths.
    pub fn default() -> (r: Self)
        ensures
            r.files.common_start@ == Seq::<char>::empty(),
            r.files.node_start@ == Seq::<char>::empty(),
            r.files.common_start_path@ == Seq::<char>::empty(),
            r.files.node_start_path@ == Seq::<char>::empty(),
    {
        RunnerValues {
            files: RunnerFiles {
                common_start: String::new(),
                node_start: String::new(),
                common_start_path: String::new(),
                node_start_path: String::new(),
            },
        }
    }

    /// Points the node start scripts at the layout's paths.
    pub fn apply_layout(&mut self, layout: &RunnerAssetLayout)
        ensures
            final(self).files == (RunnerFiles {
                common_start_path: layout.runner_common_start_path,
                node_start_path: layout.runner_node_start_path,
                ..old(self).files
            }),
    {
        self.files.common_start_path = layout.runner_common_start_path.clone();
        self.files.node_start_path = layout.runner_node_start_path.clone();
    }
}

/// One port a node exposes.
#[derive(Debug, PartialEq, Eq)]
pub struct NodePortValues {
    /// Port name.
    pub name: String,
    /// Container port.
    pub container_port: u16,
    /// Service port.
    pub service_port: u16,
    /// Protocol; `None` means TCP.
    pub protocol: Option<String>,
}

impl Clone for NodePortValues {
    fn clone(&self) -> (r: Self)
        ensures
            r == *self,
    {
        NodePortValues {
            name: self.name.clone(),
            container_port: self.container_port,
            service_port: self.service_port,
            protocol: self.protocol.clone(),
        }
    }
}

impl NodePortValues {
    /// A TCP port exposed on the same number in the container and the
    /// service.
    pub fn tcp(name: &str, port: u16) -> (r: Self)
        ensures
            r.name@ == name@,
            r.container_port == port,
            r.service_port == port,
            r.protocol is None,
    {
        NodePortValues { name: owned(name), container_port: port, service_port: port, protocol: None }
    }

    /// A UDP port exposed on the same number in the container and the
    /// service.
    pub fn udp(name: &str, port: u16) -> (r: Self)
        ensures
            r.name@ == name@,
            r.container_port == port,
            r.service_port == port,
            r.protocol matches Some(p) && p@ == "UDP"@,
    {
        NodePortValues { name: owned(name), container_port: port, service_port: port, protocol: Some(owned("UDP")) }
    }
}

/// The ports and environment of one node.
#[derive(Debug)]
pub struct NodeValues {
    /// Exposed ports.
    pub ports: Vec<NodePortValues>,
    /// Environment of the container.
    pub env: BTreeMap<String, String>,
}

impl View for NodeValues {
    type V = (Seq<NodePortValues>, Map<String, String>);

    open spec fn view(&self) -> Self::V {
        (self.ports@, self.env@)
    }
}

impl Clone for NodeValues {
    fn clone(&self) -> (r: Self)
        ensures
            r@ == self@,
    {
        let ports = self.ports.clone();
        assert(ports@ =~= self.ports@);
        NodeValues { ports, env: self.env.clone() }
    }
}

impl NodeValues {
    /// A node with the given ports and environment.
    pub fn new(ports: Vec<NodePortValues>, env: BTreeMap<String, String>) -> (r: Self)
        ensures
            r.ports == ports,
            r.env == env,
    {
        NodeValues { ports, env }
    }
}

/// The nodes of the chart.
#[derive(Debug)]
pub struct NodeGroup {
    /// Number of nodes.
    pub count: usize,
    /// One entry per node.
    pub entries: Vec<NodeValues>,
}

impl View for NodeGroup {
    type V = (usize, Seq<(Seq<NodePortValues>, Map<String, String>)>);

    open spec fn view(&self) -> Self::V {
        (self.count, self.entries@.map_values(|e: NodeValues| e@))
    }
}

impl Clone for NodeGroup {
    fn clone(&self) -> (r: Self)
        ensures
            r@ == self@,
    {
        let entries = self.entries.clone();
        assert(entries@.map_values(|e: NodeValues| e@) =~= self.entries@.map_values(|e: NodeValues| e@));
        NodeGroup { count: self.count, entries }
    }
}

impl NodeGroup {
    /// A group whose count is the number of entries.
    pub fn new(entries: Vec<NodeValues>) -> (r: Self)
        ensures
            r.count == entries@.len(),
            r.entries == entries,
    {
        NodeGroup { count: entries.len(), entries }
    }
}

/// All values of the runner chart.
#[derive(Debug)]
pub struct RunnerChartValues {
    /// Node container image.
    pub node_image: String,
    /// Node image pull policy.
    pub node_image_pull_policy: String,
    /// Name prefix of the chart's resources.
    pub fullname_override: String,
    /// Where the chart mounts the assets.
    pub asset_mount_path: String,
    /// The bootstrap service.
    pub bootstrap: BootstrapValues,
    /// Runner scripts.
    pub runner: RunnerValues,
    /// The nodes.
    pub nodes: NodeGroup,
}

impl RunnerChartValues {
    /// Values with the bootstrap service disabled and no runner scripts.
    pub fn new(
        node_image: String,
        node_image_pull_policy: String,
        fullname_override: String,
        asset_mount_path: String,
        nodes: NodeGroup,
    ) -> (r: Self)
        ensures
            r.node_image == node_image,
            r.node_image_pull_policy == node_image_pull_policy,
            r.fullname_override == fullname_override,
            r.asset_mount_path == asset_mount_path,
            r.bootstrap.is_disabled(),
            r.runner.files.common_start@ == Seq::<char>::empty(),
            r.runner.files.node_start@ == Seq::<char>::empty(),
            r.runner.files.common_start_path@ == Seq::<char>::empty(),
            r.runner.files.node_start_path@ == Seq::<char>::empty(),
            r.nodes == nodes,
    {
        RunnerChartValues {
            node_image,
            node_image_pull_policy,
            fullname_override,
            asset_mount_path,
            bootstrap: BootstrapValues::disabled(),
            runner: RunnerValues::default(),
            nodes,
        }
    }
}

} // verus!
