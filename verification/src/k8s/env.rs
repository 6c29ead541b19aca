//! Naming and manifest rendering of a Kubernetes deployment: node and
//! service names, the multi-document Helm manifest, the standard
//! binary-plus-config node objects (config map, deployment, service) and the
//! chart metadata.

use vstd::prelude::*;

use crate::k8s::infrastructure::helm::HelmReleaseBundle;
use crate::k8s::wait::NodeConfigPorts;
use crate::local::binary::{hex, u64_to_hex};
use crate::text::{
    decimal, join, join_strings, lines, owned, split_lines, str_chars, strip_suffix, trim, trim_str, u64_to_decimal,
    views, after_last, after_last_str, ascii_uppercase, replace_char, strip_suffix_str, to_ascii_uppercase,
    replace_char_str, chars_range_to_string,
};

verus! {

/// Assets that can be installed as one Helm release.
pub trait HelmReleaseAssets {
    /// The Helm bundle that installs the release.
    fn release_bundle(&self) -> HelmReleaseBundle;
}

/// A rendered chart directory (kept alive by the caller's temporary
/// workspace).
#[derive(Debug, PartialEq, Eq)]
pub struct RenderedHelmChartAssets {
    /// Chart directory.
    pub chart_path: String,
}

impl HelmReleaseAssets for RenderedHelmChartAssets {
    /// The chart with no settings.
    fn release_bundle(&self) -> (r: HelmReleaseBundle)
        ensures
            r.chart_path == self.chart_path,
            r.values_files@.len() == 0,
            r.set_values@.len() == 0,
            r.set_files@.len() == 0,
            r.current_dir is None,
            r.wait_timeout@ == "5m"@,
    {
        HelmReleaseBundle::new(self.chart_path.clone())
    }
}

/// Ports that must be exposed and forwarded for a deployment.
#[derive(Debug, PartialEq, Eq)]
pub struct PortSpecs {
    /// Per-node API and auxiliary ports.
    pub nodes: Vec<NodeConfigPorts>,
}

/// The standard port layout: every node exposes the same API and auxiliary
/// ports.
pub fn standard_port_specs(node_count: usize, api: u16, auxiliary: u16) -> (r: PortSpecs)
    ensures
        r.nodes@.len() == node_count,
        forall|i: int| 0 <= i < node_count ==> r.nodes@[i] == (NodeConfigPorts { api, auxiliary }),
{
    let mut nodes: Vec<NodeConfigPorts> = Vec::new();
    while nodes.len() < node_count
        invariant
            nodes@.len() <= node_count,
            forall|i: int| 0 <= i < nodes@.len() ==> nodes@[i] == (NodeConfigPorts { api, auxiliary }),
        decreases node_count - nodes@.len(),
    {
        nodes.push(NodeConfigPorts { api, auxiliary });
    }
    PortSpecs { nodes }
}

/// `s` without any number of leading `---\n` document separators.
pub open spec fn strip_leading_separators(s: Seq<char>) -> Seq<char>
    decreases s.len(),
{
    if s.len() >= 4 && s.take(4) == "---\n"@ {
        strip_leading_separators(s.skip(4))
    } else {
        s
    }
}

/// A serialized YAML document as a manifest holds it: leading separators
/// and surrounding white space removed.
pub open spec fn normalized_document(yaml: Seq<char>) -> Seq<char> {
    trim(strip_leading_separators(yaml))
}

/// Normalizes one serialized YAML document.
pub fn normalize_yaml_document(yaml: &str) -> (r: String)
    ensures
        r@ == normalized_document(yaml@),
{
    let v = str_chars(yaml);
    let mut i: usize = 0;
    assert(v@.skip(0) =~= v@);
    while v.len() - i >= 4 && v[i] == '-' && v[i + 1] == '-' && v[i + 2] == '-' && v[i + 3] == '\n'
        invariant
            i <= v.len(),
            v@ == yaml@,
            strip_leading_separators(yaml@) == strip_leading_separators(v@.skip(i as int)),
        decreases v.len() - i,
    {
        proof {
            reveal_strlit("---\n");
            let t = v@.skip(i as int).take(4);
            assert(t[0] == '-' && t[1] == '-' && t[2] == '-' && t[3] == '\n');
            assert(t =~= "---\n"@);
        }
        assert(v@.skip(i as int).skip(4) =~= v@.skip(i + 4));
        i = i + 4;
    }
    proof {
        reveal_strlit("---\n");
        let rest = v@.skip(i as int);
        if rest.len() >= 4 && rest.take(4) == "---\n"@ {
            assert(rest.take(4)[0] == v@[i as int]);
            assert(rest.take(4)[1] == v@[i + 1]);
            assert(rest.take(4)[2] == v@[i + 2]);
            assert(rest.take(4)[3] == v@[i + 3]);
        }
    }
    let rest = chars_range_to_string(&v, i, v.len());
    assert(rest@ =~= v@.skip(i as int));
    trim_str(rest.as_str())
}

/// A YAML manifest of several documents, rendered into one Helm template.
#[derive(Debug, PartialEq, Eq)]
pub struct HelmManifest {
    documents: Vec<String>,
}

impl View for HelmManifest {
    type V = Seq<Seq<char>>;

    /// The documents, in order.
    closed spec fn view(&self) -> Seq<Seq<char>> {
        views(self.documents@)
    }
}

/// The separator between rendered documents.
pub open spec fn document_separator() -> Seq<char> {
    "\n---\n"@
}

impl HelmManifest {
    /// An empty manifest.
    pub fn new() -> (r: Self)
        ensures
            r@ == Seq::<Seq<char>>::empty(),
    {
        let r = HelmManifest { documents: Vec::new() };
        assert(r@ =~= Seq::<Seq<char>>::empty());
        r
    }

    /// Appends a raw YAML document after trimming surrounding white space;
    /// a blank document is skipped.
    pub fn push_raw_yaml(&mut self, yaml: &str)
        ensures
            trim(yaml@).len() == 0 ==> final(self)@ == old(self)@,
            trim(yaml@).len() > 0 ==> final(self)@ == old(self)@.push(trim(yaml@)),
    {
        let yaml = trim_str(yaml);
        if yaml.as_str().unicode_len() > 0 {
            let ghost before = self.documents@;
            self.documents.push(yaml);
            assert(views(self.documents@) =~= views(before).push(yaml@));
        }
    }

    /// Appends one serialized document, normalized.
    pub fn push_serialized_yaml(&mut self, yaml: &str)
        ensures
            final(self)@ == old(self)@.push(normalized_document(yaml@)),
    {
        let ghost before = self.documents@;
        let doc = normalize_yaml_document(yaml);
        self.documents.push(doc);
        assert(views(self.documents@) =~= views(before).push(normalized_document(yaml@)));
    }

    /// Appends all documents of another manifest.
    pub fn extend(&mut self, other: Self)
        ensures
            final(self)@ == old(self)@ + other@,
    {
        let ghost before = self.documents@;
        let mut other_docs = other.documents;
        self.documents.append(&mut other_docs);
        assert(views(self.documents@) =~= views(before) + views(other.documents@));
    }

    /// Renders all documents separated by `---`.
    pub fn render(&self) -> (r: String)
        ensures
            r@ == join(self@, document_separator()),
    {
        join_strings(&self.documents, "\n---\n")
    }
}

/// `value` with every line indented by `spaces` spaces, lines joined by
/// line feeds.
pub open spec fn indented(value: Seq<char>, spaces: nat) -> Seq<char> {
    join(lines(value).map_values(|line: Seq<char>| Seq::new(spaces, |i: int| ' ') + line), "\n"@)
}

/// Indents every line of `value` by `spaces` spaces.
pub fn indent_yaml(value: &str, spaces: usize) -> (r: String)
    ensures
        r@ == indented(value@, spaces as nat),
{
    let mut padding = String::new();
    let mut k: usize = 0;
    while k < spaces
        invariant
            k <= spaces,
            padding@ == Seq::new(k as nat, |i: int| ' '),
        decreases spaces - k,
    {
        crate::text::push_char(&mut padding, ' ');
        assert(padding@ =~= Seq::new((k + 1) as nat, |i: int| ' '));
        k = k + 1;
    }
    let parts = split_lines(value);
    let mut out: Vec<String> = Vec::new();
    let mut i: usize = 0;
    while i < parts.len()
        invariant
            i <= parts.len(),
            padding@ == Seq::new(spaces as nat, |i: int| ' '),
            views(parts@) == lines(value@),
            views(out@) == lines(value@).take(i as int).map_values(
                |line: Seq<char>| Seq::new(spaces as nat, |i: int| ' ') + line,
            ),
        decreases parts.len() - i,
    {
        let mut line = padding.clone();
        line.append(parts[i].as_str());
        let ghost before = out@;
        assert(views(parts@)[i as int] == parts@[i as int]@);
        assert(line@ == Seq::new(spaces as nat, |i: int| ' ') + lines(value@)[i as int]);
        out.push(line);
        assert(views(out@) =~= views(before).push(line@));
        assert(views(out@) =~= lines(value@).take(i + 1).map_values(
            |line: Seq<char>| Seq::new(spaces as nat, |i: int| ' ') + line,
        ));
        i = i + 1;
    }
    assert(lines(value@).take(parts.len() as int) =~= lines(value@));
    join_strings(&out, "\n")
}

/// The standard binary-plus-config installation of a node kind.
#[derive(Debug, PartialEq, Eq)]
pub struct BinaryConfigK8sSpec {
    /// Helm chart name used for the generated chart.
    pub chart_name: String,
    /// Prefix of the generated node deployment and service names.
    pub node_name_prefix: String,
    /// Binary path inside the container image.
    pub binary_path: String,
    /// Absolute config path inside the container.
    pub config_container_path: String,
    /// Main HTTP port exposed by the container.
    pub container_http_port: u16,
    /// Auxiliary service port exposed by the service.
    pub service_testing_port: u16,
    /// Primary environment variable overriding the image.
    pub image_env_var: String,
    /// Fallback environment variable overriding the image.
    pub fallback_image_env_var: String,
    /// Local image tag used when no override is present.
    pub default_image: String,
    /// Image pull policy of the generated deployments.
    pub image_pull_policy: String,
}

/// The file name of a binary path: what follows its last `/`.
pub open spec fn binary_name(binary_path: Seq<char>) -> Seq<char> {
    after_last(binary_path, '/')
}

/// The environment variable prefix of a binary: its name without a `-node`
/// suffix, dashes turned into underscores, in ASCII upper case.
pub open spec fn env_prefix(binary_name: Seq<char>) -> Seq<char> {
    let base = match strip_suffix(binary_name, "-node"@) {
        Some(b) => b,
        None => binary_name,
    };
    ascii_uppercase(replace_char(base, '-', '_'))
}

impl BinaryConfigK8sSpec {
    /// The conventional spec of a generated chart: images are overridden by
    /// `<PREFIX>_K8S_IMAGE`, then `<PREFIX>_IMAGE`, and default to
    /// `<binary>:local`, pulled if not present.
    pub fn conventional(
        chart_name: &str,
        node_name_prefix: &str,
        binary_path: &str,
        config_container_path: &str,
        container_http_port: u16,
        service_testing_port: u16,
    ) -> (r: Self)
        ensures
            r.chart_name@ == chart_name@,
            r.node_name_prefix@ == node_name_prefix@,
            r.binary_path@ == binary_path@,
            r.config_container_path@ == config_container_path@,
            r.container_http_port == container_http_port,
            r.service_testing_port == service_testing_port,
            r.image_env_var@ == env_prefix(binary_name(binary_path@)) + "_K8S_IMAGE"@,
            r.fallback_image_env_var@ == env_prefix(binary_name(binary_path@)) + "_IMAGE"@,
            r.default_image@ == binary_name(binary_path@) + ":local"@,
            r.image_pull_policy@ == "IfNotPresent"@,
    {
        let name = after_last_str(binary_path, '/');
        let base = match strip_suffix_str(name.as_str(), "-node") {
            Some(b) => b,
            None => name.clone(),
        };
        let prefix = to_ascii_uppercase(replace_char_str(base.as_str(), '-', '_').as_str());
        let mut image_env_var = prefix.clone();
        image_env_var.append("_K8S_IMAGE");
        let mut fallback_image_env_var = prefix;
        fallback_image_env_var.append("_IMAGE");
        let mut default_image = name;
        default_image.append(":local");
        BinaryConfigK8sSpec {
            chart_name: owned(chart_name),
            node_name_prefix: owned(node_name_prefix),
            binary_path: owned(binary_path),
            config_container_path: owned(config_container_path),
            container_http_port,
            service_testing_port,
            image_env_var,
            fallback_image_env_var,
            default_image,
            image_pull_policy: owned("IfNotPresent"),
        }
    }
}

/// The image of the generated deployments: the primary override when set,
/// else the fallback override when set, else the default image.
pub fn select_k8s_image(primary: Option<String>, fallback: Option<String>, spec: &BinaryConfigK8sSpec) -> (r: String)
    ensures
        primary matches Some(p) ==> r == p,
        primary is None ==> (fallback matches Some(f) ==> r == f),
        primary is None && fallback is None ==> r == spec.default_image,
{
    match primary {
        Some(p) => p,
        None => match fallback {
            Some(f) => f,
            None => spec.default_image.clone(),
        },
    }
}

/// `Chart.yaml` of a generated chart.
pub open spec fn chart_yaml(chart_name: Seq<char>) -> Seq<char> {
    "apiVersion: v2\nname: "@ + chart_name + "\nversion: 0.1.0\n"@
}

/// Renders `Chart.yaml` of a generated chart.
pub fn render_chart_yaml(chart_name: &str) -> (r: String)
    ensures
        r@ == chart_yaml(chart_name@),
{
    let mut r = owned("apiVersion: v2\nname: ");
    r.append(chart_name);
    r.append("\nversion: 0.1.0\n");
    r
}

/// The template file name of a generated chart: `<chart>.yaml`.
pub fn chart_template_name(chart_name: &str) -> (r: String)
    ensures
        r@ == chart_name@ + ".yaml"@,
{
    let mut r = owned(chart_name);
    r.append(".yaml");
    r
}

/// The config map holding a node's configuration.
pub open spec fn node_config_map(name: Seq<char>, config_yaml: Seq<char>) -> Seq<char> {
    "apiVersion: v1\nkind: ConfigMap\nmetadata:\n  name: "@ + name + "-config\ndata:\n  config.yaml: |\n"@
        + indented(config_yaml, 4)
}

/// Renders the config map holding a node's configuration.
pub fn render_node_config_map(name: &str, config_yaml: &str) -> (r: String)
    ensures
        r@ == node_config_map(name@, config_yaml@),
{
    let mut r = owned("apiVersion: v1\nkind: ConfigMap\nmetadata:\n  name: ");
    r.append(name);
    r.append("-config\ndata:\n  config.yaml: |\n");
    r.append(indent_yaml(config_yaml, 4).as_str());
    r
}

/// The deployment running one node from `image` with its configuration
/// mounted at the spec's config path.
pub open spec fn node_deployment(name: Seq<char>, spec: BinaryConfigK8sSpec, image: Seq<char>) -> Seq<char> {
    "apiVersion: apps/v1\nkind: Deployment\nmetadata:\n  name: "@ + name
        + "\nspec:\n  replicas: 1\n  selector:\n    matchLabels:\n      app: "@ + name
        + "\n  template:\n    metadata:\n      labels:\n        app: "@ + name
        + "\n    spec:\n      containers:\n        - name: app\n          image: "@ + image
        + "\n          imagePullPolicy: "@ + spec.image_pull_policy@
        + "\n          args:\n            - --config\n            - "@ + spec.config_container_path@
        + "\n          ports:\n            - containerPort: "@ + decimal(spec.container_http_port as nat)
        + "\n          volumeMounts:\n            - name: config\n              mountPath: "@
        + spec.config_container_path@
        + "\n              subPath: config.yaml\n      volumes:\n        - name: config\n          configMap:\n            name: "@
        + name + "-config"@
}

/// Renders the deployment of one node.
pub fn render_node_deployment(name: &str, spec: &BinaryConfigK8sSpec, image: &str) -> (r: String)
    ensures
        r@ == node_deployment(name@, *spec, image@),
{
    let mut r = owned("apiVersion: apps/v1\nkind: Deployment\nmetadata:\n  name: ");
    r.append(name);
    r.append("\nspec:\n  replicas: 1\n  selector:\n    matchLabels:\n      app: ");
    r.append(name);
    r.append("\n  template:\n    metadata:\n      labels:\n        app: ");
    r.append(name);
    r.append("\n    spec:\n      containers:\n        - name: app\n          image: ");
    r.append(image);
    r.append("\n          imagePullPolicy: ");
    r.append(spec.image_pull_policy.as_str());
    r.append("\n          args:\n            - --config\n            - ");
    r.append(spec.config_container_path.as_str());
    r.append("\n          ports:\n            - containerPort: ");
    r.append(u64_to_decimal(spec.container_http_port as u64).as_str());
    r.append("\n          volumeMounts:\n            - name: config\n              mountPath: ");
    r.append(spec.config_container_path.as_str());
    r.append(
        "\n              subPath: config.yaml\n      volumes:\n        - name: config\n          configMap:\n            name: ",
    );
    r.append(name);
    r.append("-config");
    r
}

/// The node-port service of one node: the API port and the testing port,
/// both targeting the container's HTTP port.
pub open spec fn node_service(name: Seq<char>, spec: BinaryConfigK8sSpec) -> Seq<char> {
    let api = decimal(spec.container_http_port as nat);
    "apiVersion: v1\nkind: Service\nmetadata:\n  name: "@ + name + "\nspec:\n  selector:\n    app: "@ + name
        + "\n  type: NodePort\n  ports:\n    - name: api\n      port: "@ + api + "\n      targetPort: "@ + api
        + "\n      protocol: TCP\n    - name: testing\n      port: "@ + decimal(spec.service_testing_port as nat)
        + "\n      targetPort: "@ + api + "\n      protocol: TCP"@
}

/// Renders the service of one node.
pub fn render_node_service(name: &str, spec: &BinaryConfigK8sSpec) -> (r: String)
    ensures
        r@ == node_service(name@, *spec),
{
    let api = u64_to_decimal(spec.container_http_port as u64);
    let mut r = owned("apiVersion: v1\nkind: Service\nmetadata:\n  name: ");
    r.append(name);
    r.append("\nspec:\n  selector:\n    app: ");
    r.append(name);
    r.append("\n  type: NodePort\n  ports:\n    - name: api\n      port: ");
    r.append(api.as_str());
    r.append("\n      targetPort: ");
    r.append(api.as_str());
    r.append("\n      protocol: TCP\n    - name: testing\n      port: ");
    r.append(u64_to_decimal(spec.service_testing_port as u64).as_str());
    r.append("\n      targetPort: ");
    r.append(api.as_str());
    r.append("\n      protocol: TCP");
    r
}

/// `<prefix>-<index>`.
pub open spec fn indexed_name(prefix: Seq<char>, index: nat) -> Seq<char> {
    prefix + "-"@ + decimal(index)
}

/// Formats `<prefix>-<index>`.
pub fn format_indexed_name(prefix: &str, index: usize) -> (r: String)
    ensures
        r@ == indexed_name(prefix@, index as nat),
{
    let mut r = owned(prefix);
    r.append("-");
    r.append(u64_to_decimal(index as u64).as_str());
    r
}

/// `<prefix>-0` to `<prefix>-<count - 1>`.
pub fn indexed_names(prefix: &str, count: usize) -> (r: Vec<String>)
    ensures
        r@.len() == count,
        forall|i: int| 0 <= i < count ==> (#[trigger] r@[i])@ == indexed_name(prefix@, i as nat),
{
    let mut r: Vec<String> = Vec::new();
    let mut i: usize = 0;
    while i < count
        invariant
            i <= count,
            r@.len() == i,
            forall|k: int| 0 <= k < i ==> (#[trigger] r@[k])@ == indexed_name(prefix@, k as nat),
        decreases count - i,
    {
        r.push(format_indexed_name(prefix, i));
        i = i + 1;
    }
    r
}

/// The three objects of node `i` named `name`: config map, deployment and
/// service.
pub open spec fn node_documents(name: Seq<char>, config_yaml: Seq<char>, spec: BinaryConfigK8sSpec, image: Seq<char>) -> Seq<Seq<char>> {
    seq![node_config_map(name, config_yaml), node_deployment(name, spec, image), node_service(name, spec)]
}

/// The objects of all nodes, in node order.
pub open spec fn manifest_documents(configs: Seq<Seq<char>>, spec: BinaryConfigK8sSpec, image: Seq<char>) -> Seq<Seq<char>>
    decreases configs.len(),
{
    if configs.len() == 0 {
        Seq::empty()
    } else {
        manifest_documents(configs.drop_last(), spec, image) + node_documents(
            indexed_name(spec.node_name_prefix@, (configs.len() - 1) as nat),
            configs.last(),
            spec,
            image,
        )
    }
}

/// The manifest of a binary-plus-config stack: for node `i`, named
/// `<prefix>-<i>`, its config map (holding `config_yamls[i]`), deployment
/// and service, all documents separated by `---`.
pub fn render_binary_config_node_manifest(spec: &BinaryConfigK8sSpec, image: &str, config_yamls: &Vec<String>) -> (r: String)
    ensures
        r@ == join(manifest_documents(views(config_yamls@), *spec, image@), document_separator()),
{
    let names = indexed_names(spec.node_name_prefix.as_str(), config_yamls.len());
    let mut docs: Vec<String> = Vec::new();
    let mut i: usize = 0;
    while i < config_yamls.len()
        invariant
            i <= config_yamls.len(),
            names@.len() == config_yamls@.len(),
            forall|k: int| 0 <= k < names@.len() ==> (#[trigger] names@[k])@ == indexed_name(spec.node_name_prefix@, k as nat),
            views(docs@) == manifest_documents(views(config_yamls@).take(i as int), *spec, image@),
        decreases config_yamls.len() - i,
    {
        let name = names[i].as_str();
        let ghost before = views(docs@);
        docs.push(render_node_config_map(name, config_yamls[i].as_str()));
        docs.push(render_node_deployment(name, spec, image));
        docs.push(render_node_service(name, spec));
        proof {
            let t = views(config_yamls@).take(i + 1);
            assert(t.drop_last() =~= views(config_yamls@).take(i as int));
            assert(t.last() == config_yamls@[i as int]@);
            assert(views(docs@) =~= before + node_documents(names@[i as int]@, config_yamls@[i as int]@, *spec, image@));
        }
        i = i + 1;
    }
    assert(views(config_yamls@).take(config_yamls.len() as int) =~= views(config_yamls@));
    join_strings(&docs, "\n---\n")
}

/// The default name of node `index`'s deployment and service:
/// `<release>-node-<index>`.
pub open spec fn default_node_name_spec(release: Seq<char>, index: nat) -> Seq<char> {
    release + "-node-"@ + decimal(index)
}

/// Formats the default name of node `index`'s deployment and service.
pub fn default_node_name(release: &str, index: usize) -> (r: String)
    ensures
        r@ == default_node_name_spec(release@, index as nat),
{
    let mut r = owned(release);
    r.append("-node-");
    r.append(u64_to_decimal(index as u64).as_str());
    r
}

/// The label selector of a release's node services.
pub fn default_attach_node_service_selector(release: &str) -> (r: String)
    ensures
        r@ == "app.kubernetes.io/instance="@ + release@,
{
    let mut r = owned("app.kubernetes.io/instance=");
    r.append(release);
    r
}

/// The cfgsync host names of all nodes: their default service names.
pub fn cfgsync_hostnames(release: &str, node_count: usize) -> (r: Vec<String>)
    ensures
        r@.len() == node_count,
        forall|i: int| 0 <= i < node_count ==> (#[trigger] r@[i])@ == default_node_name_spec(release@, i as nat),
{
    let mut r: Vec<String> = Vec::new();
    let mut i: usize = 0;
    while i < node_count
        invariant
            i <= node_count,
            r@.len() == i,
            forall|k: int| 0 <= k < i ==> (#[trigger] r@[k])@ == default_node_name_spec(release@, k as nat),
        decreases node_count - i,
    {
        r.push(default_node_name(release, i));
        i = i + 1;
    }
    r
}

/// The generated namespace and release of a run that started at
/// `stamp_millis` (milliseconds since the Unix epoch) in process `pid`:
/// `tf-testnet-<stamp>-<pid>` in lowercase hexadecimal, and `tf-runner`.
pub fn default_cluster_identifiers(stamp_millis: u64, pid: u32) -> (r: (String, String))
    ensures
        r.0@ == "tf-testnet-"@ + hex(stamp_millis as nat) + "-"@ + hex(pid as nat),
        r.1@ == "tf-runner"@,
{
    let mut namespace = owned("tf-testnet-");
    namespace.append(u64_to_hex(stamp_millis).as_str());
    namespace.append("-");
    namespace.append(u64_to_hex(pid as u64).as_str());
    (namespace, owned("tf-runner"))
}

/// The config map that a node's deployment mounts is the one rendered for
/// the same node: the deployment's config volume names `<name>-config`, and
/// the node's config map is created under that very name.
pub proof fn lemma_deployment_mounts_its_config_map(
    name: Seq<char>,
    spec: BinaryConfigK8sSpec,
    image: Seq<char>,
    config_yaml: Seq<char>,
)
    ensures
        exists|before: Seq<char>|
            node_deployment(name, spec, image) == before + "\n          configMap:\n            name: "@ + (name
                + "-config"@),
        exists|after: Seq<char>|
            node_config_map(name, config_yaml) == "apiVersion: v1\nkind: ConfigMap\nmetadata:\n  name: "@ + (name
                + "-config"@) + "\n"@ + after,
{
    let volume = "\n              subPath: config.yaml\n      volumes:\n        - name: config\n          configMap:\n            name: "@;
    let mount = "\n          configMap:\n            name: "@;
    let lead = "\n              subPath: config.yaml\n      volumes:\n        - name: config"@;
    reveal_strlit("\n              subPath: config.yaml\n      volumes:\n        - name: config\n          configMap:\n            name: ");
    reveal_strlit("\n          configMap:\n            name: ");
    reveal_strlit("\n              subPath: config.yaml\n      volumes:\n        - name: config");
    assert(volume =~= lead + mount);
    let d = node_deployment(name, spec, image);
    let body = "apiVersion: apps/v1\nkind: Deployment\nmetadata:\n  name: "@ + name
        + "\nspec:\n  replicas: 1\n  selector:\n    matchLabels:\n      app: "@ + name
        + "\n  template:\n    metadata:\n      labels:\n        app: "@ + name
        + "\n    spec:\n      containers:\n        - name: app\n          image: "@ + image
        + "\n          imagePullPolicy: "@ + spec.image_pull_policy@
        + "\n          args:\n            - --config\n            - "@ + spec.config_container_path@
        + "\n          ports:\n            - containerPort: "@ + decimal(spec.container_http_port as nat)
        + "\n          volumeMounts:\n            - name: config\n              mountPath: "@
        + spec.config_container_path@;
    assert(d == body + volume + name + "-config"@);
    assert(d =~= (body + lead) + mount + (name + "-config"@));
    let head = "apiVersion: v1\nkind: ConfigMap\nmetadata:\n  name: "@;
    let tail = "-config\ndata:\n  config.yaml: |\n"@;
    let rest = "\ndata:\n  config.yaml: |\n"@;
    reveal_strlit("-config\ndata:\n  config.yaml: |\n");
    reveal_strlit("\ndata:\n  config.yaml: |\n");
    reveal_strlit("-config");
    reveal_strlit("\n");
    reveal_strlit("data:\n  config.yaml: |\n");
    let data = "data:\n  config.yaml: |\n"@;
    assert(tail =~= "-config"@ + "\n"@ + data);
    let c = node_config_map(name, config_yaml);
    assert(c =~= head + (name + "-config"@) + "\n"@ + (data + indented(config_yaml, 4)));
}

} // verus!
