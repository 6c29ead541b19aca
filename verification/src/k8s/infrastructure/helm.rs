//! Helm installs: the release bundle (chart, value files, `--set` and
//! `--set-file` settings), the install spec derived from it, the argument
//! lists of `helm install` and `helm uninstall`, and how their outcomes are
//! reported. Running the `helm` process is the caller's part.

use vstd::prelude::*;

use crate::text::{owned, signed_decimal, i64_to_decimal, views};

verus! {

/// A `--set key=value` setting.
#[derive(Debug, PartialEq, Eq)]
pub struct HelmValueSetting {
    /// Value key.
    pub key: String,
    /// Value.
    pub value: String,
}

impl Clone for HelmValueSetting {
    fn clone(&self) -> (r: Self)
        ensures
            r == *self,
    {
        HelmValueSetting { key: self.key.clone(), value: self.value.clone() }
    }
}

/// A `--set-file key=path` setting.
#[derive(Debug, PartialEq, Eq)]
pub struct HelmFileSetting {
    /// Value key.
    pub key: String,
    /// Path of the file whose content becomes the value.
    pub path: String,
}

impl Clone for HelmFileSetting {
    fn clone(&self) -> (r: Self)
        ensures
            r == *self,
    {
        HelmFileSetting { key: self.key.clone(), path: self.path.clone() }
    }
}

/// Everything `helm install` needs.
#[derive(Debug, PartialEq, Eq)]
pub struct HelmInstallSpec {
    /// Release name.
    pub release: String,
    /// Chart directory.
    pub chart_path: String,
    /// Target namespace.
    pub namespace: String,
    /// Values files, in order.
    pub values_files: Vec<String>,
    /// `--set` settings, in order.
    pub set_values: Vec<HelmValueSetting>,
    /// `--set-file` settings, in order.
    pub set_files: Vec<HelmFileSetting>,
    /// Working directory of the `helm` process.
    pub current_dir: Option<String>,
    /// `--timeout` of the install.
    pub wait_timeout: String,
}

impl HelmInstallSpec {
    /// An install of `chart_path` as `release` into `namespace` with no
    /// settings and a five minute timeout.
    pub fn new(release: String, chart_path: String, namespace: String) -> (r: Self)
        ensures
            r.release == release,
            r.chart_path == chart_path,
            r.namespace == namespace,
            r.values_files@.len() == 0,
            r.set_values@.len() == 0,
            r.set_files@.len() == 0,
            r.current_dir is None,
            r.wait_timeout@ == "5m"@,
    {
        HelmInstallSpec {
            release,
            chart_path,
            namespace,
            values_files: Vec::new(),
            set_values: Vec::new(),
            set_files: Vec::new(),
            current_dir: None,
            wait_timeout: owned("5m"),
        }
    }
}

/// A chart with its settings, not yet bound to a release and namespace.
#[derive(Debug, PartialEq, Eq)]
pub struct HelmReleaseBundle {
    /// Chart directory.
    pub chart_path: String,
    /// Values files, in order.
    pub values_files: Vec<String>,
    /// `--set` settings, in order.
    pub set_values: Vec<HelmValueSetting>,
    /// `--set-file` settings, in order.
    pub set_files: Vec<HelmFileSetting>,
    /// Working directory of the `helm` process.
    pub current_dir: Option<String>,
    /// `--timeout` of the install.
    pub wait_timeout: String,
}

fn copy_strings(v: &Vec<String>) -> (r: Vec<String>)
    ensures
        r@ == v@,
{
    let r = v.clone();
    assert(r@ =~= v@);
    r
}

fn copy_value_settings(v: &Vec<HelmValueSetting>) -> (r: Vec<HelmValueSetting>)
    ensures
        r@ == v@,
{
    let r = v.clone();
    assert(r@ =~= v@);
    r
}

fn copy_file_settings(v: &Vec<HelmFileSetting>) -> (r: Vec<HelmFileSetting>)
    ensures
        r@ == v@,
{
    let r = v.clone();
    assert(r@ =~= v@);
    r
}

impl HelmReleaseBundle {
    /// A bundle of `chart_path` with no settings and a five minute timeout.
    pub fn new(chart_path: String) -> (r: Self)
        ensures
            r.chart_path == chart_path,
            r.values_files@.len() == 0,
            r.set_values@.len() == 0,
            r.set_files@.len() == 0,
            r.current_dir is None,
            r.wait_timeout@ == "5m"@,
    {
        HelmReleaseBundle {
            chart_path,
            values_files: Vec::new(),
            set_values: Vec::new(),
            set_files: Vec::new(),
            current_dir: None,
            wait_timeout: owned("5m"),
        }
    }

    /// The install of this bundle as `release` into `namespace`.
    pub fn install_spec(&self, release: String, namespace: String) -> (r: HelmInstallSpec)
        ensures
            r.release == release,
            r.namespace == namespace,
            r.chart_path == self.chart_path,
            r.values_files@ == self.values_files@,
            r.set_values@ == self.set_values@,
            r.set_files@ == self.set_files@,
            r.current_dir == self.current_dir,
            r.wait_timeout == self.wait_timeout,
    {
        HelmInstallSpec {
            release,
            chart_path: self.chart_path.clone(),
            namespace,
            values_files: copy_strings(&self.values_files),
            set_values: copy_value_settings(&self.set_values),
            set_files: copy_file_settings(&self.set_files),
            current_dir: self.current_dir.clone(),
            wait_timeout: self.wait_timeout.clone(),
        }
    }
}

/// `--set key=value` for each setting, in order.
pub open spec fn value_setting_args(settings: Seq<HelmValueSetting>) -> Seq<Seq<char>>
    decreases settings.len(),
{
    if settings.len() == 0 {
        Seq::empty()
    } else {
        value_setting_args(settings.drop_last()) + seq![
            "--set"@,
            settings.last().key@ + "="@ + settings.last().value@,
        ]
    }
}

/// `-f path` for each values file, in order.
pub open spec fn values_file_args(files: Seq<String>) -> Seq<Seq<char>>
    decreases files.len(),
{
    if files.len() == 0 {
        Seq::empty()
    } else {
        values_file_args(files.drop_last()) + seq!["-f"@, files.last()@]
    }
}

/// `--set-file key=path` for each setting, in order.
pub open spec fn file_setting_args(settings: Seq<HelmFileSetting>) -> Seq<Seq<char>>
    decreases settings.len(),
{
    if settings.len() == 0 {
        Seq::empty()
    } else {
        file_setting_args(settings.drop_last()) + seq![
            "--set-file"@,
            settings.last().key@ + "="@ + settings.last().path@,
        ]
    }
}

/// The arguments of `helm` for an install: release, chart, namespace
/// (created when missing), waiting up to the timeout, then the value
/// settings, the values files and the file settings.
pub open spec fn install_args(spec: HelmInstallSpec) -> Seq<Seq<char>> {
    seq![
        "install"@,
        spec.release@,
        spec.chart_path@,
        "--namespace"@,
        spec.namespace@,
        "--create-namespace"@,
        "--wait"@,
        "--timeout"@,
        spec.wait_timeout@,
    ] + value_setting_args(spec.set_values@) + values_file_args(spec.values_files@) + file_setting_args(
        spec.set_files@,
    )
}

fn push_str(v: &mut Vec<String>, s: &str)
    ensures
        views(final(v)@) == views(old(v)@).push(s@),
{
    let ghost before = v@;
    v.push(owned(s));
    assert(views(v@) =~= views(before).push(s@));
}

fn push_pair(v: &mut Vec<String>, flag: &str, key: &str, value: &str)
    ensures
        views(final(v)@) == views(old(v)@) + seq![flag@, key@ + "="@ + value@],
{
    let ghost before = views(v@);
    push_str(v, flag);
    let mut kv = owned(key);
    kv.append("=");
    kv.append(value);
    let ghost mid = v@;
    v.push(kv);
    assert(views(v@) =~= views(mid).push(kv@));
    assert(views(v@) =~= before + seq![flag@, key@ + "="@ + value@]);
}

/// The arguments of `helm` that install `spec`.
pub fn build_install_args(spec: &HelmInstallSpec) -> (r: Vec<String>)
    ensures
        views(r@) == install_args(*spec),
{
    let mut args: Vec<String> = Vec::new();
    push_str(&mut args, "install");
    push_str(&mut args, spec.release.as_str());
    push_str(&mut args, spec.chart_path.as_str());
    push_str(&mut args, "--namespace");
    push_str(&mut args, spec.namespace.as_str());
    push_str(&mut args, "--create-namespace");
    push_str(&mut args, "--wait");
    push_str(&mut args, "--timeout");
    push_str(&mut args, spec.wait_timeout.as_str());
    let ghost base = views(args@);
    let mut i: usize = 0;
    while i < spec.set_values.len()
        invariant
            i <= spec.set_values.len(),
            views(args@) == base + value_setting_args(spec.set_values@.take(i as int)),
        decreases spec.set_values.len() - i,
    {
        let s = &spec.set_values[i];
        push_pair(&mut args, "--set", s.key.as_str(), s.value.as_str());
        assert(spec.set_values@.take(i + 1).drop_last() =~= spec.set_values@.take(i as int));
        i = i + 1;
    }
    assert(spec.set_values@.take(spec.set_values.len() as int) =~= spec.set_values@);
    let ghost base2 = views(args@);
    let mut j: usize = 0;
    while j < spec.values_files.len()
        invariant
            j <= spec.values_files.len(),
            views(args@) == base2 + values_file_args(spec.values_files@.take(j as int)),
        decreases spec.values_files.len() - j,
    {
        let ghost before = views(args@);
        push_str(&mut args, "-f");
        push_str(&mut args, spec.values_files[j].as_str());
        assert(views(args@) =~= before + seq!["-f"@, spec.values_files@[j as int]@]);
        assert(spec.values_files@.take(j + 1).drop_last() =~= spec.values_files@.take(j as int));
        j = j + 1;
    }
    assert(spec.values_files@.take(spec.values_files.len() as int) =~= spec.values_files@);
    let ghost base3 = views(args@);
    let mut k: usize = 0;
    while k < spec.set_files.len()
        invariant
            k <= spec.set_files.len(),
            views(args@) == base3 + file_setting_args(spec.set_files@.take(k as int)),
        decreases spec.set_files.len() - k,
    {
        let f = &spec.set_files[k];
        push_pair(&mut args, "--set-file", f.key.as_str(), f.path.as_str());
        assert(spec.set_files@.take(k + 1).drop_last() =~= spec.set_files@.take(k as int));
        k = k + 1;
    }
    assert(spec.set_files@.take(spec.set_files.len() as int) =~= spec.set_files@);
    assert(views(args@) =~= install_args(*spec));
    args
}

/// The arguments of `helm` that uninstall `release` from `namespace`.
pub fn build_uninstall_args(release: &str, namespace: &str) -> (r: Vec<String>)
    ensures
        views(r@) == seq!["uninstall"@, release@, "--namespace"@, namespace@],
{
    let mut args: Vec<String> = Vec::new();
    push_str(&mut args, "uninstall");
    push_str(&mut args, release);
    push_str(&mut args, "--namespace");
    push_str(&mut args, namespace);
    args
}

/// How a `helm` subcommand on a release is named in errors:
/// `helm <subcommand> <release>`.
pub fn helm_command_label(subcommand: &str, release: &str) -> (r: String)
    ensures
        r@ == "helm "@ + subcommand@ + " "@ + release@,
{
    let mut r = owned("helm ");
    r.append(subcommand);
    r.append(" ");
    r.append(release);
    r
}

/// Errors returned from Helm invocations.
#[derive(Debug, PartialEq, Eq)]
pub enum HelmError {
    /// The `helm` process could not be started.
    Spawn { command: String, source: String },
    /// The `helm` process exited unsuccessfully.
    Failed { command: String, status: Option<i32>, stdout: String, stderr: String },
}

/// The debug rendering of an optional exit status.
pub open spec fn status_debug(status: Option<i32>) -> Seq<char> {
    match status {
        Some(code) => "Some("@ + signed_decimal(code as int) + ")"@,
        None => "None"@,
    }
}

impl HelmError {
    /// The human-readable message of the error.
    pub open spec fn message_view(&self) -> Seq<char> {
        match self {
            HelmError::Spawn { command, source } => "failed to spawn "@ + command@ + ": "@ + source@,
            HelmError::Failed { command, status, stdout, stderr } =>
                command@ + " exited with status "@ + status_debug(*status) + "\nstderr:\n"@ + stderr@
                    + "\nstdout:\n"@ + stdout@,
        }
    }

    /// The human-readable message of the error.
    pub fn message(&self) -> (r: String)
        ensures
            r@ == self.message_view(),
    {
        match self {
            HelmError::Spawn { command, source } => {
                let mut r = owned("failed to spawn ");
                r.append(command.as_str());
                r.append(": ");
                r.append(source.as_str());
                r
            },
            HelmError::Failed { command, status, stdout, stderr } => {
                let mut r = command.clone();
                r.append(" exited with status ");
                match status {
                    Some(code) => {
                        r.append("Some(");
                        r.append(i64_to_decimal(*code as i64).as_str());
                        r.append(")");
                    },
                    None => {
                        r.append("None");
                    },
                }
                r.append("\nstderr:\n");
                r.append(stderr.as_str());
                r.append("\nstdout:\n");
                r.append(stdout.as_str());
                r
            },
        }
    }
}

/// The outcome of a finished `helm` process: success, or the failure with
/// its exit status and output.
pub fn helm_outcome(command: &str, success: bool, status: Option<i32>, stdout: String, stderr: String) -> (r: Result<(), HelmError>)
    ensures
        success ==> r is Ok,
        !success ==> (r matches Err(HelmError::Failed { command: c, status: s, stdout: o, stderr: e })
            && c@ == command@ && s == status && o == stdout && e == stderr),
{
    if success {
        Ok(())
    } else {
        Err(HelmError::Failed { command: owned(command), status, stdout, stderr })
    }
}

/// `--set key=value` for each setting, in order: entries `2i` and `2i + 1`
/// are the flag and the `i`-th setting.
proof fn lemma_value_setting_args_layout(settings: Seq<HelmValueSetting>)
    ensures
        value_setting_args(settings).len() == 2 * settings.len(),
        forall|i: int|
            0 <= i < settings.len() ==> value_setting_args(settings).subrange(2 * i, 2 * i + 2) == seq![
                "--set"@,
                (#[trigger] settings[i]).key@ + "="@ + settings[i].value@,
            ],
    decreases settings.len(),
{
    if settings.len() > 0 {
        let rest = settings.drop_last();
        lemma_value_setting_args_layout(rest);
        let w = value_setting_args(settings);
        let r = value_setting_args(rest);
        assert(w == r + seq!["--set"@, settings.last().key@ + "="@ + settings.last().value@]);
        assert forall|i: int| 0 <= i < settings.len() implies w.subrange(2 * i, 2 * i + 2) == seq![
            "--set"@,
            (#[trigger] settings[i]).key@ + "="@ + settings[i].value@,
        ] by {
            if i < rest.len() {
                assert(rest[i] == settings[i]);
                assert(r.subrange(2 * i, 2 * i + 2) == seq!["--set"@, rest[i].key@ + "="@ + rest[i].value@]);
                assert(w.subrange(2 * i, 2 * i + 2) =~= r.subrange(2 * i, 2 * i + 2));
            } else {
                assert(settings[i] == settings.last());
                assert(w.subrange(2 * i, 2 * i + 2) =~= seq!["--set"@, settings.last().key@ + "="@ + settings.last().value@]);
            }
        }
    }
}

/// `-f path` for each values file, in order.
proof fn lemma_values_file_args_layout(files: Seq<String>)
    ensures
        values_file_args(files).len() == 2 * files.len(),
        forall|i: int|
            0 <= i < files.len() ==> values_file_args(files).subrange(2 * i, 2 * i + 2) == seq![
                "-f"@,
                (#[trigger] files[i])@,
            ],
    decreases files.len(),
{
    if files.len() > 0 {
        let rest = files.drop_last();
        lemma_values_file_args_layout(rest);
        let w = values_file_args(files);
        let r = values_file_args(rest);
        assert(w == r + seq!["-f"@, files.last()@]);
        assert forall|i: int| 0 <= i < files.len() implies w.subrange(2 * i, 2 * i + 2) == seq![
            "-f"@,
            (#[trigger] files[i])@,
        ] by {
            if i < rest.len() {
                assert(rest[i] == files[i]);
                assert(r.subrange(2 * i, 2 * i + 2) == seq!["-f"@, rest[i]@]);
                assert(w.subrange(2 * i, 2 * i + 2) =~= r.subrange(2 * i, 2 * i + 2));
            } else {
                assert(files[i] == files.last());
                assert(w.subrange(2 * i, 2 * i + 2) =~= seq!["-f"@, files.last()@]);
            }
        }
    }
}

/// `--set-file key=path` for each file setting, in order.
proof fn lemma_file_setting_args_layout(settings: Seq<HelmFileSetting>)
    ensures
        file_setting_args(settings).len() == 2 * settings.len(),
        forall|i: int|
            0 <= i < settings.len() ==> file_setting_args(settings).subrange(2 * i, 2 * i + 2) == seq![
                "--set-file"@,
                (#[trigger] settings[i]).key@ + "="@ + settings[i].path@,
            ],
    decreases settings.len(),
{
    if settings.len() > 0 {
        let rest = settings.drop_last();
        lemma_file_setting_args_layout(rest);
        let w = file_setting_args(settings);
        let r = file_setting_args(rest);
        assert(w == r + seq!["--set-file"@, settings.last().key@ + "="@ + settings.last().path@]);
        assert forall|i: int| 0 <= i < settings.len() implies w.subrange(2 * i, 2 * i + 2) == seq![
            "--set-file"@,
            (#[trigger] settings[i]).key@ + "="@ + settings[i].path@,
        ] by {
            if i < rest.len() {
                assert(rest[i] == settings[i]);
                assert(r.subrange(2 * i, 2 * i + 2) == seq!["--set-file"@, rest[i].key@ + "="@ + rest[i].path@]);
                assert(w.subrange(2 * i, 2 * i + 2) =~= r.subrange(2 * i, 2 * i + 2));
            } else {
                assert(settings[i] == settings.last());
                assert(w.subrange(2 * i, 2 * i + 2) =~= seq!["--set-file"@, settings.last().key@ + "="@ + settings.last().path@]);
            }
        }
    }
}

/// The install arguments pass every setting of the spec: after the nine
/// fixed arguments (`install`, release, chart, `--namespace`, namespace,
/// `--create-namespace`, `--wait`, `--timeout`, timeout) comes the pair
/// `--set key=value` of each value setting at positions `9 + 2i` and
/// `10 + 2i`, then a `-f path` pair for each values file, then a
/// `--set-file key=path` pair for each file setting, each in order, and
/// nothing else.
pub proof fn lemma_install_args_pass_every_setting(spec: HelmInstallSpec)
    ensures
        install_args(spec).len() == 9 + 2 * spec.set_values@.len() + 2 * spec.values_files@.len() + 2
            * spec.set_files@.len(),
        install_args(spec).take(9) == seq![
            "install"@,
            spec.release@,
            spec.chart_path@,
            "--namespace"@,
            spec.namespace@,
            "--create-namespace"@,
            "--wait"@,
            "--timeout"@,
            spec.wait_timeout@,
        ],
        forall|i: int|
            0 <= i < spec.set_values@.len() ==> install_args(spec).subrange(9 + 2 * i, 11 + 2 * i) == seq![
                "--set"@,
                (#[trigger] spec.set_values@[i]).key@ + "="@ + spec.set_values@[i].value@,
            ],
        forall|i: int|
            0 <= i < spec.values_files@.len() ==> install_args(spec).subrange(
                9 + 2 * spec.set_values@.len() + 2 * i,
                11 + 2 * spec.set_values@.len() + 2 * i,
            ) == seq!["-f"@, (#[trigger] spec.values_files@[i])@],
        forall|i: int|
            0 <= i < spec.set_files@.len() ==> install_args(spec).subrange(
                9 + 2 * spec.set_values@.len() + 2 * spec.values_files@.len() + 2 * i,
                11 + 2 * spec.set_values@.len() + 2 * spec.values_files@.len() + 2 * i,
            ) == seq!["--set-file"@, (#[trigger] spec.set_files@[i]).key@ + "="@ + spec.set_files@[i].path@],
{
    let v = value_setting_args(spec.set_values@);
    let f = values_file_args(spec.values_files@);
    let g = file_setting_args(spec.set_files@);
    lemma_value_setting_args_layout(spec.set_values@);
    lemma_values_file_args_layout(spec.values_files@);
    lemma_file_setting_args_layout(spec.set_files@);
    let head = seq![
        "install"@,
        spec.release@,
        spec.chart_path@,
        "--namespace"@,
        spec.namespace@,
        "--create-namespace"@,
        "--wait"@,
        "--timeout"@,
        spec.wait_timeout@,
    ];
    let a = install_args(spec);
    let hv = head + v;
    let hvf = hv + f;
    assert(a == hvf + g);
    let nv = spec.set_values@.len();
    let nf = spec.values_files@.len();
    assert(a.take(9) =~= head) by {
        assert(a.take(9) =~= hvf.take(9));
        assert(hvf.take(9) =~= hv.take(9));
    }
    assert forall|i: int| 0 <= i < nv implies a.subrange(9 + 2 * i, 11 + 2 * i) == seq![
        "--set"@,
        (#[trigger] spec.set_values@[i]).key@ + "="@ + spec.set_values@[i].value@,
    ] by {
        assert(a.subrange(9 + 2 * i, 11 + 2 * i) =~= hvf.subrange(9 + 2 * i, 11 + 2 * i));
        assert(hvf.subrange(9 + 2 * i, 11 + 2 * i) =~= hv.subrange(9 + 2 * i, 11 + 2 * i));
        assert(hv.subrange(9 + 2 * i, 11 + 2 * i) =~= v.subrange(2 * i, 2 * i + 2));
    }
    assert forall|i: int| 0 <= i < nf implies a.subrange(9 + 2 * nv + 2 * i, 11 + 2 * nv + 2 * i) == seq![
        "-f"@,
        (#[trigger] spec.values_files@[i])@,
    ] by {
        assert(a.subrange(9 + 2 * nv + 2 * i, 11 + 2 * nv + 2 * i) =~= hvf.subrange(9 + 2 * nv + 2 * i, 11 + 2 * nv + 2 * i));
        assert(hvf.subrange(9 + 2 * nv + 2 * i, 11 + 2 * nv + 2 * i) =~= f.subrange(2 * i, 2 * i + 2));
    }
    assert forall|i: int| 0 <= i < spec.set_files@.len() implies a.subrange(
        9 + 2 * nv + 2 * nf + 2 * i,
        11 + 2 * nv + 2 * nf + 2 * i,
    ) == seq!["--set-file"@, (#[trigger] spec.set_files@[i]).key@ + "="@ + spec.set_files@[i].path@] by {
        assert(a.subrange(9 + 2 * nv + 2 * nf + 2 * i, 11 + 2 * nv + 2 * nf + 2 * i) =~= g.subrange(2 * i, 2 * i + 2));
    }
}

} // verus!
