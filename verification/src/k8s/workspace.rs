//! Locating the workspace and the runner chart, and checking that required
//! paths exist. Paths are handled as strings; the file system is asked by
//! the caller.

use vstd::prelude::*;

use crate::text::owned;

verus! {

/// The runner chart's directory relative to the workspace root.
pub open spec fn runner_chart_dir() -> Seq<char> {
    "testing-framework/deployers/k8s/assets/helm/tf-runner"@
}

/// `rel` joined onto `base` with one `/` between them.
pub open spec fn join_path(base: Seq<char>, rel: Seq<char>) -> Seq<char> {
    if base.len() == 0 {
        rel
    } else if base.last() == '/' {
        base + rel
    } else {
        base + "/"@ + rel
    }
}

/// Joins a relative path onto a base directory.
pub fn join_relative(base: &str, rel: &str) -> (r: String)
    ensures
        r@ == join_path(base@, rel@),
{
    let n = base.unicode_len();
    let mut r = owned(base);
    if n > 0 && base.get_char(n - 1) != '/' {
        r.append("/");
    }
    r.append(rel);
    r
}

/// Where the runner chart lives inside a workspace.
pub fn workspace_runner_chart_path(workspace_root: &str) -> (r: String)
    ensures
        r@ == join_path(workspace_root@, runner_chart_dir()),
{
    join_relative(workspace_root, "testing-framework/deployers/k8s/assets/helm/tf-runner")
}

/// The runner chart to install: the workspace's copy when it exists,
/// otherwise the copy shipped with the crate.
pub fn bundled_runner_chart_path(workspace_root: &str, workspace_copy_exists: bool, crate_copy: &str) -> (r: String)
    ensures
        workspace_copy_exists ==> r@ == join_path(workspace_root@, runner_chart_dir()),
        !workspace_copy_exists ==> r@ == crate_copy@,
{
    if workspace_copy_exists {
        workspace_runner_chart_path(workspace_root)
    } else {
        owned(crate_copy)
    }
}

/// The workspace root: an explicit override when given, otherwise the first
/// candidate directory recognized as a workspace root (`None` when none
/// is).
pub fn select_workspace_root(env_override: Option<String>, candidates: Vec<(String, bool)>) -> (r: Option<String>)
    ensures
        env_override matches Some(o) ==> r == Some(o),
        env_override is None ==> (r is Some <==> exists|i: int| 0 <= i < candidates@.len() && (#[trigger] candidates@[i]).1),
        env_override is None ==> (r matches Some(p) ==> exists|i: int| 0 <= i < candidates@.len() && (#[trigger] candidates@[i]).1
            && candidates@[i].0 == p && forall|j: int| 0 <= j < i ==> !candidates@[j].1),
{
    if let Some(o) = env_override {
        return Some(o);
    }
    let mut i: usize = 0;
    while i < candidates.len()
        invariant
            i <= candidates.len(),
            env_override is None,
            forall|j: int| 0 <= j < i ==> !(#[trigger] candidates@[j]).1,
        decreases candidates.len() - i,
    {
        if candidates[i].1 {
            return Some(candidates[i].0.clone());
        }
        i = i + 1;
    }
    None
}

/// A required path that is missing or unreadable.
#[derive(Debug, PartialEq, Eq)]
pub enum RequiredPathError {
    /// The path does not exist.
    MissingPath { path: String },
    /// Whether the path exists could not be determined.
    Io { path: String, source: String },
}

impl RequiredPathError {
    /// The human-readable message of the error.
    pub open spec fn message_view(&self) -> Seq<char> {
        match self {
            RequiredPathError::MissingPath { path } => "missing required path at "@ + path@,
            RequiredPathError::Io { path, source } => "failed to read "@ + path@ + ": "@ + source@,
        }
    }

    /// The human-readable message of the error.
    pub fn message(&self) -> (r: String)
        ensures
            r@ == self.message_view(),
    {
        match self {
            RequiredPathError::MissingPath { path } => {
                let mut r = owned("missing required path at ");
                r.append(path.as_str());
                r
            },
            RequiredPathError::Io { path, source } => {
                let mut r = owned("failed to read ");
                r.append(path.as_str());
                r.append(": ");
                r.append(source.as_str());
                r
            },
        }
    }
}

/// Whether a probe of a path's existence found it.
pub open spec fn probe_ok(probe: (String, Result<bool, String>)) -> bool {
    probe.1 == Ok::<bool, String>(true)
}

/// One path of a check for required paths, given the outcome of probing
/// it: the path when it exists, otherwise the error for it.
pub fn require_existing_path(path: String, probe: Result<bool, String>) -> (r: Result<String, RequiredPathError>)
    ensures
        probe == Ok::<bool, String>(true) ==> r == Ok::<String, RequiredPathError>(path),
        probe == Ok::<bool, String>(false) ==> r == Err::<String, RequiredPathError>(
            RequiredPathError::MissingPath { path },
        ),
        probe matches Err(e) ==> r == Err::<String, RequiredPathError>(RequiredPathError::Io { path, source: e }),
{
    match probe {
        Ok(true) => Ok(path),
        Ok(false) => Err(RequiredPathError::MissingPath { path }),
        Err(source) => Err(RequiredPathError::Io { path, source }),
    }
}

/// The paths, in order, when every probe found its path; otherwise the
/// error of the first path that is missing or could not be probed.
pub fn require_existing_paths(probes: Vec<(String, Result<bool, String>)>) -> (r: Result<Vec<String>, RequiredPathError>)
    ensures
        r is Ok <==> forall|i: int| 0 <= i < probes@.len() ==> probe_ok(#[trigger] probes@[i]),
        (forall|i: int| 0 <= i < probes@.len() ==> probe_ok(#[trigger] probes@[i])) ==> (r matches Ok(v)
            && v@ == probes@.map_values(|p: (String, Result<bool, String>)| p.0)),
        r is Err ==> exists|i: int|
            0 <= i < probes@.len() && !probe_ok(#[trigger] probes@[i]) && (forall|j: int|
                0 <= j < i ==> probe_ok(probes@[j])) && match probes@[i].1 {
                Ok(_) => r == Err::<Vec<String>, RequiredPathError>(RequiredPathError::MissingPath { path: probes@[i].0 }),
                Err(e) => r == Err::<Vec<String>, RequiredPathError>(RequiredPathError::Io { path: probes@[i].0, source: e }),
            },
{
    let mut collected: Vec<String> = Vec::new();
    let mut i: usize = 0;
    while i < probes.len()
        invariant
            i <= probes.len(),
            forall|j: int| 0 <= j < i ==> probe_ok(#[trigger] probes@[j]),
            collected@ == probes@.take(i as int).map_values(|p: (String, Result<bool, String>)| p.0),
        decreases probes.len() - i,
    {
        let probe: Result<bool, String> = match &probes[i].1 {
            Ok(b) => Ok(*b),
            Err(e) => Err(e.clone()),
        };
        let path = require_existing_path(probes[i].0.clone(), probe)?;
        collected.push(path);
        assert(collected@ =~= probes@.take(i + 1).map_values(|p: (String, Result<bool, String>)| p.0));
        i = i + 1;
    }
    assert(probes@.take(probes.len() as int) =~= probes@);
    Ok(collected)
}

/// A directory configured through an environment variable (`value`, when
/// set): absolute as given, otherwise relative to the workspace root.
pub fn resolve_optional_relative_dir(workspace_root: &str, value: Option<String>) -> (r: Option<String>)
    ensures
        value is None ==> r is None,
        value matches Some(v) ==> (r matches Some(p) && p@ == crate::local::binary::path_join(workspace_root@, v@)),
{
    match value {
        Some(v) => Some(crate::local::binary::join_paths(workspace_root, v.as_str())),
        None => None,
    }
}

} // verus!
