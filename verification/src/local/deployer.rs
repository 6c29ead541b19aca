//! The local deployer and cluster provisioner: which cluster modes and
//! sources they accept, the control profile of a provisioned unit, the
//! retry budget of spawning with readiness checks, and how failures are
//! reported.

use vstd::prelude::*;

use crate::scenario::{ClusterControlProfile, ClusterSourceKind, ClusterStartMode, ProvisionPlan};
use crate::text::{ascii_lowercase, owned, str_eq, to_ascii_lowercase};

verus! {

/// How a scenario obtains its cluster.
#[derive(Clone, Copy, Debug, PartialEq, Eq)]
pub enum ClusterMode {
    /// The deployer installs and runs the nodes.
    Managed,
    /// The scenario attaches to an existing deployment.
    ExistingCluster,
    /// The scenario only talks to external nodes.
    ExternalOnly,
}

/// Failures of the local deployer.
#[derive(Debug, PartialEq, Eq)]
pub enum ProcessDeployerError {
    /// Spawning the nodes failed.
    Spawn { source: String },
    /// The readiness probe failed.
    ReadinessFailed { source: String },
    /// The scenario topology is not supported.
    UnsupportedTopology,
    /// A workload failed.
    WorkloadFailed { source: String },
    /// No node client is available at run time.
    RuntimePreflight,
    /// Setting up runtime extensions failed.
    RuntimeExtensions { source: String },
    /// Orchestrating the node sources failed.
    SourceOrchestration { source: String },
    /// Expectations failed.
    ExpectationsFailed { source: String },
}

impl ProcessDeployerError {
    /// The human-readable message of the error.
    pub open spec fn message_view(&self) -> Seq<char> {
        match self {
            ProcessDeployerError::Spawn { source } => "failed to spawn local topology: "@ + source@,
            ProcessDeployerError::ReadinessFailed { source } => "readiness probe failed: "@ + source@,
            ProcessDeployerError::UnsupportedTopology => "scenario topology is not supported by the local deployer"@,
            ProcessDeployerError::WorkloadFailed { source } => "workload failed: "@ + source@,
            ProcessDeployerError::RuntimePreflight => "runtime preflight failed: no node clients available"@,
            ProcessDeployerError::RuntimeExtensions { source } => "runtime extension setup failed: "@ + source@,
            ProcessDeployerError::SourceOrchestration { source } => "source orchestration failed: "@ + source@,
            ProcessDeployerError::ExpectationsFailed { source } => "expectations failed: "@ + source@,
        }
    }

    /// The human-readable message of the error.
    pub fn message(&self) -> (r: String)
        ensures
            r@ == self.message_view(),
    {
        match self {
            ProcessDeployerError::Spawn { source } => {
                let mut r = owned("failed to spawn local topology: ");
                r.append(source.as_str());
                r
            },
            ProcessDeployerError::ReadinessFailed { source } => {
                let mut r = owned("readiness probe failed: ");
                r.append(source.as_str());
                r
            },
            ProcessDeployerError::UnsupportedTopology => owned("scenario topology is not supported by the local deployer"),
            ProcessDeployerError::WorkloadFailed { source } => {
                let mut r = owned("workload failed: ");
                r.append(source.as_str());
                r
            },
            ProcessDeployerError::RuntimePreflight => owned("runtime preflight failed: no node clients available"),
            ProcessDeployerError::RuntimeExtensions { source } => {
                let mut r = owned("runtime extension setup failed: ");
                r.append(source.as_str());
                r
            },
            ProcessDeployerError::SourceOrchestration { source } => {
                let mut r = owned("source orchestration failed: ");
                r.append(source.as_str());
                r
            },
            ProcessDeployerError::ExpectationsFailed { source } => {
                let mut r = owned("expectations failed: ");
                r.append(source.as_str());
                r
            },
        }
    }
}

/// Rejects the existing-cluster mode, which the local deployer cannot run.
pub fn ensure_local_cluster_mode(mode: ClusterMode) -> (r: Result<(), ProcessDeployerError>)
    ensures
        mode == ClusterMode::ExistingCluster ==> (r matches Err(ProcessDeployerError::SourceOrchestration { source })
            && source@ == "local deployer does not support existing-cluster mode"@),
        mode != ClusterMode::ExistingCluster ==> r is Ok,
{
    match mode {
        ClusterMode::ExistingCluster => Err(
            ProcessDeployerError::SourceOrchestration {
                source: owned("local deployer does not support existing-cluster mode"),
            },
        ),
        _ => Ok(()),
    }
}

/// Failures of the local cluster provisioner.
#[derive(Debug, PartialEq, Eq)]
pub enum LocalClusterProvisionerError {
    /// Spawning the nodes failed.
    Spawn { source: String },
    /// The readiness probe failed.
    Readiness { source: String },
    /// Orchestrating the node sources failed.
    Source { source: String },
    /// Attached clusters are not supported locally.
    AttachedUnsupported,
}

impl LocalClusterProvisionerError {
    /// The human-readable message of the error.
    pub open spec fn message_view(&self) -> Seq<char> {
        match self {
            LocalClusterProvisionerError::Spawn { source } => "failed to spawn local topology: "@ + source@,
            LocalClusterProvisionerError::Readiness { source } => "readiness probe failed: "@ + source@,
            LocalClusterProvisionerError::Source { source } => "source orchestration failed: "@ + source@,
            LocalClusterProvisionerError::AttachedUnsupported =>
                "local cluster provisioner does not support attached clusters"@,
        }
    }

    /// The human-readable message of the error.
    pub fn message(&self) -> (r: String)
        ensures
            r@ == self.message_view(),
    {
        match self {
            LocalClusterProvisionerError::Spawn { source } => {
                let mut r = owned("failed to spawn local topology: ");
                r.append(source.as_str());
                r
            },
            LocalClusterProvisionerError::Readiness { source } => {
                let mut r = owned("readiness probe failed: ");
                r.append(source.as_str());
                r
            },
            LocalClusterProvisionerError::Source { source } => {
                let mut r = owned("source orchestration failed: ");
                r.append(source.as_str());
                r
            },
            LocalClusterProvisionerError::AttachedUnsupported => owned(
                "local cluster provisioner does not support attached clusters",
            ),
        }
    }
}

impl ProcessDeployerError {
    /// The deployer error of a provisioning failure; an unsupported attached
    /// cluster is a source orchestration failure carrying that message.
    pub fn from_provisioner_error(error: LocalClusterProvisionerError) -> (r: Self)
        ensures
            error matches LocalClusterProvisionerError::Spawn { source } ==> r == (ProcessDeployerError::Spawn { source }),
            error matches LocalClusterProvisionerError::Readiness { source } ==> r == (ProcessDeployerError::ReadinessFailed {
                source,
            }),
            error matches LocalClusterProvisionerError::Source { source } ==> r == (ProcessDeployerError::SourceOrchestration {
                source,
            }),
            error is AttachedUnsupported ==> (r matches ProcessDeployerError::SourceOrchestration { source } && source@
                == "local cluster provisioner does not support attached clusters"@),
    {
        match error {
            LocalClusterProvisionerError::Spawn { source } => ProcessDeployerError::Spawn { source },
            LocalClusterProvisionerError::Readiness { source } => ProcessDeployerError::ReadinessFailed { source },
            LocalClusterProvisionerError::Source { source } => ProcessDeployerError::SourceOrchestration { source },
            LocalClusterProvisionerError::AttachedUnsupported => {
                let source = LocalClusterProvisionerError::AttachedUnsupported.message();
                ProcessDeployerError::SourceOrchestration { source }
            },
        }
    }
}

/// The local implementation of cluster provisioning.
#[derive(Clone, Copy, Debug, PartialEq, Eq)]
pub struct LocalClusterProvisioner;

impl LocalClusterProvisioner {
    /// The plan of a unit from `source`: managed units are manually
    /// controlled when started on demand and framework managed otherwise,
    /// with node control when full control was requested; external units are
    /// uncontrolled; attached clusters are not supported.
    pub fn plan(&self, source: ClusterSourceKind, start_mode: ClusterStartMode, full_control: bool) -> (r: Result<ProvisionPlan, LocalClusterProvisionerError>)
        ensures
            source == ClusterSourceKind::Attached ==> r == Err::<ProvisionPlan, LocalClusterProvisionerError>(
                LocalClusterProvisionerError::AttachedUnsupported,
            ),
            source == ClusterSourceKind::External ==> r == Ok::<ProvisionPlan, LocalClusterProvisionerError>(
                ProvisionPlan { profile: ClusterControlProfile::ExternalUncontrolled, node_control: false },
            ),
            source == ClusterSourceKind::Managed ==> r == Ok::<ProvisionPlan, LocalClusterProvisionerError>(
                ProvisionPlan {
                    profile: if start_mode == ClusterStartMode::OnDemand {
                        ClusterControlProfile::ManualControlled
                    } else {
                        ClusterControlProfile::FrameworkManaged
                    },
                    node_control: full_control,
                },
            ),
    {
        match source {
            ClusterSourceKind::Attached => Err(LocalClusterProvisionerError::AttachedUnsupported),
            ClusterSourceKind::External => Ok(
                ProvisionPlan { profile: ClusterControlProfile::ExternalUncontrolled, node_control: false },
            ),
            ClusterSourceKind::Managed => {
                let profile = match start_mode {
                    ClusterStartMode::OnDemand => ClusterControlProfile::ManualControlled,
                    ClusterStartMode::Eager => ClusterControlProfile::FrameworkManaged,
                };
                Ok(ProvisionPlan { profile, node_control: full_control })
            },
        }
    }
}

/// Attempts of spawning with readiness checks when no policy says otherwise.
pub const READINESS_ATTEMPTS: usize = 3;

/// Base backoff between attempts, in milliseconds.
pub const READINESS_BACKOFF_BASE_MS: u64 = 250;

/// Longest backoff between attempts, in milliseconds.
pub const READINESS_BACKOFF_MAX_MS: u64 = 2000;

/// How often and how patiently spawning is retried.
#[derive(Clone, Copy, Debug, PartialEq, Eq)]
pub struct RetryPolicy {
    /// Attempts in all.
    pub max_attempts: usize,
    /// Base backoff, in milliseconds.
    pub base_delay_ms: u64,
    /// Longest backoff, in milliseconds.
    pub max_delay_ms: u64,
}

/// How one provisioning run spawns and checks its nodes.
#[derive(Clone, Copy, Debug, PartialEq, Eq)]
pub struct RetryExecutionConfig {
    /// Attempts in all, at least one.
    pub max_attempts: usize,
    /// Whether node working directories are kept.
    pub keep_tempdir: bool,
    /// Whether readiness is checked after spawning.
    pub readiness_enabled: bool,
}

/// The retry policy and execution settings of a provisioning run: the
/// policy's retry settings or the defaults (3 attempts, 250 ms base, 2 s
/// longest backoff); at least one attempt; directories kept when the policy
/// preserves artifacts or the environment asks; readiness checked when both
/// the policy and the membership check want it.
pub fn build_retry_execution_config(
    retry_policy: Option<RetryPolicy>,
    readiness_enabled: bool,
    preserve_artifacts: bool,
    keep_from_env: bool,
    membership_check: bool,
) -> (r: (RetryPolicy, RetryExecutionConfig))
    ensures
        retry_policy matches Some(p) ==> r.0 == p,
        retry_policy is None ==> r.0 == (RetryPolicy {
            max_attempts: READINESS_ATTEMPTS,
            base_delay_ms: READINESS_BACKOFF_BASE_MS,
            max_delay_ms: READINESS_BACKOFF_MAX_MS,
        }),
        r.1.max_attempts == if r.0.max_attempts >= 1 {
            r.0.max_attempts
        } else {
            1
        },
        r.1.keep_tempdir == (preserve_artifacts || keep_from_env),
        r.1.readiness_enabled == (readiness_enabled && membership_check),
{
    let policy = match retry_policy {
        Some(p) => p,
        None => RetryPolicy {
            max_attempts: READINESS_ATTEMPTS,
            base_delay_ms: READINESS_BACKOFF_BASE_MS,
            max_delay_ms: READINESS_BACKOFF_MAX_MS,
        },
    };
    let max_attempts = if policy.max_attempts >= 1 {
        policy.max_attempts
    } else {
        1
    };
    let execution = RetryExecutionConfig {
        max_attempts,
        keep_tempdir: preserve_artifacts || keep_from_env,
        readiness_enabled: readiness_enabled && membership_check,
    };
    (policy, execution)
}

/// Number of backoff delays: one fewer than the attempts.
pub fn backoff_delay_count(execution: &RetryExecutionConfig) -> (r: usize)
    ensures
        r == if execution.max_attempts >= 1 {
            execution.max_attempts - 1
        } else {
            0
        },
{
    if execution.max_attempts >= 1 {
        execution.max_attempts - 1
    } else {
        0
    }
}

/// Whether a failed attempt (numbered from one) is followed by another.
pub fn should_retry(attempt: usize, execution: &RetryExecutionConfig) -> (r: bool)
    ensures
        r == (attempt < execution.max_attempts),
{
    attempt < execution.max_attempts
}

/// Whether an environment switch is on: `1`, `true` or `yes`, the words in
/// any ASCII case.
pub open spec fn env_switch_on(value: Option<Seq<char>>) -> bool {
    match value {
        Some(v) => v == "1"@ || ascii_lowercase(v) == "true"@ || ascii_lowercase(v) == "yes"@,
        None => false,
    }
}

/// Reads an environment switch from the variable's value, if set.
pub fn env_enabled(value: Option<&str>) -> (r: bool)
    ensures
        r == env_switch_on(
            match value {
                Some(v) => Some(v@),
                None => None,
            },
        ),
{
    match value {
        Some(v) => {
            let lower = to_ascii_lowercase(v);
            str_eq(v, "1") || str_eq(lower.as_str(), "true") || str_eq(lower.as_str(), "yes")
        },
        None => false,
    }
}

/// Spawns nodes as local processes.
#[derive(Clone, Copy, Debug, PartialEq, Eq)]
pub struct LocalDeployer {
    membership_check: bool,
}

impl LocalDeployer {
    /// A deployer that checks membership readiness.
    pub fn new() -> (r: Self)
        ensures
            r.membership_check_enabled(),
    {
        LocalDeployer { membership_check: true }
    }

    /// Whether membership readiness is checked.
    pub closed spec fn membership_check_enabled(&self) -> bool {
        self.membership_check
    }

    /// Sets whether membership readiness is checked.
    pub fn with_membership_check(self, enabled: bool) -> (r: Self)
        ensures
            r.membership_check_enabled() == enabled,
    {
        LocalDeployer { membership_check: enabled }
    }

    /// Whether membership readiness is checked.
    pub fn membership_check(&self) -> (r: bool)
        ensures
            r == self.membership_check_enabled(),
    {
        self.membership_check
    }
}

impl Default for LocalDeployer {
    /// The deployer of `new`: membership readiness is checked.
    fn default() -> (r: Self)
        ensures
            r.membership_check_enabled(),
    {
        LocalDeployer::new()
    }
}

/// Failures of the local deployer while driving a scenario.
#[derive(Debug, PartialEq, Eq)]
pub enum LocalDeployerError {
    /// Spawning the nodes failed.
    Spawn { source: String },
    /// The readiness probe failed.
    ReadinessFailed { source: String },
    /// A workload failed.
    WorkloadFailed { source: String },
    /// Expectations failed.
    ExpectationsFailed { source: String },
}

impl LocalDeployerError {
    /// The human-readable message of the error.
    pub open spec fn message_view(&self) -> Seq<char> {
        match self {
            LocalDeployerError::Spawn { source } => "failed to spawn local topology: "@ + source@,
            LocalDeployerError::ReadinessFailed { source } => "readiness probe failed: "@ + source@,
            LocalDeployerError::WorkloadFailed { source } => "workload failed: "@ + source@,
            LocalDeployerError::ExpectationsFailed { source } => "expectations failed: "@ + source@,
        }
    }

    /// The human-readable message of the error.
    pub fn message(&self) -> (r: String)
        ensures
            r@ == self.message_view(),
    {
        let (prefix, source) = match self {
            LocalDeployerError::Spawn { source } => ("failed to spawn local topology: ", source),
            LocalDeployerError::ReadinessFailed { source } => ("readiness probe failed: ", source),
            LocalDeployerError::WorkloadFailed { source } => ("workload failed: ", source),
            LocalDeployerError::ExpectationsFailed { source } => ("expectations failed: ", source),
        };
        let mut r = owned(prefix);
        r.append(source.as_str());
        r
    }
}

} // verus!
