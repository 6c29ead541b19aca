//! Teardown of a deployment after a run: the Helm release is uninstalled and
//! its namespace deleted, through the Kubernetes API or, when that fails,
//! through `kubectl`, then polled until it is gone. These are the decisions;
//! the calls themselves are the caller's part.

use vstd::prelude::*;

use crate::text::{owned, views};

verus! {

/// Seconds a whole cleanup may take before it moves to a background thread.
pub const CLEANUP_TIMEOUT_SECS: u64 = 120;

/// Seconds a namespace delete request through the API may take.
pub const NAMESPACE_DELETE_TIMEOUT_SECS: u64 = 10;

/// Polls of a deleted namespace before giving up on its termination.
pub const NAMESPACE_TERMINATION_POLL_ATTEMPTS: u32 = 60;

/// Seconds between polls of a deleted namespace.
pub const NAMESPACE_TERMINATION_POLL_INTERVAL_SECS: u64 = 1;

/// Tears down the Helm release and namespace of a run unless they are to
/// be preserved.
#[derive(Debug, PartialEq, Eq)]
pub struct RunnerCleanup {
    /// Namespace of the run.
    pub namespace: String,
    /// Helm release of the run.
    pub release: String,
    /// Whether the release and namespace are kept.
    pub preserve: bool,
}

impl RunnerCleanup {
    /// A cleanup of `release` in `namespace`; `preserve` keeps both.
    pub fn new(namespace: String, release: String, preserve: bool) -> (r: Self)
        ensures
            r.namespace == namespace,
            r.release == release,
            r.preserve == preserve,
    {
        RunnerCleanup { namespace, release, preserve }
    }

    /// Whether the cleanup tears anything down.
    pub fn tears_down(&self) -> (r: bool)
        ensures
            r == !self.preserve,
    {
        !self.preserve
    }
}

/// The arguments of `kubectl` that delete a namespace and wait for it.
pub fn kubectl_delete_namespace_args(namespace: &str) -> (r: Vec<String>)
    ensures
        views(r@) == seq!["delete"@, "namespace"@, namespace@, "--wait=true"@],
{
    let mut r: Vec<String> = Vec::new();
    r.push(owned("delete"));
    r.push(owned("namespace"));
    r.push(owned(namespace));
    r.push(owned("--wait=true"));
    assert(views(r@) =~= seq!["delete"@, "namespace"@, namespace@, "--wait=true"@]);
    r
}

/// How a namespace delete request ended.
#[derive(Clone, Copy, Debug, PartialEq, Eq)]
pub enum DeleteRequestOutcome {
    /// The request was accepted.
    Accepted,
    /// The request failed or could not be made.
    Failed,
    /// The request did not answer in time.
    TimedOut,
}

/// What to do after the delete request through the API.
#[derive(Clone, Copy, Debug, PartialEq, Eq)]
pub enum DeleteStep {
    /// The namespace is being deleted: wait for its termination.
    AwaitTermination,
    /// Fall back to `kubectl delete namespace`.
    DeleteViaKubectl,
    /// Nothing deleted the namespace: warn and stop.
    GiveUp,
}

/// After the API request: an accepted request is awaited, any other outcome
/// falls back to `kubectl`.
pub fn after_api_delete(outcome: DeleteRequestOutcome) -> (r: DeleteStep)
    ensures
        outcome == DeleteRequestOutcome::Accepted ==> r == DeleteStep::AwaitTermination,
        outcome != DeleteRequestOutcome::Accepted ==> r == DeleteStep::DeleteViaKubectl,
{
    match outcome {
        DeleteRequestOutcome::Accepted => DeleteStep::AwaitTermination,
        _ => DeleteStep::DeleteViaKubectl,
    }
}

/// After the `kubectl` fallback: a successful run is awaited, anything
/// else gives up.
pub fn after_kubectl_delete(outcome: DeleteRequestOutcome) -> (r: DeleteStep)
    ensures
        outcome == DeleteRequestOutcome::Accepted ==> r == DeleteStep::AwaitTermination,
        outcome != DeleteRequestOutcome::Accepted ==> r == DeleteStep::GiveUp,
{
    match outcome {
        DeleteRequestOutcome::Accepted => DeleteStep::AwaitTermination,
        _ => DeleteStep::GiveUp,
    }
}

/// What one poll of a deleted namespace saw.
#[derive(Debug, PartialEq, Eq)]
pub enum NamespacePoll {
    /// The namespace still exists, in the given phase if it reports one.
    Present { phase: Option<String> },
    /// The namespace is gone.
    Absent,
    /// The poll failed.
    Failed { source: String },
}

/// Whether polling stops: the namespace is gone, or a poll failed (which is
/// reported, not retried).
pub fn namespace_deleted(poll: &NamespacePoll) -> (r: bool)
    ensures
        r == !(poll is Present),
{
    match poll {
        NamespacePoll::Present { .. } => false,
        _ => true,
    }
}

/// The phase of a present namespace as it is logged.
pub fn namespace_phase_display(phase: &Option<String>) -> (r: String)
    ensures
        phase matches Some(p) ==> r == p,
        phase is None ==> r@ == "Unknown"@,
{
    match phase {
        Some(p) => p.clone(),
        None => owned("Unknown"),
    }
}

/// What to do after a poll of a deleted namespace.
#[derive(Clone, Copy, Debug, PartialEq, Eq)]
pub enum TerminationStep {
    /// Polling stops.
    Done,
    /// Poll again, attempt `next`, after the poll interval.
    PollAgain { next: u32 },
    /// Every attempt saw the namespace: warn that it is still present.
    StillPresent,
}

/// The step after poll number `attempt` (from zero) saw `deleted`.
pub fn termination_step(attempt: u32, deleted: bool) -> (r: TerminationStep)
    requires
        attempt < NAMESPACE_TERMINATION_POLL_ATTEMPTS,
    ensures
        deleted ==> r == TerminationStep::Done,
        !deleted && attempt + 1 < NAMESPACE_TERMINATION_POLL_ATTEMPTS ==> r == (TerminationStep::PollAgain {
            next: (attempt + 1) as u32,
        }),
        !deleted && attempt + 1 == NAMESPACE_TERMINATION_POLL_ATTEMPTS ==> r == TerminationStep::StillPresent,
{
    if deleted {
        TerminationStep::Done
    } else if attempt + 1 < NAMESPACE_TERMINATION_POLL_ATTEMPTS {
        TerminationStep::PollAgain { next: attempt + 1 }
    } else {
        TerminationStep::StillPresent
    }
}

/// How the cleanup of a run is carried out.
#[derive(Clone, Copy, Debug, PartialEq, Eq)]
pub enum CleanupRoute {
    /// The blocking cleanup on a fresh runtime completed.
    Done,
    /// Run the cleanup on a background thread.
    BackgroundThread,
}

/// Outside an async runtime the cleanup first runs blocking on a fresh
/// runtime; inside one, or when that did not complete in time, it moves to
/// a background thread.
pub fn cleanup_route(inside_runtime: bool, blocking_completed: bool) -> (r: CleanupRoute)
    ensures
        (!inside_runtime && blocking_completed) ==> r == CleanupRoute::Done,
        !(!inside_runtime && blocking_completed) ==> r == CleanupRoute::BackgroundThread,
{
    if !inside_runtime && blocking_completed {
        CleanupRoute::Done
    } else {
        CleanupRoute::BackgroundThread
    }
}

} // verus!
