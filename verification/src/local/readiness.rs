//! Network readiness of a manually driven local cluster: every node must
//! report at least the number of peers it expects, and a timed-out wait
//! summarizes what each node reported. Querying the nodes is the caller's
//! part.

use vstd::prelude::*;

use crate::text::{decimal, join, join_strings, owned, u64_to_decimal, views};

verus! {

/// Seconds one network information request may take.
pub const NETWORK_REQUEST_TIMEOUT_SECS: u64 = 10;

/// What one node reported about its network.
#[derive(Debug, PartialEq, Eq)]
pub struct ManualNetworkStatus {
    /// Node label.
    pub label: String,
    /// Peers the node should have, when known.
    pub expected_peers: Option<usize>,
    /// Its number of peers, or why the request failed.
    pub result: Result<usize, String>,
}

/// Whether a node reported enough peers.
pub open spec fn status_ready(s: ManualNetworkStatus) -> bool {
    match (s.expected_peers, s.result) {
        (Some(expected), Ok(n)) => n >= expected,
        _ => false,
    }
}

/// How a node's report appears in a timeout message.
pub open spec fn status_summary(s: ManualNetworkStatus) -> Seq<char> {
    match s.result {
        Ok(n) => s.label@ + " (peers "@ + decimal(n as nat) + "/"@ + decimal(
            match s.expected_peers {
                Some(e) => e as nat,
                None => 0,
            },
        ) + ")"@,
        Err(e) => s.label@ + " (error: "@ + e@ + ")"@,
    }
}

/// Whether every node reported enough peers.
pub fn is_ready(statuses: &Vec<ManualNetworkStatus>) -> (r: bool)
    ensures
        r == forall|i: int| 0 <= i < statuses@.len() ==> status_ready(#[trigger] statuses@[i]),
{
    let mut i: usize = 0;
    while i < statuses.len()
        invariant
            i <= statuses.len(),
            forall|j: int| 0 <= j < i ==> status_ready(#[trigger] statuses@[j]),
        decreases statuses.len() - i,
    {
        let s = &statuses[i];
        let ready = match (s.expected_peers, &s.result) {
            (Some(expected), Ok(n)) => *n >= expected,
            _ => false,
        };
        if !ready {
            assert(!status_ready(statuses@[i as int]));
            return false;
        }
        i = i + 1;
    }
    true
}

fn summary(s: &ManualNetworkStatus) -> (r: String)
    ensures
        r@ == status_summary(*s),
{
    let mut r = s.label.clone();
    match &s.result {
        Ok(n) => {
            r.append(" (peers ");
            r.append(u64_to_decimal(*n as u64).as_str());
            r.append("/");
            let expected: usize = match s.expected_peers {
                Some(e) => e,
                None => 0,
            };
            r.append(u64_to_decimal(expected as u64).as_str());
            r.append(")");
        },
        Err(e) => {
            r.append(" (error: ");
            r.append(e.as_str());
            r.append(")");
        },
    }
    r
}

/// The message of a timed-out wait: every node's report, comma separated.
pub fn timeout_message(statuses: &Vec<ManualNetworkStatus>) -> (r: String)
    ensures
        r@ == "timed out waiting for network readiness: "@ + join(
            statuses@.map_values(|s: ManualNetworkStatus| status_summary(s)),
            ", "@,
        ),
{
    let mut parts: Vec<String> = Vec::new();
    let mut i: usize = 0;
    while i < statuses.len()
        invariant
            i <= statuses.len(),
            views(parts@) == statuses@.take(i as int).map_values(|s: ManualNetworkStatus| status_summary(s)),
        decreases statuses.len() - i,
    {
        let ghost before = parts@;
        parts.push(summary(&statuses[i]));
        assert(views(parts@) =~= views(before).push(status_summary(statuses@[i as int])));
        assert(views(parts@) =~= statuses@.take(i + 1).map_values(|s: ManualNetworkStatus| status_summary(s)));
        i = i + 1;
    }
    assert(statuses@.take(statuses.len() as int) =~= statuses@);
    let mut r = owned("timed out waiting for network readiness: ");
    r.append(join_strings(&parts, ", ").as_str());
    r
}

/// The network is ready exactly when every node reported a peer count of
/// at least the count it expects: one node that sees fewer peers than it
/// expects, that could not be queried, or whose expectation is unknown keeps
/// the network from being ready.
pub proof fn lemma_ready_means_enough_peers_everywhere(statuses: Seq<ManualNetworkStatus>, k: int)
    requires
        0 <= k < statuses.len(),
    ensures
        (forall|i: int|
            0 <= i < statuses.len() ==> (#[trigger] statuses[i]).expected_peers is Some
                && statuses[i].result is Ok && statuses[i].result->Ok_0 >= statuses[i].expected_peers->0) ==> forall|
            i: int,
        | 0 <= i < statuses.len() ==> status_ready(#[trigger] statuses[i]),
        (statuses[k].expected_peers matches Some(e) && statuses[k].result matches Ok(n) && n < e) ==> !(forall|
            i: int,
        | 0 <= i < statuses.len() ==> status_ready(#[trigger] statuses[i])),
        statuses[k].result is Err ==> !(forall|i: int| 0 <= i < statuses.len() ==> status_ready(#[trigger] statuses[i])),
        statuses[k].expected_peers is None ==> !(forall|i: int|
            0 <= i < statuses.len() ==> status_ready(#[trigger] statuses[i])),
{
}

} // verus!
