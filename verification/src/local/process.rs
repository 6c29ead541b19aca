//! The launch plan of a local node process (binary, files, arguments and
//! environment), the endpoints a running node exposes, and how spawning
//! failures are reported. Spawning and supervising the process is the
//! caller's part.

use vstd::prelude::*;

use crate::text::{owned, str_eq};

verus! {

/// A named port a node exposes besides its API.
#[derive(Debug)]
pub enum NodeEndpointPort {
    /// The testing API.
    TestingApi,
    /// Peer-to-peer traffic.
    Network,
    /// Any other port, by name.
    Custom(String),
}

/// The value a port key stands for.
pub enum PortKey {
    /// The testing API.
    TestingApi,
    /// Peer-to-peer traffic.
    Network,
    /// Any other port, by name.
    Custom(Seq<char>),
}

impl View for NodeEndpointPort {
    type V = PortKey;

    open spec fn view(&self) -> PortKey {
        match self {
            NodeEndpointPort::TestingApi => PortKey::TestingApi,
            NodeEndpointPort::Network => PortKey::Network,
            NodeEndpointPort::Custom(name) => PortKey::Custom(name@),
        }
    }
}

impl Clone for NodeEndpointPort {
    fn clone(&self) -> (r: Self)
        ensures
            r@ == self@,
    {
        match self {
            NodeEndpointPort::TestingApi => NodeEndpointPort::TestingApi,
            NodeEndpointPort::Network => NodeEndpointPort::Network,
            NodeEndpointPort::Custom(name) => NodeEndpointPort::Custom(name.clone()),
        }
    }
}

impl NodeEndpointPort {
    /// Whether two keys name the same port.
    pub fn same_key(&self, other: &NodeEndpointPort) -> (r: bool)
        ensures
            r == (self@ == other@),
    {
        match (self, other) {
            (NodeEndpointPort::TestingApi, NodeEndpointPort::TestingApi) => true,
            (NodeEndpointPort::Network, NodeEndpointPort::Network) => true,
            (NodeEndpointPort::Custom(a), NodeEndpointPort::Custom(b)) => str_eq(a.as_str(), b.as_str()),
            _ => false,
        }
    }
}

/// An IPv4 socket address.
#[derive(Clone, Copy, Debug, PartialEq, Eq)]
pub struct SocketAddress {
    /// The four octets of the address.
    pub ip: [u8; 4],
    /// The port.
    pub port: u16,
}

/// The loopback address with `port`.
pub open spec fn loopback(port: u16) -> SocketAddress {
    SocketAddress { ip: [127u8, 0u8, 0u8, 1u8], port }
}

/// The endpoints a running node exposes.
#[derive(Debug)]
pub struct NodeEndpoints {
    /// The API address.
    pub api: SocketAddress,
    extra_ports: Vec<(NodeEndpointPort, u16)>,
}

impl View for NodeEndpoints {
    type V = (SocketAddress, Map<PortKey, u16>);

    /// The API address and the named ports.
    closed spec fn view(&self) -> (SocketAddress, Map<PortKey, u16>) {
        (
            self.api,
            Map::new(
                |k: PortKey| exists|i: int| 0 <= i < self.extra_ports@.len() && (#[trigger] self.extra_ports@[i]).0@ == k,
                |k: PortKey|
                    self.extra_ports@[choose|i: int|
                        0 <= i < self.extra_ports@.len() && (#[trigger] self.extra_ports@[i]).0@ == k].1,
            ),
        )
    }
}

impl NodeEndpoints {
    /// No key appears twice.
    pub closed spec fn wf(&self) -> bool {
        forall|i: int, j: int|
            0 <= i < j < self.extra_ports@.len() ==> (#[trigger] self.extra_ports@[i]).0@
                != (#[trigger] self.extra_ports@[j]).0@
    }

    /// Endpoints with the API on the loopback address's port 0 and no named
    /// port.
    pub fn default() -> (r: Self)
        ensures
            r.wf(),
            r@.0 == loopback(0),
            r@.1 == Map::<PortKey, u16>::empty(),
    {
        NodeEndpoints::from_api_port(0)
    }

    /// Endpoints with the API on the loopback address's `port` and no named
    /// port.
    pub fn from_api_port(port: u16) -> (r: Self)
        ensures
            r.wf(),
            r@.0 == loopback(port),
            r@.1 == Map::<PortKey, u16>::empty(),
    {
        let r = NodeEndpoints { api: SocketAddress { ip: [127u8, 0u8, 0u8, 1u8], port }, extra_ports: Vec::new() };
        assert(r@.1 =~= Map::<PortKey, u16>::empty());
        r
    }

    fn position(&self, key: &NodeEndpointPort) -> (r: Option<usize>)
        requires
            self.wf(),
        ensures
            r is Some <==> self@.1.contains_key(key@),
            r matches Some(i) ==> i < self.extra_ports@.len() && self.extra_ports@[i as int].0@ == key@
                && self@.1[key@] == self.extra_ports@[i as int].1,
    {
        let mut i: usize = 0;
        while i < self.extra_ports.len()
            invariant
                i <= self.extra_ports.len(),
                self.wf(),
                forall|j: int| 0 <= j < i ==> (#[trigger] self.extra_ports@[j]).0@ != key@,
            decreases self.extra_ports.len() - i,
        {
            if self.extra_ports[i].0.same_key(key) {
                proof {
                    assert(self@.1.contains_key(key@));
                    let c = choose|m: int| 0 <= m < self.extra_ports@.len() && (#[trigger] self.extra_ports@[m]).0@ == key@;
                    if c != i {
                        if c < i {
                            assert(self.extra_ports@[c].0@ != key@);
                        } else {
                            assert(self.extra_ports@[i as int].0@ != self.extra_ports@[c].0@);
                        }
                    }
                }
                return Some(i);
            }
            i = i + 1;
        }
        None
    }

    /// Records the port of `key`, replacing an earlier one.
    pub fn insert_port(&mut self, key: NodeEndpointPort, port: u16)
        requires
            old(self).wf(),
        ensures
            final(self).wf(),
            final(self)@.0 == old(self)@.0,
            final(self)@.1 == old(self)@.1.insert(key@, port),
    {
        let ghost before = self@.1;
        let ghost k = key@;
        match self.position(&key) {
            Some(i) => {
                let ghost old_entries = self.extra_ports@;
                crate::k8s::forwarding::replace_at(&mut self.extra_ports, i, (key, port));
                proof {
                    assert forall|a: int, b: int|
                        0 <= a < b < self.extra_ports@.len() implies (#[trigger] self.extra_ports@[a]).0@
                        != (#[trigger] self.extra_ports@[b]).0@ by {
                        assert(old_entries[a].0@ != old_entries[b].0@);
                    }
                    assert forall|q: PortKey| #[trigger] self@.1.contains_key(q) <==> before.insert(k, port).contains_key(q) by {
                        if self@.1.contains_key(q) {
                            let m = choose|m: int| 0 <= m < self.extra_ports@.len() && (#[trigger] self.extra_ports@[m]).0@ == q;
                            if m != i {
                                assert(old_entries[m].0@ == q);
                            }
                        }
                        if before.contains_key(q) && q != k {
                            let m = choose|m: int| 0 <= m < old_entries.len() && (#[trigger] old_entries[m]).0@ == q;
                            assert(self.extra_ports@[m].0@ == q);
                        }
                        if q == k {
                            assert(self.extra_ports@[i as int].0@ == q);
                        }
                    }
                    assert forall|q: PortKey| #[trigger] self@.1.contains_key(q) implies self@.1[q] == before.insert(k, port)[q] by {
                        let m = choose|m: int| 0 <= m < self.extra_ports@.len() && (#[trigger] self.extra_ports@[m]).0@ == q;
                        if q == k {
                            if m != i {
                                assert(self.extra_ports@[i as int].0@ == q);
                                if m < i {
                                    assert(self.extra_ports@[m].0@ != self.extra_ports@[i as int].0@);
                                } else {
                                    assert(self.extra_ports@[i as int].0@ != self.extra_ports@[m].0@);
                                }
                            }
                        } else {
                            assert(m != i);
                            assert(old_entries[m].0@ == q);
                            let m0 = choose|m0: int| 0 <= m0 < old_entries.len() && (#[trigger] old_entries[m0]).0@ == q;
                            if m0 != m {
                                if m0 < m {
                                    assert(old_entries[m0].0@ != old_entries[m].0@);
                                } else {
                                    assert(old_entries[m].0@ != old_entries[m0].0@);
                                }
                            }
                        }
                    }
                    assert(self@.1 =~= before.insert(k, port));
                }
            },
            None => {
                let ghost old_entries = self.extra_ports@;
                self.extra_ports.push((key, port));
                proof {
                    let n = old_entries.len() as int;
                    assert forall|a: int, b: int|
                        0 <= a < b < self.extra_ports@.len() implies (#[trigger] self.extra_ports@[a]).0@
                        != (#[trigger] self.extra_ports@[b]).0@ by {
                        if b < n {
                            assert(old_entries[a].0@ != old_entries[b].0@);
                        } else {
                            assert(old_entries[a].0@ != k);
                        }
                    }
                    assert forall|q: PortKey| #[trigger] self@.1.contains_key(q) <==> before.insert(k, port).contains_key(q) by {
                        if self@.1.contains_key(q) {
                            let m = choose|m: int| 0 <= m < self.extra_ports@.len() && (#[trigger] self.extra_ports@[m]).0@ == q;
                            if m < n {
                                assert(old_entries[m].0@ == q);
                            }
                        }
                        if before.contains_key(q) {
                            let m = choose|m: int| 0 <= m < old_entries.len() && (#[trigger] old_entries[m]).0@ == q;
                            assert(self.extra_ports@[m].0@ == q);
                        }
                        if q == k {
                            assert(self.extra_ports@[n].0@ == q);
                        }
                    }
                    assert forall|q: PortKey| #[trigger] self@.1.contains_key(q) implies self@.1[q] == before.insert(k, port)[q] by {
                        let m = choose|m: int| 0 <= m < self.extra_ports@.len() && (#[trigger] self.extra_ports@[m]).0@ == q;
                        if q == k {
                            if m < n {
                                assert(old_entries[m].0@ != k);
                            }
                        } else {
                            assert(m < n);
                            let m0 = choose|m0: int| 0 <= m0 < old_entries.len() && (#[trigger] old_entries[m0]).0@ == q;
                            if m0 != m {
                                if m0 < m {
                                    assert(old_entries[m0].0@ != old_entries[m].0@);
                                } else {
                                    assert(old_entries[m].0@ != old_entries[m0].0@);
                                }
                            }
                        }
                    }
                    assert(self@.1 =~= before.insert(k, port));
                }
            },
        }
    }

    /// The port of `key`, if recorded.
    pub fn port(&self, key: &NodeEndpointPort) -> (r: Option<u16>)
        requires
            self.wf(),
        ensures
            r is Some <==> self@.1.contains_key(key@),
            r matches Some(p) ==> p == self@.1[key@],
    {
        match self.position(key) {
            Some(i) => Some(self.extra_ports[i].1),
            None => None,
        }
    }

    /// The recorded named ports, in the order they were first recorded.
    pub fn extra_ports(&self) -> (r: &Vec<(NodeEndpointPort, u16)>)
        requires
            self.wf(),
        ensures
            forall|i: int|
                0 <= i < r@.len() ==> self@.1.contains_key((#[trigger] r@[i]).0@) && self@.1[r@[i].0@] == r@[i].1,
            forall|k: PortKey| self@.1.contains_key(k) ==> exists|i: int| 0 <= i < r@.len() && (#[trigger] r@[i]).0@ == k,
    {
        proof {
            assert forall|i: int| 0 <= i < self.extra_ports@.len() implies self@.1.contains_key(
                (#[trigger] self.extra_ports@[i]).0@,
            ) && self@.1[self.extra_ports@[i].0@] == self.extra_ports@[i].1 by {
                let k = self.extra_ports@[i].0@;
                let m = choose|m: int| 0 <= m < self.extra_ports@.len() && (#[trigger] self.extra_ports@[m]).0@ == k;
                if m != i {
                    if m < i {
                        assert(self.extra_ports@[m].0@ != self.extra_ports@[i].0@);
                    } else {
                        assert(self.extra_ports@[i].0@ != self.extra_ports@[m].0@);
                    }
                }
            }
        }
        &self.extra_ports
    }
}

/// A port recorded on endpoints is what a later lookup of its key returns;
/// recording it leaves every other key's port as it was.
pub proof fn lemma_port_roundtrip(ports: Map<PortKey, u16>, key: PortKey, port: u16, other: PortKey)
    ensures
        ports.insert(key, port)[key] == port,
        other != key ==> (ports.insert(key, port).contains_key(other) <==> ports.contains_key(other)),
        other != key && ports.contains_key(other) ==> ports.insert(key, port)[other] == ports[other],
{
}

/// A file written into the node's working directory before spawn.
#[derive(Debug, PartialEq, Eq)]
pub struct LaunchFile {
    /// Path relative to the working directory.
    pub relative_path: String,
    /// Raw contents.
    pub contents: Vec<u8>,
}

/// An environment variable of the spawned process.
#[derive(Debug, PartialEq, Eq)]
pub struct LaunchEnvVar {
    /// Variable name.
    pub key: String,
    /// Variable value.
    pub value: String,
}

impl Clone for LaunchEnvVar {
    fn clone(&self) -> (r: Self)
        ensures
            r == *self,
    {
        LaunchEnvVar { key: self.key.clone(), value: self.value.clone() }
    }
}

impl LaunchEnvVar {
    /// The variable `key` set to `value`.
    pub fn new(key: &str, value: &str) -> (r: Self)
        ensures
            r.key@ == key@,
            r.value@ == value@,
    {
        LaunchEnvVar { key: owned(key), value: owned(value) }
    }
}

/// How to launch a local node process.
#[derive(Debug, PartialEq, Eq)]
pub struct LaunchSpec {
    /// Executable path.
    pub binary: String,
    /// Files written before spawn.
    pub files: Vec<LaunchFile>,
    /// Command-line arguments.
    pub args: Vec<String>,
    /// Environment variables.
    pub env: Vec<LaunchEnvVar>,
}

impl LaunchSpec {
    /// An empty launch plan.
    pub fn default() -> (r: Self)
        ensures
            r.binary@ == Seq::<char>::empty(),
            r.files@.len() == 0,
            r.args@.len() == 0,
            r.env@.len() == 0,
    {
        LaunchSpec { binary: String::new(), files: Vec::new(), args: Vec::new(), env: Vec::new() }
    }
}

/// Failures while spawning a node process.
#[derive(Debug, PartialEq, Eq)]
pub enum ProcessSpawnError {
    /// The working directory could not be created.
    TempDir { source: String },
    /// The node's configuration could not be produced.
    Config { source: String },
    /// The process could not be spawned.
    Spawn { source: String },
    /// The launch files could not be written.
    Materialize { source: String },
    /// The snapshot directory could not be copied.
    Snapshot { source: String },
    /// Waiting for the process failed.
    Wait { source: String },
    /// The process did not become ready in time.
    Readiness { source: String },
}

impl ProcessSpawnError {
    /// The human-readable message of the error.
    pub open spec fn message_view(&self) -> Seq<char> {
        match self {
            ProcessSpawnError::TempDir { source } => "failed to create tempdir: "@ + source@,
            ProcessSpawnError::Config { source } => "failed to write config: "@ + source@,
            ProcessSpawnError::Spawn { source } => "failed to spawn process: "@ + source@,
            ProcessSpawnError::Materialize { source } => "failed to materialize launch files: "@ + source@,
            ProcessSpawnError::Snapshot { source } => "failed to copy snapshot directory: "@ + source@,
            ProcessSpawnError::Wait { source } => "process wait failed: "@ + source@,
            ProcessSpawnError::Readiness { source } => "process readiness failed: "@ + source@,
        }
    }

    /// The human-readable message of the error.
    pub fn message(&self) -> (r: String)
        ensures
            r@ == self.message_view(),
    {
        let (prefix, source) = match self {
            ProcessSpawnError::TempDir { source } => ("failed to create tempdir: ", source),
            ProcessSpawnError::Config { source } => ("failed to write config: ", source),
            ProcessSpawnError::Spawn { source } => ("failed to spawn process: ", source),
            ProcessSpawnError::Materialize { source } => ("failed to materialize launch files: ", source),
            ProcessSpawnError::Snapshot { source } => ("failed to copy snapshot directory: ", source),
            ProcessSpawnError::Wait { source } => ("process wait failed: ", source),
            ProcessSpawnError::Readiness { source } => ("process readiness failed: ", source),
        };
        let mut r = owned(prefix);
        r.append(source.as_str());
        r
    }
}

} // verus!
