//! Registries of the `kubectl port-forward` processes that reach cluster
//! services from the runner. The registries keep what is needed to recreate
//! each forward on its original local port; the process handles themselves
//! are carried as opaque values.

use vstd::prelude::*;

use crate::k8s::wait::{
    format_port_forward_details, port_forward_details, port_forward_error, port_forward_ready_timeout_error,
    ClusterWaitError, NodeConfigPorts, NodePortAllocation,
};
use crate::text::{decimal, owned, str_eq, trim, trim_str, u64_to_decimal, views};

verus! {

/// Everything needed to (re)spawn one service port-forward.
#[derive(Debug, PartialEq, Eq)]
pub struct ForwardSpec {
    /// Namespace holding the forwarded service.
    pub namespace: String,
    /// Service name to forward to.
    pub service: String,
    /// Local port the forward listens on.
    pub local_port: u16,
    /// Service port being forwarded.
    pub remote_port: u16,
}

impl Clone for ForwardSpec {
    fn clone(&self) -> (r: Self)
        ensures
            r == *self,
    {
        ForwardSpec {
            namespace: self.namespace.clone(),
            service: self.service.clone(),
            local_port: self.local_port,
            remote_port: self.remote_port,
        }
    }
}

/// One live forward with the spec that recreates it.
pub struct ForwardEntry<H> {
    /// How to recreate the forward.
    pub spec: ForwardSpec,
    /// Handle of the running forward.
    pub handle: H,
}

/// One node's API and auxiliary forwards.
pub struct NodeForwards<H> {
    /// Forward of the API port.
    pub api: ForwardEntry<H>,
    /// Forward of the auxiliary port.
    pub auxiliary: ForwardEntry<H>,
}

/// Puts `x` at position `i` of `v`, returning what was there.
pub fn replace_at<T>(v: &mut Vec<T>, i: usize, x: T) -> (r: T)
    requires
        i < old(v)@.len(),
    ensures
        final(v)@ == old(v)@.update(i as int, x),
        r == old(v)@[i as int],
{
    let ghost before = v@;
    v.push(x);
    let r = v.swap_remove(i);
    assert(v@ =~= before.update(i as int, x));
    r
}

/// Number of present entries.
pub open spec fn count_some<T>(s: Seq<Option<T>>) -> nat
    decreases s.len(),
{
    if s.len() == 0 {
        0
    } else {
        count_some(s.drop_last()) + if s.last() is Some {
            1nat
        } else {
            0nat
        }
    }
}

proof fn lemma_count_some_bound<T>(s: Seq<Option<T>>)
    ensures
        count_some(s) <= s.len(),
    decreases s.len(),
{
    if s.len() > 0 {
        lemma_count_some_bound(s.drop_last());
    }
}

/// Per-node registry of port-forwards, indexed by node; nodes that were never
/// started have no entry.
pub struct PortForwardRegistry<H> {
    nodes: Vec<Option<NodeForwards<H>>>,
}

/// The specs of one node's forwards.
pub open spec fn node_specs<H>(n: Option<NodeForwards<H>>) -> Option<(ForwardSpec, ForwardSpec)> {
    match n {
        Some(f) => Some((f.api.spec, f.auxiliary.spec)),
        None => None,
    }
}

/// The handles of one node's forwards.
pub open spec fn node_handles<H>(n: Option<NodeForwards<H>>) -> Option<(H, H)> {
    match n {
        Some(f) => Some((f.api.handle, f.auxiliary.handle)),
        None => None,
    }
}

impl<H> View for PortForwardRegistry<H> {
    type V = Seq<Option<(ForwardSpec, ForwardSpec)>>;

    /// The forward specs of each node index.
    closed spec fn view(&self) -> Self::V {
        self.nodes@.map_values(|n: Option<NodeForwards<H>>| node_specs(n))
    }
}

impl<H> PortForwardRegistry<H> {
    /// The handles of each node index's forwards.
    pub closed spec fn handles(&self) -> Seq<Option<(H, H)>> {
        self.nodes@.map_values(|n: Option<NodeForwards<H>>| node_handles(n))
    }

    /// An empty registry (nodes reached through node ports directly).
    pub fn new() -> (r: Self)
        ensures
            r@ == Seq::<Option<(ForwardSpec, ForwardSpec)>>::empty(),
            r.handles() == Seq::<Option<(H, H)>>::empty(),
    {
        let r = PortForwardRegistry { nodes: Vec::new() };
        assert(r@ =~= Seq::<Option<(ForwardSpec, ForwardSpec)>>::empty());
        assert(r.handles() =~= Seq::<Option<(H, H)>>::empty());
        r
    }

    /// Number of nodes with registered forwards.
    pub fn registered_node_count(&self) -> (r: usize)
        ensures
            r == count_some(self@),
    {
        let mut n: usize = 0;
        let mut i: usize = 0;
        while i < self.nodes.len()
            invariant
                i <= self.nodes.len(),
                n == count_some(self@.take(i as int)),
                self@.len() == self.nodes@.len(),
            decreases self.nodes.len() - i,
        {
            proof {
                assert(self@.take(i + 1).drop_last() =~= self@.take(i as int));
                lemma_count_some_bound(self@.take(i as int));
            }
            if self.nodes[i].is_some() {
                n = n + 1;
            }
            i = i + 1;
        }
        assert(self@.take(self.nodes.len() as int) =~= self@);
        n
    }

    /// Whether any forwards are registered (node-port mode has none).
    pub fn is_empty(&self) -> (r: bool)
        ensures
            r == (count_some(self@) == 0),
    {
        self.registered_node_count() == 0
    }

    /// Registers the next node's forwards in node-index order.
    pub fn register_node(&mut self, api: ForwardEntry<H>, auxiliary: ForwardEntry<H>)
        ensures
            final(self)@ == old(self)@.push(Some((api.spec, auxiliary.spec))),
            final(self).handles() == old(self).handles().push(Some((api.handle, auxiliary.handle))),
    {
        let ghost before = self@;
        let ghost before_handles = self.handles();
        self.nodes.push(Some(NodeForwards { api, auxiliary }));
        assert(self@ =~= before.push(Some((api.spec, auxiliary.spec))));
        assert(self.handles() =~= before_handles.push(Some((api.handle, auxiliary.handle))));
    }

    /// The local ports of a node's forwards, when the node has them.
    pub fn local_ports(&self, index: usize) -> (r: Option<NodePortAllocation>)
        ensures
            index < self@.len() && self@[index as int] is Some ==> r == Some(
                NodePortAllocation {
                    api: (self@[index as int]->0).0.local_port,
                    auxiliary: (self@[index as int]->0).1.local_port,
                },
            ),
            !(index < self@.len() && self@[index as int] is Some) ==> r is None,
    {
        if index >= self.nodes.len() {
            return None;
        }
        match &self.nodes[index] {
            Some(n) => Some(NodePortAllocation { api: n.api.spec.local_port, auxiliary: n.auxiliary.spec.local_port }),
            None => None,
        }
    }

    /// The specs needed to respawn a node's forwards.
    pub fn respawn_specs(&self, index: usize) -> (r: Result<(ForwardSpec, ForwardSpec), ClusterWaitError>)
        ensures
            index < self@.len() && self@[index as int] is Some ==> r == Ok::<(ForwardSpec, ForwardSpec), ClusterWaitError>(
                self@[index as int]->0,
            ),
            !(index < self@.len() && self@[index as int] is Some) ==> r == Err::<(ForwardSpec, ForwardSpec), ClusterWaitError>(
                ClusterWaitError::MissingPortForwardNode { index, nodes: count_some(self@) as usize },
            ),
    {
        if index < self.nodes.len() {
            if let Some(n) = &self.nodes[index] {
                return Ok((n.api.spec.clone(), n.auxiliary.spec.clone()));
            }
        }
        let nodes = self.registered_node_count();
        Err(ClusterWaitError::MissingPortForwardNode { index, nodes })
    }

    /// Registers a node's forwards at its index, growing the registry as
    /// needed; returns the forwards it replaces, whose processes the caller
    /// shuts down.
    pub fn register_node_at(&mut self, index: usize, api: ForwardEntry<H>, auxiliary: ForwardEntry<H>) -> (r: Option<NodeForwards<H>>)
        requires
            index < usize::MAX,
        ensures
            final(self)@.len() == if index < old(self)@.len() {
                old(self)@.len() as int
            } else {
                index + 1
            },
            final(self)@[index as int] == Some((api.spec, auxiliary.spec)),
            forall|j: int| 0 <= j < final(self)@.len() && j != index ==> final(self)@[j] == if j < old(self)@.len() {
                old(self)@[j]
            } else {
                None
            },
            node_specs(r) == if index < old(self)@.len() {
                old(self)@[index as int]
            } else {
                None
            },
            final(self).handles().len() == final(self)@.len(),
            final(self).handles()[index as int] == Some((api.handle, auxiliary.handle)),
            forall|j: int|
                0 <= j < final(self)@.len() && j != index ==> final(self).handles()[j] == if j < old(self)@.len() {
                    old(self).handles()[j]
                } else {
                    None
                },
            node_handles(r) == if index < old(self)@.len() {
                old(self).handles()[index as int]
            } else {
                None
            },
    {
        let ghost before = self@;
        let ghost before_handles = self.handles();
        while self.nodes.len() <= index
            invariant
                index < usize::MAX,
                self@.len() >= before.len(),
                forall|j: int| 0 <= j < before.len() ==> self@[j] == before[j],
                forall|j: int| before.len() <= j < self@.len() ==> self@[j] is None,
                before_handles.len() == before.len(),
                forall|j: int| 0 <= j < before.len() ==> self.handles()[j] == before_handles[j],
                forall|j: int| before.len() <= j < self@.len() ==> self.handles()[j] is None,
                self@.len() <= if index < before.len() {
                    before.len() as int
                } else {
                    index + 1
                },
            decreases index + 1 - self.nodes.len(),
        {
            let ghost prev = self@;
            let ghost prev_handles = self.handles();
            self.nodes.push(None);
            assert(self@ =~= prev.push(None));
            assert(self.handles() =~= prev_handles.push(None));
        }
        let ghost grown = self@;
        let ghost grown_nodes = self.nodes@;
        let ghost grown_handles = self.handles();
        let previous = replace_at(&mut self.nodes, index, Some(NodeForwards { api, auxiliary }));
        assert(previous == grown_nodes[index as int]);
        assert(node_specs(previous) == grown[index as int]);
        assert(self@ =~= grown.update(index as int, Some((api.spec, auxiliary.spec))));
        assert(node_handles(previous) == grown_handles[index as int]);
        assert(self.handles() =~= grown_handles.update(index as int, Some((api.handle, auxiliary.handle))));
        previous
    }

    /// Replaces a node's forward handles after respawning them on the same
    /// local ports; returns the old handles.
    pub fn replace_handles(&mut self, index: usize, api_handle: H, auxiliary_handle: H) -> (r: Option<(H, H)>)
        ensures
            final(self)@ == old(self)@,
            r is Some <==> (index < old(self)@.len() && old(self)@[index as int] is Some),
            r is Some ==> r == old(self).handles()[index as int] && final(self).handles() == old(
                self,
            ).handles().update(index as int, Some((api_handle, auxiliary_handle))),
            r is None ==> final(self).handles() == old(self).handles(),
    {
        if index >= self.nodes.len() {
            return None;
        }
        let ghost before = self@;
        let taken = replace_at(&mut self.nodes, index, None);
        match taken {
            Some(n) => {
                let api = ForwardEntry { spec: n.api.spec, handle: api_handle };
                let auxiliary = ForwardEntry { spec: n.auxiliary.spec, handle: auxiliary_handle };
                let _ = replace_at(&mut self.nodes, index, Some(NodeForwards { api, auxiliary }));
                assert(self@ =~= before);
                assert(self.handles() =~= old(self).handles().update(
                    index as int,
                    Some((api_handle, auxiliary_handle)),
                ));
                Some((n.api.handle, n.auxiliary.handle))
            },
            None => {
                assert(self@ =~= before);
                assert(self.handles() =~= old(self).handles());
                None
            },
        }
    }

    /// Removes every registered node's forwards, returning them for shutdown.
    pub fn take_all(&mut self) -> (r: Vec<Option<NodeForwards<H>>>)
        ensures
            final(self)@ == Seq::<Option<(ForwardSpec, ForwardSpec)>>::empty(),
            r@.map_values(|n: Option<NodeForwards<H>>| node_specs(n)) == old(self)@,
            r@.map_values(|n: Option<NodeForwards<H>>| node_handles(n)) == old(self).handles(),
            final(self).handles() == Seq::<Option<(H, H)>>::empty(),
    {
        let mut taken = Vec::new();
        std::mem::swap(&mut taken, &mut self.nodes);
        assert(self@ =~= Seq::<Option<(ForwardSpec, ForwardSpec)>>::empty());
        assert(self.handles() =~= Seq::<Option<(H, H)>>::empty());
        taken
    }
}

/// One attached service's live forward together with the spec to recreate it.
pub struct AttachedForwardEntry<H> {
    /// Service name.
    pub service: String,
    /// How to recreate the forward.
    pub spec: ForwardSpec,
    /// Handle of the running forward.
    pub handle: H,
}

/// Registry of the port-forwards spawned for an attached cluster, keyed by
/// service name.
pub struct AttachedForwardRegistry<H> {
    entries: Vec<AttachedForwardEntry<H>>,
}

impl<H> View for AttachedForwardRegistry<H> {
    type V = Seq<(Seq<char>, ForwardSpec)>;

    /// The service names and forward specs, in registration order.
    closed spec fn view(&self) -> Self::V {
        self.entries@.map_values(|e: AttachedForwardEntry<H>| (e.service@, e.spec))
    }
}

impl<H> AttachedForwardRegistry<H> {
    /// The handles of the forwards, in registration order.
    pub closed spec fn handles(&self) -> Seq<H> {
        self.entries@.map_values(|e: AttachedForwardEntry<H>| e.handle)
    }

    /// An empty registry.
    pub fn new() -> (r: Self)
        ensures
            r@ == Seq::<(Seq<char>, ForwardSpec)>::empty(),
            r.handles() == Seq::<H>::empty(),
    {
        let r = AttachedForwardRegistry { entries: Vec::new() };
        assert(r@ =~= Seq::<(Seq<char>, ForwardSpec)>::empty());
        assert(r.handles() =~= Seq::<H>::empty());
        r
    }

    /// Registers a service's forward.
    pub fn register(&mut self, service: String, spec: ForwardSpec, handle: H)
        ensures
            final(self)@ == old(self)@.push((service@, spec)),
            final(self).handles() == old(self).handles().push(handle),
    {
        let ghost before = self@;
        let ghost before_handles = self.handles();
        self.entries.push(AttachedForwardEntry { service, spec, handle });
        assert(self@ =~= before.push((service@, spec)));
        assert(self.handles() =~= before_handles.push(handle));
    }

    /// The local API ports of every registered forward, in order.
    pub fn local_api_ports(&self) -> (r: Vec<u16>)
        ensures
            r@ == self@.map_values(|e: (Seq<char>, ForwardSpec)| e.1.local_port),
    {
        let mut out: Vec<u16> = Vec::new();
        let mut i: usize = 0;
        while i < self.entries.len()
            invariant
                i <= self.entries.len(),
                self@.len() == self.entries@.len(),
                out@ == self@.take(i as int).map_values(|e: (Seq<char>, ForwardSpec)| e.1.local_port),
            decreases self.entries.len() - i,
        {
            out.push(self.entries[i].spec.local_port);
            assert(out@ =~= self@.take(i + 1).map_values(|e: (Seq<char>, ForwardSpec)| e.1.local_port));
            i = i + 1;
        }
        assert(self@.take(self.entries.len() as int) =~= self@);
        out
    }

    /// Position of the first forward registered for `service`.
    pub fn find(&self, service: &str) -> (r: Option<usize>)
        ensures
            r is Some <==> exists|i: int| 0 <= i < self@.len() && self@[i].0 == service@,
            r matches Some(i) ==> i < self@.len() && self@[i as int].0 == service@ && forall|j: int|
                0 <= j < i ==> self@[j].0 != service@,
    {
        let mut i: usize = 0;
        while i < self.entries.len()
            invariant
                i <= self.entries.len(),
                self@.len() == self.entries@.len(),
                forall|j: int| 0 <= j < i ==> self@[j].0 != service@,
            decreases self.entries.len() - i,
        {
            if str_eq(self.entries[i].service.as_str(), service) {
                assert(self@[i as int].0 == service@);
                return Some(i);
            }
            i = i + 1;
        }
        None
    }

    /// The local API port forwarded for the given service.
    pub fn local_port(&self, service: &str) -> (r: Option<u16>)
        ensures
            r is Some <==> exists|i: int| 0 <= i < self@.len() && self@[i].0 == service@,
            r matches Some(p) ==> exists|i: int| 0 <= i < self@.len() && self@[i].0 == service@ && (forall|j: int|
                0 <= j < i ==> self@[j].0 != service@) && p == self@[i].1.local_port,
    {
        match self.find(service) {
            Some(i) => Some(self.entries[i].spec.local_port),
            None => None,
        }
    }

    /// The spec of the forward registered for `service`, for respawning it.
    pub fn respawn_spec(&self, service: &str) -> (r: Option<ForwardSpec>)
        ensures
            r is Some <==> exists|i: int| 0 <= i < self@.len() && self@[i].0 == service@,
            r matches Some(s) ==> exists|i: int| 0 <= i < self@.len() && self@[i].0 == service@ && (forall|j: int|
                0 <= j < i ==> self@[j].0 != service@) && s == self@[i].1,
    {
        match self.find(service) {
            Some(i) => Some(self.entries[i].spec.clone()),
            None => None,
        }
    }

    /// Replaces the handle of the first forward of `service`, returning the
    /// old handle.
    pub fn replace_handle(&mut self, service: &str, handle: H) -> (r: Option<H>)
        ensures
            final(self)@ == old(self)@,
            r is Some <==> exists|i: int| 0 <= i < old(self)@.len() && old(self)@[i].0 == service@,
            r is Some ==> exists|i: int|
                0 <= i < old(self)@.len() && old(self)@[i].0 == service@ && (forall|j: int|
                    0 <= j < i ==> old(self)@[j].0 != service@) && r == Some(old(self).handles()[i])
                    && final(self).handles() == old(self).handles().update(i, handle),
            r is None ==> final(self).handles() == old(self).handles(),
    {
        match self.find(service) {
            Some(i) => {
                let ghost before = self@;
                let placeholder = AttachedForwardEntry {
                    service: self.entries[i].service.clone(),
                    spec: self.entries[i].spec.clone(),
                    handle,
                };
                let old_entry = replace_at(&mut self.entries, i, placeholder);
                assert(self@ =~= before);
                assert(self.handles() =~= old(self).handles().update(i as int, handle));
                assert(old_entry.handle == old(self).handles()[i as int]);
                Some(old_entry.handle)
            },
            None => None,
        }
    }

    /// Removes every forward, returning them for shutdown.
    pub fn take_all(&mut self) -> (r: Vec<AttachedForwardEntry<H>>)
        ensures
            final(self)@ == Seq::<(Seq<char>, ForwardSpec)>::empty(),
            r@.map_values(|e: AttachedForwardEntry<H>| (e.service@, e.spec)) == old(self)@,
            r@.map_values(|e: AttachedForwardEntry<H>| e.handle) == old(self).handles(),
            final(self).handles() == Seq::<H>::empty(),
    {
        let mut taken = Vec::new();
        std::mem::swap(&mut taken, &mut self.entries);
        assert(self@ =~= Seq::<(Seq<char>, ForwardSpec)>::empty());
        assert(self.handles() =~= Seq::<H>::empty());
        taken
    }
}

/// Polls of a new port-forward's local port before it counts as failed.
pub const PORT_FORWARD_READY_ATTEMPTS: u32 = 240;

/// Milliseconds between polls of a new port-forward's local port.
pub const PORT_FORWARD_READY_POLL_INTERVAL_MS: u64 = 250;

/// The arguments of `kubectl` that forward `local_port` to `remote_port` of
/// a service.
pub fn kubectl_port_forward_args(namespace: &str, service: &str, local_port: u16, remote_port: u16) -> (r: Vec<String>)
    ensures
        views(r@) == seq![
            "port-forward"@,
            "-n"@,
            namespace@,
            "svc/"@ + service@,
            decimal(local_port as nat) + ":"@ + decimal(remote_port as nat),
        ],
{
    let mut target = owned("svc/");
    target.append(service);
    let mut ports = u64_to_decimal(local_port as u64);
    ports.append(":");
    ports.append(u64_to_decimal(remote_port as u64).as_str());
    let mut r: Vec<String> = Vec::new();
    r.push(owned("port-forward"));
    r.push(owned("-n"));
    r.push(owned(namespace));
    r.push(target);
    r.push(ports);
    assert(views(r@) =~= seq![
        "port-forward"@,
        "-n"@,
        namespace@,
        "svc/"@ + service@,
        decimal(local_port as nat) + ":"@ + decimal(remote_port as nat),
    ]);
    r
}

/// What a port-forward printed on its error stream, trimmed; nothing when
/// it printed only white space.
pub fn port_forward_stderr_details(output: &str) -> (r: Option<String>)
    ensures
        trim(output@).len() == 0 ==> r is None,
        trim(output@).len() > 0 ==> (r matches Some(d) && d@ == trim(output@)),
{
    let t = trim_str(output);
    if t.as_str().unicode_len() == 0 {
        None
    } else {
        Some(t)
    }
}

/// The failure of a `kubectl port-forward` that exited with `status`.
pub fn port_forward_process_error(status: &str, details: Option<&str>) -> (r: String)
    ensures
        r@ == "kubectl exited with "@ + status@ + port_forward_details(
            match details {
                Some(d) => Some(d@),
                None => None,
            },
        ),
{
    let mut r = owned("kubectl exited with ");
    r.append(status);
    r.append(format_port_forward_details(details).as_str());
    r
}

/// What one poll of a new port-forward saw.
#[derive(Debug, PartialEq, Eq)]
pub enum ForwardPoll {
    /// The `kubectl` process exited with this status and error output.
    Exited { status: String, details: Option<String> },
    /// The process runs and the local port accepts connections.
    Reachable,
    /// The process runs but the local port does not accept connections yet.
    NotYetReachable,
}

/// What to do after a poll of a new port-forward.
#[derive(Debug, PartialEq, Eq)]
pub enum ForwardReadyStep {
    /// The forward is ready.
    Ready,
    /// Poll again after the poll interval.
    PollAgain,
    /// The forward failed.
    Failed(ClusterWaitError),
    /// Attempts are exhausted: kill the process, read its error output and
    /// report the timeout with [`forward_ready_timeout`].
    GiveUp,
}

/// The step after poll number `attempt` (from zero) of the forward of
/// `service`'s `remote_port`: an exited process fails the forward, a
/// reachable port makes it ready, otherwise it is polled again until the
/// attempts run out.
pub fn forward_ready_step(attempt: u32, poll: ForwardPoll, service: &str, remote_port: u16) -> (r: ForwardReadyStep)
    requires
        attempt < PORT_FORWARD_READY_ATTEMPTS,
    ensures
        poll matches ForwardPoll::Exited { status, details } ==> (r matches ForwardReadyStep::Failed(
            ClusterWaitError::PortForward { service: s, port, source },
        ) && s@ == service@ && port == remote_port && source@ == "kubectl exited with "@ + status@
            + port_forward_details(
            match details {
                Some(d) => Some(d@),
                None => None,
            },
        )),
        poll == ForwardPoll::Reachable ==> r == ForwardReadyStep::Ready,
        poll == ForwardPoll::NotYetReachable && attempt + 1 < PORT_FORWARD_READY_ATTEMPTS ==> r
            == ForwardReadyStep::PollAgain,
        poll == ForwardPoll::NotYetReachable && attempt + 1 == PORT_FORWARD_READY_ATTEMPTS ==> r
            == ForwardReadyStep::GiveUp,
{
    match poll {
        ForwardPoll::Exited { status, details } => {
            let d: Option<&str> = match &details {
                Some(x) => Some(x.as_str()),
                None => None,
            };
            let source = port_forward_process_error(status.as_str(), d);
            ForwardReadyStep::Failed(port_forward_error(service, remote_port, source))
        },
        ForwardPoll::Reachable => ForwardReadyStep::Ready,
        ForwardPoll::NotYetReachable => {
            if attempt + 1 < PORT_FORWARD_READY_ATTEMPTS {
                ForwardReadyStep::PollAgain
            } else {
                ForwardReadyStep::GiveUp
            }
        },
    }
}

/// The error of a forward whose local port never answered, with the
/// trimmed error output of the killed process.
pub fn forward_ready_timeout(service: &str, remote_port: u16, stderr_output: &str) -> (r: ClusterWaitError)
    ensures
        r matches ClusterWaitError::PortForward { service: s, port, source } && s@ == service@ && port
            == remote_port && source@ == "port-forward did not become ready"@ + port_forward_details(
            if trim(stderr_output@).len() == 0 {
                None
            } else {
                Some(trim(stderr_output@))
            },
        ),
{
    let details = port_forward_stderr_details(stderr_output);
    let d: Option<&str> = match &details {
        Some(x) => Some(x.as_str()),
        None => None,
    };
    port_forward_ready_timeout_error(service, remote_port, d)
}

/// The forward specs and allocation of a node whose API and auxiliary
/// service ports were forwarded to `api_local` and `auxiliary_local`.
pub fn node_forward_specs(
    namespace: &str,
    service: &str,
    ports: NodeConfigPorts,
    api_local: u16,
    auxiliary_local: u16,
) -> (r: (ForwardSpec, ForwardSpec, NodePortAllocation))
    ensures
        r.0.namespace@ == namespace@ && r.0.service@ == service@ && r.0.local_port == api_local && r.0.remote_port
            == ports.api,
        r.1.namespace@ == namespace@ && r.1.service@ == service@ && r.1.local_port == auxiliary_local
            && r.1.remote_port == ports.auxiliary,
        r.2 == (NodePortAllocation { api: api_local, auxiliary: auxiliary_local }),
{
    (
        ForwardSpec {
            namespace: owned(namespace),
            service: owned(service),
            local_port: api_local,
            remote_port: ports.api,
        },
        ForwardSpec {
            namespace: owned(namespace),
            service: owned(service),
            local_port: auxiliary_local,
            remote_port: ports.auxiliary,
        },
        NodePortAllocation { api: api_local, auxiliary: auxiliary_local },
    )
}

} // verus!
