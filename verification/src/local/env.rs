//! Building local nodes: their reserved ports, the peers each node sees,
//! the standard binary-plus-config process description and the launch
//! spec derived from it. Reserving ports and resolving binaries touch the
//! machine and are the caller's part.

use vstd::prelude::*;

use crate::local::process::{LaunchEnvVar, LaunchFile, LaunchSpec, ProcessSpawnError};
use crate::text::{decimal, owned, str_eq, u64_to_decimal, views};
use crate::local::binary::{BinaryProviderError, EnvBinaryProvider, PathBinaryProvider};

verus! {

/// A node's configuration together with the port it uses for peer traffic.
#[derive(Debug, PartialEq, Eq)]
pub struct BuiltNodeConfig<Config> {
    /// The configuration.
    pub config: Config,
    /// The reserved network port.
    pub network_port: u16,
}

/// A named node configuration.
#[derive(Debug, PartialEq, Eq)]
pub struct NodeConfigEntry<NodeConfigValue> {
    /// Node name.
    pub name: String,
    /// Node configuration.
    pub config: NodeConfigValue,
}

/// A node's configuration prepared for launch.
#[derive(Debug, PartialEq, Eq)]
pub struct PreparedNode<Config> {
    /// Default node name.
    pub name: String,
    /// The configuration.
    pub config: Config,
    /// The reserved network port.
    pub network_port: u16,
}

/// The ports reserved for one local node: its network port and named
/// ports.
#[derive(Debug, PartialEq, Eq)]
pub struct LocalNodePorts {
    network_port: u16,
    named_ports: Vec<(String, u16)>,
}

impl View for LocalNodePorts {
    type V = (u16, Map<Seq<char>, u16>);

    /// The network port and the named ports by name.
    closed spec fn view(&self) -> (u16, Map<Seq<char>, u16>) {
        (
            self.network_port,
            Map::new(
                |k: Seq<char>| exists|i: int| 0 <= i < self.named_ports@.len() && (#[trigger] self.named_ports@[i]).0@ == k,
                |k: Seq<char>|
                    self.named_ports@[choose|i: int|
                        0 <= i < self.named_ports@.len() && (#[trigger] self.named_ports@[i]).0@ == k].1,
            ),
        )
    }
}

impl LocalNodePorts {
    /// No name appears twice.
    pub closed spec fn wf(&self) -> bool {
        forall|i: int, j: int|
            0 <= i < j < self.named_ports@.len() ==> (#[trigger] self.named_ports@[i]).0@
                != (#[trigger] self.named_ports@[j]).0@
    }

    /// Ports with the given network port and no named port.
    pub fn new(network_port: u16) -> (r: Self)
        ensures
            r.wf(),
            r@.0 == network_port,
            r@.1 == Map::<Seq<char>, u16>::empty(),
    {
        let r = LocalNodePorts { network_port, named_ports: Vec::new() };
        assert(r@.1 =~= Map::<Seq<char>, u16>::empty());
        r
    }

    /// The reserved network port.
    pub fn network_port(&self) -> (r: u16)
        ensures
            r == self@.0,
    {
        self.network_port
    }

    fn position(&self, name: &str) -> (r: Option<usize>)
        requires
            self.wf(),
        ensures
            r is Some <==> self@.1.contains_key(name@),
            r matches Some(i) ==> i < self.named_ports@.len() && self.named_ports@[i as int].0@ == name@
                && self@.1[name@] == self.named_ports@[i as int].1,
    {
        let mut i: usize = 0;
        while i < self.named_ports.len()
            invariant
                i <= self.named_ports.len(),
                self.wf(),
                forall|j: int| 0 <= j < i ==> (#[trigger] self.named_ports@[j]).0@ != name@,
            decreases self.named_ports.len() - i,
        {
            if str_eq(self.named_ports[i].0.as_str(), name) {
                proof {
                    assert(self@.1.contains_key(name@));
                    let c = choose|m: int| 0 <= m < self.named_ports@.len() && (#[trigger] self.named_ports@[m]).0@ == name@;
                    if c != i {
                        if c < i {
                            assert(self.named_ports@[c].0@ != name@);
                        } else {
                            assert(self.named_ports@[i as int].0@ != self.named_ports@[c].0@);
                        }
                    }
                }
                return Some(i);
            }
            i = i + 1;
        }
        None
    }

    /// The port reserved under `name`, if any.
    pub fn get(&self, name: &str) -> (r: Option<u16>)
        requires
            self.wf(),
        ensures
            r is Some <==> self@.1.contains_key(name@),
            r matches Some(p) ==> p == self@.1[name@],
    {
        match self.position(name) {
            Some(i) => Some(self.named_ports[i].1),
            None => None,
        }
    }

    /// The port reserved under `name`; missing ones are an error.
    pub fn require(&self, name: &str) -> (r: Result<u16, String>)
        requires
            self.wf(),
        ensures
            self@.1.contains_key(name@) ==> r == Ok::<u16, String>(self@.1[name@]),
            !self@.1.contains_key(name@) ==> (r matches Err(m) && m@ == "missing allocated local port '"@ + name@
                + "'"@),
    {
        match self.get(name) {
            Some(p) => Ok(p),
            None => {
                let mut m = owned("missing allocated local port '");
                m.append(name);
                m.append("'");
                Err(m)
            },
        }
    }

    /// Reserves `port` under `name`, replacing an earlier reservation.
    pub fn insert(&mut self, name: String, port: u16)
        requires
            old(self).wf(),
        ensures
            final(self).wf(),
            final(self)@.0 == old(self)@.0,
            final(self)@.1 == old(self)@.1.insert(name@, port),
    {
        let ghost before = self@.1;
        let ghost k = name@;
        match self.position(name.as_str()) {
            Some(i) => {
                let ghost old_entries = self.named_ports@;
                crate::k8s::forwarding::replace_at(&mut self.named_ports, i, (name, port));
                proof {
                    assert forall|a: int, b: int|
                        0 <= a < b < self.named_ports@.len() implies (#[trigger] self.named_ports@[a]).0@
                        != (#[trigger] self.named_ports@[b]).0@ by {
                        assert(old_entries[a].0@ != old_entries[b].0@);
                    }
                    assert forall|q: Seq<char>| #[trigger] self@.1.contains_key(q) <==> before.insert(k, port).contains_key(q) by {
                        if self@.1.contains_key(q) {
                            let m = choose|m: int| 0 <= m < self.named_ports@.len() && (#[trigger] self.named_ports@[m]).0@ == q;
                            if m != i {
                                assert(old_entries[m].0@ == q);
                            }
                        }
                        if before.contains_key(q) && q != k {
                            let m = choose|m: int| 0 <= m < old_entries.len() && (#[trigger] old_entries[m]).0@ == q;
                            assert(self.named_ports@[m].0@ == q);
                        }
                        if q == k {
                            assert(self.named_ports@[i as int].0@ == q);
                        }
                    }
                    assert forall|q: Seq<char>| #[trigger] self@.1.contains_key(q) implies self@.1[q] == before.insert(k, port)[q] by {
                        let m = choose|m: int| 0 <= m < self.named_ports@.len() && (#[trigger] self.named_ports@[m]).0@ == q;
                        if q == k {
                            if m != i {
                                assert(self.named_ports@[i as int].0@ == q);
                                if m < i {
                                    assert(self.named_ports@[m].0@ != self.named_ports@[i as int].0@);
                                } else {
                                    assert(self.named_ports@[i as int].0@ != self.named_ports@[m].0@);
                                }
                            }
                        } else {
                            assert(m != i);
                            assert(old_entries[m].0@ == q);
                            let m0 = choose|m0: int| 0 <= m0 < old_entries.len() && (#[trigger] old_entries[m0]).0@ == q;
                            if m0 != m {
                                if m0 < m {
                                    assert(old_entries[m0].0@ != old_entries[m].0@);
                                } else {
                                    assert(old_entries[m].0@ != old_entries[m0].0@);
                                }
                            }
                        }
                    }
                    assert(self@.1 =~= before.insert(k, port));
                }
            },
            None => {
                let ghost old_entries = self.named_ports@;
                self.named_ports.push((name, port));
                proof {
                    let n = old_entries.len() as int;
                    assert forall|a: int, b: int|
                        0 <= a < b < self.named_ports@.len() implies (#[trigger] self.named_ports@[a]).0@
                        != (#[trigger] self.named_ports@[b]).0@ by {
                        if b < n {
                            assert(old_entries[a].0@ != old_entries[b].0@);
                        } else {
                            assert(old_entries[a].0@ != k);
                        }
                    }
                    assert forall|q: Seq<char>| #[trigger] self@.1.contains_key(q) <==> before.insert(k, port).contains_key(q) by {
                        if self@.1.contains_key(q) {
                            let m = choose|m: int| 0 <= m < self.named_ports@.len() && (#[trigger] self.named_ports@[m]).0@ == q;
                            if m < n {
                                assert(old_entries[m].0@ == q);
                            }
                        }
                        if before.contains_key(q) {
                            let m = choose|m: int| 0 <= m < old_entries.len() && (#[trigger] old_entries[m]).0@ == q;
                            assert(self.named_ports@[m].0@ == q);
                        }
                        if q == k {
                            assert(self.named_ports@[n].0@ == q);
                        }
                    }
                    assert forall|q: Seq<char>| #[trigger] self@.1.contains_key(q) implies self@.1[q] == before.insert(k, port)[q] by {
                        let m = choose|m: int| 0 <= m < self.named_ports@.len() && (#[trigger] self.named_ports@[m]).0@ == q;
                        if q == k {
                            if m < n {
                                assert(old_entries[m].0@ != k);
                            }
                        } else {
                            assert(m < n);
                            let m0 = choose|m0: int| 0 <= m0 < old_entries.len() && (#[trigger] old_entries[m0]).0@ == q;
                            if m0 != m {
                                if m0 < m {
                                    assert(old_entries[m0].0@ != old_entries[m].0@);
                                } else {
                                    assert(old_entries[m].0@ != old_entries[m0].0@);
                                }
                            }
                        }
                    }
                    assert(self@.1 =~= before.insert(k, port));
                }
            },
        }
    }

    /// The port of `name`, reserved on first use: a name that already has a
    /// port keeps it (and `fresh` goes unused); otherwise the freshly
    /// allocated port `fresh` is reserved under it, or its failure returned.
    pub fn allocate(&mut self, name: String, fresh: Result<u16, String>) -> (r: Result<u16, String>)
        requires
            old(self).wf(),
        ensures
            final(self).wf(),
            final(self)@.0 == old(self)@.0,
            old(self)@.1.contains_key(name@) ==> r == Ok::<u16, String>(old(self)@.1[name@]) && final(self)@
                == old(self)@,
            !old(self)@.1.contains_key(name@) ==> match fresh {
                Ok(p) => r == Ok::<u16, String>(p) && final(self)@.1 == old(self)@.1.insert(name@, p),
                Err(e) => r == Err::<u16, String>(e) && final(self)@ == old(self)@,
            },
    {
        if let Some(port) = self.get(name.as_str()) {
            return Ok(port);
        }
        let port = fresh?;
        self.insert(name, port);
        Ok(port)
    }

    /// The named ports, in the order they were first reserved.
    pub fn iter(&self) -> (r: &Vec<(String, u16)>)
        requires
            self.wf(),
        ensures
            forall|i: int| 0 <= i < r@.len() ==> self@.1.contains_key((#[trigger] r@[i]).0@) && self@.1[r@[i].0@] == r@[i].1,
            forall|k: Seq<char>| self@.1.contains_key(k) ==> exists|i: int| 0 <= i < r@.len() && (#[trigger] r@[i]).0@ == k,
    {
        proof {
            assert forall|i: int| 0 <= i < self.named_ports@.len() implies self@.1.contains_key(
                (#[trigger] self.named_ports@[i]).0@,
            ) && self@.1[self.named_ports@[i].0@] == self.named_ports@[i].1 by {
                let k = self.named_ports@[i].0@;
                let m = choose|m: int| 0 <= m < self.named_ports@.len() && (#[trigger] self.named_ports@[m]).0@ == k;
                if m != i {
                    if m < i {
                        assert(self.named_ports@[m].0@ != self.named_ports@[i].0@);
                    } else {
                        assert(self.named_ports@[i].0@ != self.named_ports@[m].0@);
                    }
                }
            }
        }
        &self.named_ports
    }
}

/// The ports of `count` nodes: node `i` gets `network_ports[i]` and, for
/// each role name in order, that role's `i`-th port (a repeated name keeps
/// its last ports).
pub fn reserve_local_node_ports(network_ports: &Vec<u16>, names: &Vec<String>, named_ports: &Vec<Vec<u16>>) -> (r: Vec<LocalNodePorts>)
    requires
        named_ports@.len() == names@.len(),
        forall|k: int| 0 <= k < named_ports@.len() ==> (#[trigger] named_ports@[k])@.len() == network_ports@.len(),
    ensures
        r@.len() == network_ports@.len(),
        forall|i: int| 0 <= i < r@.len() ==> (#[trigger] r@[i]).wf() && r@[i]@.0 == network_ports@[i],
        forall|i: int, k: int|
            0 <= i < r@.len() && 0 <= k < names@.len() ==> (#[trigger] r@[i])@.1.contains_key(#[trigger] names@[k]@),
        forall|i: int, k: int|
            0 <= i < r@.len() && 0 <= k < names@.len() && (forall|l: int| k < l < names@.len() ==> names@[l]@ != names@[k]@)
                ==> (#[trigger] r@[i])@.1[(#[trigger] names@[k])@] == named_ports@[k]@[i],
        forall|i: int, q: Seq<char>|
            0 <= i < r@.len() && #[trigger] r@[i]@.1.contains_key(q) ==> exists|k: int| 0 <= k < names@.len() && names@[k]@ == q,
{
    let mut out: Vec<LocalNodePorts> = Vec::new();
    let mut i: usize = 0;
    while i < network_ports.len()
        invariant
            i <= network_ports.len(),
            named_ports@.len() == names@.len(),
            forall|k: int| 0 <= k < named_ports@.len() ==> (#[trigger] named_ports@[k])@.len() == network_ports@.len(),
            out@.len() == i,
            forall|j: int| 0 <= j < i ==> (#[trigger] out@[j]).wf() && out@[j]@.0 == network_ports@[j],
            forall|j: int, k: int|
                0 <= j < i && 0 <= k < names@.len() ==> (#[trigger] out@[j])@.1.contains_key(#[trigger] names@[k]@),
            forall|j: int, k: int|
                0 <= j < i && 0 <= k < names@.len() && (forall|l: int| k < l < names@.len() ==> names@[l]@ != names@[k]@)
                    ==> (#[trigger] out@[j])@.1[(#[trigger] names@[k])@] == named_ports@[k]@[j],
            forall|j: int, q: Seq<char>|
                0 <= j < i && #[trigger] out@[j]@.1.contains_key(q) ==> exists|k: int| 0 <= k < names@.len() && names@[k]@ == q,
        decreases network_ports.len() - i,
    {
        let mut ports = LocalNodePorts::new(network_ports[i]);
        let mut k: usize = 0;
        while k < names.len()
            invariant
                k <= names.len(),
                i < network_ports.len(),
                named_ports@.len() == names@.len(),
                forall|m: int| 0 <= m < named_ports@.len() ==> (#[trigger] named_ports@[m])@.len() == network_ports@.len(),
                ports.wf(),
                ports@.0 == network_ports@[i as int],
                forall|m: int| 0 <= m < k ==> ports@.1.contains_key(#[trigger] names@[m]@),
                forall|m: int|
                    0 <= m < k && (forall|l: int| m < l < k ==> names@[l]@ != names@[m]@) ==> ports@.1[(
                    #[trigger] names@[m])@] == named_ports@[m]@[i as int],
                forall|q: Seq<char>| ports@.1.contains_key(q) ==> exists|m: int| 0 <= m < k && names@[m]@ == q,
            decreases names.len() - k,
        {
            ports.insert(names[k].clone(), named_ports[k][i]);
            proof {
                assert forall|q: Seq<char>| ports@.1.contains_key(q) implies exists|m: int| 0 <= m < k + 1 && names@[m]@ == q by {
                    if q != names@[k as int]@ {
                        let m = choose|m: int| 0 <= m < k && names@[m]@ == q;
                        assert(names@[m]@ == q);
                    }
                }
            }
            k = k + 1;
        }
        out.push(ports);
        i = i + 1;
    }
    out
}

/// `source` reports the first failed attempt of a reservation labelled
/// `label`: every earlier attempt succeeded.
pub open spec fn reservation_failed(attempts: Seq<Result<u16, String>>, label: Seq<char>, source: Seq<char>) -> bool {
    exists|i: int|
        #![trigger attempts[i]]
        0 <= i < attempts.len() && (forall|j: int| 0 <= j < i ==> (#[trigger] attempts[j]) is Ok) && (
        attempts[i] matches Err(e) && source == "failed to pre-allocate "@ + label + " ports: "@ + e@)
}

/// The outcome of reserving `count` ports one by one: all of them, or the
/// first failure, reported with the label of what the ports are for.
pub fn preallocate_ports(attempts: Vec<Result<u16, String>>, label: &str) -> (r: Result<Vec<u16>, ProcessSpawnError>)
    ensures
        r is Ok <==> all_reserved(attempts@),
        r matches Ok(v) ==> v@.len() == attempts@.len() && forall|i: int|
            0 <= i < v@.len() ==> attempts@[i] == Ok::<u16, String>(#[trigger] v@[i]),
        r is Err ==> (r matches Err(ProcessSpawnError::Config { source }) && reservation_failed(
            attempts@,
            label@,
            source@,
        )),
{
    let mut ports: Vec<u16> = Vec::new();
    let mut i: usize = 0;
    while i < attempts.len()
        invariant
            i <= attempts.len(),
            ports@.len() == i,
            forall|j: int| 0 <= j < i ==> (#[trigger] attempts@[j]) == Ok::<u16, String>(ports@[j]),
        decreases attempts.len() - i,
    {
        match &attempts[i] {
            Ok(p) => {
                ports.push(*p);
            },
            Err(e) => {
                let mut source = owned("failed to pre-allocate ");
                source.append(label);
                source.append(" ports: ");
                source.append(e.as_str());
                return Err(ProcessSpawnError::Config { source });
            },
        }
        i = i + 1;
    }
    Ok(ports)
}

/// Whether every reservation attempt succeeded.
pub open spec fn all_reserved(attempts: Seq<Result<u16, String>>) -> bool {
    forall|i: int| 0 <= i < attempts.len() ==> (#[trigger] attempts[i]) is Ok
}

/// The ports of the successful attempts.
pub open spec fn reserved_ports(attempts: Seq<Result<u16, String>>) -> Seq<u16> {
    attempts.map_values(|a: Result<u16, String>| match a {
        Ok(p) => p,
        Err(_) => 0u16,
    })
}

/// The network and named ports of `count` local nodes, from one
/// reservation attempt per node for the network ports and, for each role
/// name, one per node for that role. Any failed attempt fails the whole
/// allocation, the network ports first, then the roles in order, each
/// reported with the label (and the role name).
pub fn allocate_local_node_ports(
    count: usize,
    names: &Vec<String>,
    label: &str,
    network_attempts: Vec<Result<u16, String>>,
    named_attempts: Vec<Vec<Result<u16, String>>>,
) -> (r: Result<Vec<LocalNodePorts>, ProcessSpawnError>)
    requires
        network_attempts@.len() == count,
        named_attempts@.len() == names@.len(),
        forall|k: int| 0 <= k < named_attempts@.len() ==> (#[trigger] named_attempts@[k])@.len() == count,
    ensures
        r is Ok <==> all_reserved(network_attempts@) && forall|k: int|
            0 <= k < named_attempts@.len() ==> all_reserved(#[trigger] named_attempts@[k]@),
        r matches Ok(v) ==> {
            &&& v@.len() == count
            &&& forall|i: int| 0 <= i < count ==> (#[trigger] v@[i]).wf() && v@[i]@.0 == reserved_ports(network_attempts@)[i]
            &&& forall|i: int, k: int|
                0 <= i < count && 0 <= k < names@.len() ==> (#[trigger] v@[i])@.1.contains_key(#[trigger] names@[k]@)
            &&& forall|i: int, k: int|
                0 <= i < count && 0 <= k < names@.len() && (forall|l: int| k < l < names@.len() ==> names@[l]@ != names@[k]@)
                    ==> (#[trigger] v@[i])@.1[(#[trigger] names@[k])@] == reserved_ports(named_attempts@[k]@)[i]
            &&& forall|i: int, q: Seq<char>|
                0 <= i < count && #[trigger] v@[i]@.1.contains_key(q) ==> exists|k: int| 0 <= k < names@.len() && names@[k]@ == q
        },
        !all_reserved(network_attempts@) ==> (r matches Err(ProcessSpawnError::Config { source })
            && reservation_failed(network_attempts@, label@, source@)),
        all_reserved(network_attempts@) && !(forall|k: int|
            0 <= k < named_attempts@.len() ==> all_reserved(#[trigger] named_attempts@[k]@)) ==> (r matches Err(
            ProcessSpawnError::Config { source },
        ) && exists|k: int|
            0 <= k < named_attempts@.len() && !all_reserved(#[trigger] named_attempts@[k]@) && (forall|l: int|
                0 <= l < k ==> all_reserved(#[trigger] named_attempts@[l]@)) && reservation_failed(
                named_attempts@[k]@,
                label@ + " "@ + names@[k]@,
                source@,
            )),
{
    let ghost net = network_attempts@;
    let network_ports = match preallocate_ports(network_attempts, label) {
        Ok(p) => p,
        Err(e) => {
            proof {
                if all_reserved(net) {
                    assert(false);
                }
            }
            return Err(e);
        },
    };
    assert(network_ports@ =~= reserved_ports(net)) by {
        assert forall|i: int| 0 <= i < net.len() implies network_ports@[i] == reserved_ports(net)[i] by {
            assert(net[i] == Ok::<u16, String>(network_ports@[i]));
        }
    }
    let mut named: Vec<Vec<u16>> = Vec::new();
    let ghost all = named_attempts@;
    let mut attempts = named_attempts;
    let mut k: usize = 0;
    while k < names.len()
        invariant
            k <= names.len(),
            attempts@.len() == names@.len(),
            all.len() == names@.len(),
            all_reserved(net),
            net == network_attempts@,
            all == named_attempts@,
            forall|m: int| k <= m < all.len() ==> attempts@[m] == all[m],
            forall|m: int| 0 <= m < all.len() ==> (#[trigger] all[m])@.len() == count,
            named@.len() == k,
            forall|m: int| 0 <= m < k ==> all_reserved(#[trigger] all[m]@),
            forall|m: int| 0 <= m < k ==> (#[trigger] named@[m])@ == reserved_ports(all[m]@),
        decreases names.len() - k,
    {
        let mut role_label = owned(label);
        role_label.append(" ");
        role_label.append(names[k].as_str());
        let mut these: Vec<Result<u16, String>> = Vec::new();
        std::mem::swap(&mut these, &mut attempts[k]);
        let ghost cur = these@;
        assert(cur == all[k as int]@);
        match preallocate_ports(these, role_label.as_str()) {
            Ok(p) => {
                assert(p@ =~= reserved_ports(cur)) by {
                    assert forall|i: int| 0 <= i < cur.len() implies p@[i] == reserved_ports(cur)[i] by {
                        assert(cur[i] == Ok::<u16, String>(p@[i]));
                    }
                }
                named.push(p);
            },
            Err(e) => {
                proof {
                    assert(!all_reserved(all[k as int]@));
                }
                return Err(e);
            },
        }
        k = k + 1;
    }
    Ok(reserve_local_node_ports(&network_ports, names, &named))
}

/// `<prefix>-<index>` configs for `count` nodes, the `i`-th built by
/// `build(i)`.
pub fn build_indexed_node_configs<T, F: Fn(usize) -> T>(count: usize, name_prefix: &str, build: F) -> (r: Vec<NodeConfigEntry<T>>)
    requires
        forall|i: usize| i < count ==> call_requires(build, (i,)),
    ensures
        r@.len() == count,
        forall|i: int| 0 <= i < count ==> (#[trigger] r@[i]).name@ == crate::k8s::env::indexed_name(name_prefix@, i as nat),
        forall|i: int| 0 <= i < count ==> call_ensures(build, (i as usize,), (#[trigger] r@[i]).config),
{
    let mut out: Vec<NodeConfigEntry<T>> = Vec::new();
    let mut i: usize = 0;
    while i < count
        invariant
            i <= count,
            forall|j: usize| j < count ==> call_requires(build, (j,)),
            out@.len() == i,
            forall|j: int| 0 <= j < i ==> (#[trigger] out@[j]).name@ == crate::k8s::env::indexed_name(name_prefix@, j as nat),
            forall|j: int| 0 <= j < i ==> call_ensures(build, (j as usize,), (#[trigger] out@[j]).config),
        decreases count - i,
    {
        let config = build(i);
        out.push(NodeConfigEntry { name: crate::k8s::env::format_indexed_name(name_prefix, i), config });
        i = i + 1;
    }
    out
}

/// The loopback authority `127.0.0.1:<port>`.
pub open spec fn loopback_authority(port: u16) -> Seq<char> {
    "127.0.0.1:"@ + decimal(port as nat)
}

/// Formats the loopback authority of a port.
pub fn format_loopback_authority(port: u16) -> (r: String)
    ensures
        r@ == loopback_authority(port),
{
    let mut r = owned("127.0.0.1:");
    r.append(u64_to_decimal(port as u64).as_str());
    r
}

/// The node index of the `k`-th peer when node `self_index` skips itself.
pub open spec fn peer_index(k: int, self_index: int) -> int {
    if k < self_index {
        k
    } else {
        k + 1
    }
}

/// Number of peers among `count` nodes once node `self_index` is skipped.
pub open spec fn peer_count(count: nat, self_index: nat) -> nat {
    if self_index < count {
        (count - 1) as nat
    } else {
        count
    }
}

/// Peers of node `self_index` among `node_count` nodes, the peer at index
/// `i` built by `build_peer(i, "127.0.0.1:<peer_ports[i]>")`, in index
/// order.
pub fn build_indexed_http_peers<T, F: Fn(usize, String) -> T>(
    node_count: usize,
    self_index: usize,
    peer_ports: &Vec<u16>,
    build_peer: F,
) -> (r: Vec<T>)
    requires
        node_count <= peer_ports@.len() || (node_count == peer_ports@.len() + 1 && self_index == peer_ports@.len()),
        forall|i: usize, a: String| call_requires(build_peer, (i, a)),
    ensures
        r@.len() == peer_count(node_count as nat, self_index as nat),
        forall|k: int|
            0 <= k < r@.len() ==> peer_built(build_peer, peer_index(k, self_index as int) as usize, loopback_authority(peer_ports@[peer_index(k, self_index as int)]), #[trigger] r@[k]),
{
    let mut out: Vec<T> = Vec::new();
    let mut i: usize = 0;
    while i < node_count
        invariant
            i <= node_count,
            node_count <= peer_ports@.len() || (node_count == peer_ports@.len() + 1 && self_index == peer_ports@.len()),
            forall|j: usize, a: String| call_requires(build_peer, (j, a)),
            out@.len() == peer_count(i as nat, self_index as nat),
            forall|k: int|
                0 <= k < out@.len() ==> peer_built(build_peer, peer_index(k, self_index as int) as usize, loopback_authority(peer_ports@[peer_index(k, self_index as int)]), #[trigger] out@[k]),
        decreases node_count - i,
    {
        if i != self_index {
            let authority = format_loopback_authority(peer_ports[i]);
            let ghost a = authority;
            let peer = build_peer(i, authority);
            let ghost before = out@;
            out.push(peer);
            proof {
                let k = before.len() as int;
                assert(peer_index(k, self_index as int) == i);
                assert(peer_built(build_peer, i, a@, peer));
                assert forall|m: int|
                    0 <= m < out@.len() implies peer_built(build_peer, peer_index(m, self_index as int) as usize, loopback_authority(peer_ports@[peer_index(m, self_index as int)]), #[trigger] out@[m]) by {
                    if m < k {
                        assert(out@[m] == before[m]);
                    }
                }
            }
        }
        i = i + 1;
    }
    out
}

/// Whether `peer` is a result of `build_peer` for node `index` and an
/// authority string whose characters are `authority`.
pub open spec fn peer_built<T, F: Fn(usize, String) -> T>(build_peer: F, index: usize, authority: Seq<char>, peer: T) -> bool {
    exists|a: String| a@ == authority && #[trigger] call_ensures(build_peer, (index, a), peer)
}

/// A peer as a node sees it while its configuration is built.
#[derive(Debug, PartialEq, Eq)]
pub struct LocalPeerNode {
    index: usize,
    name: Option<String>,
    network_port: u16,
}

impl Clone for LocalPeerNode {
    fn clone(&self) -> (r: Self)
        ensures
            r == *self,
    {
        LocalPeerNode { index: self.index, name: self.name.clone(), network_port: self.network_port }
    }
}

impl LocalPeerNode {
    /// The peer's index, as a specification value.
    pub closed spec fn index_view(&self) -> usize {
        self.index
    }

    /// The peer's registered name, as a specification value.
    pub closed spec fn name_view(&self) -> Option<Seq<char>> {
        match self.name {
            Some(n) => Some(n@),
            None => None,
        }
    }

    /// The peer's network port, as a specification value.
    pub closed spec fn port_view(&self) -> u16 {
        self.network_port
    }

    /// A peer whose name is not known yet.
    pub fn new(index: usize, network_port: u16) -> (r: Self)
        ensures
            r.index_view() == index,
            r.name_view() is None,
            r.port_view() == network_port,
    {
        LocalPeerNode { index, name: None, network_port }
    }

    /// Adds the peer's registered name.
    pub fn with_name(self, name: String) -> (r: Self)
        ensures
            r.index_view() == self.index_view(),
            r.name_view() == Some(name@),
            r.port_view() == self.port_view(),
    {
        LocalPeerNode { name: Some(name), ..self }
    }

    /// The registered name, if known.
    pub fn name(&self) -> (r: Option<&str>)
        ensures
            match self.name_view() {
                Some(n) => r matches Some(x) && x@ == n,
                None => r is None,
            },
    {
        match &self.name {
            Some(n) => Some(n.as_str()),
            None => None,
        }
    }

    /// The peer's index.
    pub fn index(&self) -> (r: usize)
        ensures
            r == self.index_view(),
    {
        self.index
    }

    /// The peer's network port.
    pub fn network_port(&self) -> (r: u16)
        ensures
            r == self.port_view(),
    {
        self.network_port
    }

    /// The peer's loopback authority `127.0.0.1:<port>`.
    pub fn http_address(&self) -> (r: String)
        ensures
            r@ == loopback_authority(self.port_view()),
    {
        format_loopback_authority(self.network_port)
    }

    /// The authority used for the peer in configurations.
    pub fn authority(&self) -> (r: String)
        ensures
            r@ == loopback_authority(self.port_view()),
    {
        self.http_address()
    }
}

/// The peers of node `self_index`: every other index with its port, in
/// index order.
pub fn build_local_peer_nodes(peer_ports: &Vec<u16>, self_index: usize) -> (r: Vec<LocalPeerNode>)
    ensures
        r@.len() == peer_count(peer_ports@.len(), self_index as nat),
        forall|k: int|
            0 <= k < r@.len() ==> (#[trigger] r@[k]).index_view() == peer_index(k, self_index as int) && r@[k].port_view()
                == peer_ports@[peer_index(k, self_index as int)] && r@[k].name_view() is None,
{
    let mut out: Vec<LocalPeerNode> = Vec::new();
    let mut i: usize = 0;
    while i < peer_ports.len()
        invariant
            i <= peer_ports.len(),
            out@.len() == peer_count(i as nat, self_index as nat),
            forall|k: int|
                0 <= k < out@.len() ==> (#[trigger] out@[k]).index_view() == peer_index(k, self_index as int)
                    && out@[k].port_view() == peer_ports@[peer_index(k, self_index as int)] && out@[k].name_view() is None,
        decreases peer_ports.len() - i,
    {
        if i != self_index {
            out.push(LocalPeerNode::new(i, peer_ports[i]));
        }
        i = i + 1;
    }
    out
}

/// The ports of every other node, in index order.
pub fn compact_peer_ports(peer_ports: &Vec<u16>, self_index: usize) -> (r: Vec<u16>)
    ensures
        r@.len() == peer_count(peer_ports@.len(), self_index as nat),
        forall|k: int| 0 <= k < r@.len() ==> #[trigger] r@[k] == peer_ports@[peer_index(k, self_index as int)],
{
    let mut out: Vec<u16> = Vec::new();
    let mut i: usize = 0;
    while i < peer_ports.len()
        invariant
            i <= peer_ports.len(),
            out@.len() == peer_count(i as nat, self_index as nat),
            forall|k: int| 0 <= k < out@.len() ==> #[trigger] out@[k] == peer_ports@[peer_index(k, self_index as int)],
        decreases peer_ports.len() - i,
    {
        if i != self_index {
            out.push(peer_ports[i]);
        }
        i = i + 1;
    }
    out
}

/// How the configuration file is passed to the process.
#[derive(Clone, Copy, Debug, PartialEq, Eq)]
pub enum LocalConfigArgMode {
    /// As a flag pair, for example `--config config.yaml`.
    Flag,
    /// As a positional argument.
    Positional,
}

/// The standard description of a node process: one binary plus one
/// configuration file. `B` is how the binary is provided.
#[derive(Debug, PartialEq, Eq)]
pub struct LocalProcessSpec<B> {
    /// How the binary is provided.
    pub binary: B,
    /// File name of the configuration in the working directory.
    pub config_file_name: String,
    /// Flag introducing the configuration file.
    pub config_arg: String,
    /// Whether the flag is emitted or the file is positional.
    pub config_arg_mode: LocalConfigArgMode,
    /// Extra arguments after the configuration.
    pub extra_args: Vec<String>,
    /// Extra environment variables.
    pub env: Vec<LaunchEnvVar>,
}

impl LocalProcessSpec<EnvBinaryProvider> {
    /// A process whose binary path is read from `binary_env_var`, with its
    /// configuration in `config.yaml` passed as `--config config.yaml`.
    pub fn new(binary_env_var: &str) -> (r: Self)
        ensures
            r.binary.env_var@ == binary_env_var@,
            r.config_file_name@ == "config.yaml"@,
            r.config_arg@ == "--config"@,
            r.config_arg_mode == LocalConfigArgMode::Flag,
            r.extra_args@.len() == 0,
            r.env@.len() == 0,
    {
        LocalProcessSpec {
            binary: EnvBinaryProvider::new(owned(binary_env_var)),
            config_file_name: owned("config.yaml"),
            config_arg: owned("--config"),
            config_arg_mode: LocalConfigArgMode::Flag,
            extra_args: Vec::new(),
            env: Vec::new(),
        }
    }
}

impl<B> LocalProcessSpec<B> {
    /// Uses the binary at an explicit path.
    pub fn with_binary_path(self, path: String) -> (r: LocalProcessSpec<PathBinaryProvider>)
        ensures
            r.binary.path == path,
            r.config_file_name == self.config_file_name,
            r.config_arg == self.config_arg,
            r.config_arg_mode == self.config_arg_mode,
            r.extra_args == self.extra_args,
            r.env == self.env,
    {
        self.with_binary_provider(PathBinaryProvider::new(path))
    }

    /// Uses another way of providing the binary.
    pub fn with_binary_provider<C>(self, binary: C) -> (r: LocalProcessSpec<C>)
        ensures
            r.binary == binary,
            r.config_file_name == self.config_file_name,
            r.config_arg == self.config_arg,
            r.config_arg_mode == self.config_arg_mode,
            r.extra_args == self.extra_args,
            r.env == self.env,
    {
        LocalProcessSpec {
            binary,
            config_file_name: self.config_file_name,
            config_arg: self.config_arg,
            config_arg_mode: self.config_arg_mode,
            extra_args: self.extra_args,
            env: self.env,
        }
    }

    /// Uses an already shared binary provider handle.
    pub fn with_binary_provider_ref<C>(self, binary: C) -> (r: LocalProcessSpec<C>)
        ensures
            r.binary == binary,
            r.config_file_name == self.config_file_name,
            r.config_arg == self.config_arg,
            r.config_arg_mode == self.config_arg_mode,
            r.extra_args == self.extra_args,
            r.env == self.env,
    {
        self.with_binary_provider(binary)
    }

    /// Names the configuration file and the flag that introduces it.
    pub fn with_config_file(self, file_name: &str, arg: &str) -> (r: Self)
        ensures
            r.binary == self.binary,
            r.config_file_name@ == file_name@,
            r.config_arg@ == arg@,
            r.config_arg_mode == LocalConfigArgMode::Flag,
            r.extra_args == self.extra_args,
            r.env == self.env,
    {
        LocalProcessSpec {
            config_file_name: owned(file_name),
            config_arg: owned(arg),
            config_arg_mode: LocalConfigArgMode::Flag,
            ..self
        }
    }

    /// Names the configuration file and passes it positionally.
    pub fn with_positional_config_file(self, file_name: &str) -> (r: Self)
        ensures
            r.binary == self.binary,
            r.config_file_name@ == file_name@,
            r.config_arg == self.config_arg,
            r.config_arg_mode == LocalConfigArgMode::Positional,
            r.extra_args == self.extra_args,
            r.env == self.env,
    {
        LocalProcessSpec { config_file_name: owned(file_name), config_arg_mode: LocalConfigArgMode::Positional, ..self }
    }

    /// Appends an environment variable.
    pub fn with_env(self, key: &str, value: &str) -> (r: Self)
        ensures
            r.binary == self.binary,
            r.config_file_name == self.config_file_name,
            r.config_arg == self.config_arg,
            r.config_arg_mode == self.config_arg_mode,
            r.extra_args == self.extra_args,
            r.env@.len() == self.env@.len() + 1,
            r.env@.drop_last() == self.env@,
            r.env@.last().key@ == key@,
            r.env@.last().value@ == value@,
    {
        let mut env = self.env;
        env.push(LaunchEnvVar::new(key, value));
        LocalProcessSpec { env, ..self }
    }

    /// Sets `RUST_LOG`.
    pub fn with_rust_log(self, value: &str) -> (r: Self)
        ensures
            r.binary == self.binary,
            r.config_file_name == self.config_file_name,
            r.config_arg == self.config_arg,
            r.config_arg_mode == self.config_arg_mode,
            r.extra_args == self.extra_args,
            r.env@.len() == self.env@.len() + 1,
            r.env@.drop_last() == self.env@,
            r.env@.last().key@ == "RUST_LOG"@,
            r.env@.last().value@ == value@,
    {
        self.with_env("RUST_LOG", value)
    }

    /// Appends extra arguments.
    pub fn with_args(self, args: Vec<String>) -> (r: Self)
        ensures
            r.binary == self.binary,
            r.config_file_name == self.config_file_name,
            r.config_arg == self.config_arg,
            r.config_arg_mode == self.config_arg_mode,
            r.extra_args@ == self.extra_args@ + args@,
            r.env == self.env,
    {
        let mut extra_args = self.extra_args;
        let mut more = args;
        extra_args.append(&mut more);
        LocalProcessSpec { extra_args, ..self }
    }

    /// The arguments that pass the configuration file.
    pub open spec fn config_args_view(&self) -> Seq<Seq<char>> {
        match self.config_arg_mode {
            LocalConfigArgMode::Flag => seq![self.config_arg@, self.config_file_name@],
            LocalConfigArgMode::Positional => seq![self.config_file_name@],
        }
    }

    /// The arguments that pass the configuration file.
    pub fn config_file_args(&self) -> (r: Vec<String>)
        ensures
            views(r@) == self.config_args_view(),
    {
        let mut r: Vec<String> = Vec::new();
        match self.config_arg_mode {
            LocalConfigArgMode::Flag => {
                r.push(self.config_arg.clone());
                r.push(self.config_file_name.clone());
            },
            LocalConfigArgMode::Positional => {
                r.push(self.config_file_name.clone());
            },
        }
        assert(views(r@) =~= self.config_args_view());
        r
    }

    /// The launch plan of a node with its rendered configuration and the
    /// resolved binary: the configuration file is written, its arguments
    /// come first, then the extra arguments, and the environment is the
    /// spec's.
    pub fn rendered_config_launch_spec(&self, rendered_config: Vec<u8>, binary: String) -> (r: LaunchSpec)
        ensures
            r.binary == binary,
            r.files@.len() == 1,
            r.files@[0].relative_path == self.config_file_name,
            r.files@[0].contents == rendered_config,
            views(r.args@) == self.config_args_view() + views(self.extra_args@),
            r.env@ == self.env@,
    {
        let mut args = self.config_file_args();
        let mut i: usize = 0;
        while i < self.extra_args.len()
            invariant
                i <= self.extra_args.len(),
                views(args@) == self.config_args_view() + views(self.extra_args@).take(i as int),
            decreases self.extra_args.len() - i,
        {
            let ghost before = args@;
            args.push(self.extra_args[i].clone());
            assert(views(args@) =~= views(before).push(self.extra_args@[i as int]@));
            assert(views(args@) =~= self.config_args_view() + views(self.extra_args@).take(i + 1));
            i = i + 1;
        }
        assert(views(self.extra_args@).take(self.extra_args.len() as int) =~= views(self.extra_args@));
        let env = self.env.clone();
        assert(env@ =~= self.env@);
        let mut files: Vec<LaunchFile> = Vec::new();
        files.push(LaunchFile { relative_path: self.config_file_name.clone(), contents: rendered_config });
        LaunchSpec { binary, files, args, env }
    }
}

/// The UTF-8 bytes of an already rendered text configuration.
pub fn text_node_config(rendered_config: &str) -> (r: Vec<u8>)
    ensures
        r@ == vstd::utf8::encode_utf8(rendered_config@),
{
    rendered_config.as_bytes_vec()
}

/// The launch plan of a node whose configuration is already rendered text,
/// given `resolved`, the outcome of resolving the spec's binary provider:
/// the resolved path is the binary to launch, and a failed resolution is
/// the error.
pub fn text_config_launch_spec<B>(rendered_config: &str, spec: &LocalProcessSpec<B>, resolved: Result<String, BinaryProviderError>) -> (r: Result<LaunchSpec, BinaryProviderError>)
    ensures
        resolved matches Err(e) ==> r == Err::<LaunchSpec, BinaryProviderError>(e),
        resolved matches Ok(binary) ==> (r matches Ok(l) && l.binary == binary && l.files@.len() == 1
            && l.files@[0].relative_path == spec.config_file_name && l.files@[0].contents@
            == vstd::utf8::encode_utf8(rendered_config@) && views(l.args@) == spec.config_args_view() + views(
            spec.extra_args@,
        ) && l.env@ == spec.env@),
{
    let binary = resolved?;
    Ok(spec.rendered_config_launch_spec(text_node_config(rendered_config), binary))
}

impl LocalProcessSpec<PathBinaryProvider> {
    /// The resolution of the binary at the spec's path, given whether that
    /// path names a file: a relative path is refused, a path that names no
    /// file is not found.
    pub fn resolve_binary(&self, is_file: bool) -> (r: Result<String, BinaryProviderError>)
        ensures
            !crate::local::binary::is_absolute(self.binary.path@) ==> r == Err::<String, BinaryProviderError>(
                BinaryProviderError::RelativePath { path: self.binary.path },
            ),
            crate::local::binary::is_absolute(self.binary.path@) && is_file ==> r == Ok::<String, BinaryProviderError>(
                self.binary.path,
            ),
            crate::local::binary::is_absolute(self.binary.path@) && !is_file ==> (r matches Err(
                BinaryProviderError::NotFound { provider },
            ) && provider@ == "path"@),
    {
        crate::local::binary::resolve_uncached(self.binary.try_resolve_with(is_file), self.binary.display())
    }
}

impl LocalProcessSpec<EnvBinaryProvider> {
    /// The resolution of the binary named by the spec's environment
    /// variable, given its value and whether that value names a file.
    pub fn resolve_binary(&self, value: Option<String>, is_file: bool) -> (r: Result<String, BinaryProviderError>)
        ensures
            (value matches Some(v) && is_file) ==> r == Ok::<String, BinaryProviderError>(value->0),
            !(value is Some && is_file) ==> (r matches Err(BinaryProviderError::NotFound { provider }) && provider@
                == "env"@),
    {
        crate::local::binary::resolve_uncached(Ok(self.binary.try_resolve_with(value, is_file)), self.binary.display())
    }
}

/// A name's port, once reserved, is what every later allocation of that
/// name returns.
pub proof fn lemma_allocation_is_stable(ports: Map<Seq<char>, u16>, name: Seq<char>, port: u16)
    ensures
        ports.insert(name, port).contains_key(name),
        ports.insert(name, port)[name] == port,
{
}

} // verus!
