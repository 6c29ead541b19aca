//! A small map keyed by names, kept as a list of distinct names in
//! insertion order, with the finite map it stands for as its view.

use vstd::prelude::*;

use crate::text::str_eq;

verus! {

/// Values by name.
#[derive(Debug, PartialEq, Eq)]
pub struct NamedMap<V> {
    entries: Vec<(String, V)>,
}

/// The map an entry list stands for.
closed spec fn entries_map<V>(entries: Seq<(String, V)>) -> Map<Seq<char>, V> {
    Map::new(
        |k: Seq<char>| exists|i: int| 0 <= i < entries.len() && (#[trigger] entries[i]).0@ == k,
        |k: Seq<char>| entries[choose|i: int| 0 <= i < entries.len() && (#[trigger] entries[i]).0@ == k].1,
    )
}

/// No name appears twice in an entry list.
closed spec fn distinct_names<V>(entries: Seq<(String, V)>) -> bool {
    forall|i: int, j: int| 0 <= i < j < entries.len() ==> (#[trigger] entries[i]).0@ != (#[trigger] entries[j]).0@
}

proof fn lemma_entries_map_at<V>(entries: Seq<(String, V)>, i: int)
    requires
        distinct_names(entries),
        0 <= i < entries.len(),
    ensures
        entries_map(entries).contains_key(entries[i].0@),
        entries_map(entries)[entries[i].0@] == entries[i].1,
{
    let k = entries[i].0@;
    let m = choose|m: int| 0 <= m < entries.len() && (#[trigger] entries[m]).0@ == k;
    if m != i {
        if m < i {
            assert(entries[m].0@ != entries[i].0@);
        } else {
            assert(entries[i].0@ != entries[m].0@);
        }
    }
}

impl<V> View for NamedMap<V> {
    type V = Map<Seq<char>, V>;

    /// The values by name.
    closed spec fn view(&self) -> Map<Seq<char>, V> {
        entries_map(self.entries@)
    }
}

impl<V> NamedMap<V> {
    /// No name appears twice.
    pub closed spec fn wf(&self) -> bool {
        distinct_names(self.entries@)
    }

    /// The names, in insertion order.
    pub closed spec fn names(&self) -> Seq<Seq<char>> {
        self.entries@.map_values(|e: (String, V)| e.0@)
    }

    proof fn lemma_view_at(&self, i: int)
        requires
            self.wf(),
            0 <= i < self.entries@.len(),
        ensures
            self@.contains_key(self.entries@[i].0@),
            self@[self.entries@[i].0@] == self.entries@[i].1,
    {
        lemma_entries_map_at(self.entries@, i);
    }

    /// An empty map.
    pub fn new() -> (r: Self)
        ensures
            r.wf(),
            r@ == Map::<Seq<char>, V>::empty(),
    {
        let r = NamedMap { entries: Vec::new() };
        assert(r@ =~= Map::<Seq<char>, V>::empty());
        r
    }

    /// Number of names.
    pub fn len(&self) -> (r: usize)
        requires
            self.wf(),
        ensures
            r == self@.len(),
    {
        proof {
            self.lemma_len();
        }
        self.entries.len()
    }

    proof fn lemma_len(&self)
        requires
            self.wf(),
        ensures
            self@.len() == self.entries@.len(),
            self@.dom().finite(),
        decreases self.entries@.len(),
    {
        let names = self.names();
        assert forall|i: int, j: int| 0 <= i < j < names.len() implies names[i] != names[j] by {
            assert(self.entries@[i].0@ != self.entries@[j].0@);
        }
        assert(self@.dom() =~= names.to_set()) by {
            assert forall|k: Seq<char>| self@.dom().contains(k) implies names.to_set().contains(k) by {
                let m = choose|m: int| 0 <= m < self.entries@.len() && (#[trigger] self.entries@[m]).0@ == k;
                assert(names[m] == k);
            }
            assert forall|k: Seq<char>| names.to_set().contains(k) implies self@.dom().contains(k) by {
                let m = choose|m: int| 0 <= m < names.len() && names[m] == k;
                assert(self.entries@[m].0@ == k);
            }
        }
        names.unique_seq_to_set();
    }

    /// Position of `name` in the entry list.
    fn position(&self, name: &str) -> (r: Option<usize>)
        requires
            self.wf(),
        ensures
            r is Some <==> self@.contains_key(name@),
            r matches Some(i) ==> i < self.entries@.len() && self.entries@[i as int].0@ == name@
                && self@[name@] == self.entries@[i as int].1,
    {
        let mut i: usize = 0;
        while i < self.entries.len()
            invariant
                i <= self.entries.len(),
                self.wf(),
                forall|j: int| 0 <= j < i ==> (#[trigger] self.entries@[j]).0@ != name@,
            decreases self.entries.len() - i,
        {
            if str_eq(self.entries[i].0.as_str(), name) {
                proof {
                    self.lemma_view_at(i as int);
                }
                return Some(i);
            }
            i = i + 1;
        }
        None
    }

    /// Whether `name` has a value.
    pub fn contains(&self, name: &str) -> (r: bool)
        requires
            self.wf(),
        ensures
            r == self@.contains_key(name@),
    {
        self.position(name).is_some()
    }

    /// The value of `name`, if any.
    pub fn get(&self, name: &str) -> (r: Option<&V>)
        requires
            self.wf(),
        ensures
            r is Some <==> self@.contains_key(name@),
            r matches Some(v) ==> *v == self@[name@],
    {
        match self.position(name) {
            Some(i) => Some(&self.entries[i].1),
            None => None,
        }
    }

    /// Sets the value of `name`, replacing an earlier one.
    pub fn insert(&mut self, name: String, value: V)
        requires
            old(self).wf(),
        ensures
            final(self).wf(),
            final(self)@ == old(self)@.insert(name@, value),
    {
        let ghost before = self@;
        let ghost k = name@;
        let ghost old_entries = self.entries@;
        match self.position(name.as_str()) {
            Some(i) => {
                crate::k8s::forwarding::replace_at(&mut self.entries, i, (name, value));
                proof {
                    assert forall|a: int, b: int|
                        0 <= a < b < self.entries@.len() implies (#[trigger] self.entries@[a]).0@
                        != (#[trigger] self.entries@[b]).0@ by {
                        assert(old_entries[a].0@ != old_entries[b].0@);
                    }
                    assert forall|q: Seq<char>| #[trigger] self@.contains_key(q) <==> before.insert(k, value).contains_key(q) by {
                        if self@.contains_key(q) {
                            let m = choose|m: int| 0 <= m < self.entries@.len() && (#[trigger] self.entries@[m]).0@ == q;
                            if m != i {
                                assert(old_entries[m].0@ == q);
                            }
                        }
                        if before.contains_key(q) && q != k {
                            let m = choose|m: int| 0 <= m < old_entries.len() && (#[trigger] old_entries[m]).0@ == q;
                            assert(self.entries@[m].0@ == q);
                        }
                        if q == k {
                            assert(self.entries@[i as int].0@ == q);
                        }
                    }
                    assert forall|q: Seq<char>| #[trigger] self@.contains_key(q) implies self@[q] == before.insert(k, value)[q] by {
                        let m = choose|m: int| 0 <= m < self.entries@.len() && (#[trigger] self.entries@[m]).0@ == q;
                        self.lemma_view_at(m);
                        if q != k {
                            assert(m != i);
                            lemma_entries_map_at(old_entries, m);
                        }
                    }
                    assert(self@ =~= before.insert(k, value));
                }
            },
            None => {
                self.entries.push((name, value));
                proof {
                    let n = old_entries.len() as int;
                    assert forall|a: int, b: int|
                        0 <= a < b < self.entries@.len() implies (#[trigger] self.entries@[a]).0@
                        != (#[trigger] self.entries@[b]).0@ by {
                        if b < n {
                            assert(old_entries[a].0@ != old_entries[b].0@);
                        } else {
                            assert(old_entries[a].0@ != k);
                        }
                    }
                    assert forall|q: Seq<char>| #[trigger] self@.contains_key(q) <==> before.insert(k, value).contains_key(q) by {
                        if self@.contains_key(q) {
                            let m = choose|m: int| 0 <= m < self.entries@.len() && (#[trigger] self.entries@[m]).0@ == q;
                            if m < n {
                                assert(old_entries[m].0@ == q);
                            }
                        }
                        if before.contains_key(q) {
                            let m = choose|m: int| 0 <= m < old_entries.len() && (#[trigger] old_entries[m]).0@ == q;
                            assert(self.entries@[m].0@ == q);
                        }
                        if q == k {
                            assert(self.entries@[n].0@ == q);
                        }
                    }
                    assert forall|q: Seq<char>| #[trigger] self@.contains_key(q) implies self@[q] == before.insert(k, value)[q] by {
                        let m = choose|m: int| 0 <= m < self.entries@.len() && (#[trigger] self.entries@[m]).0@ == q;
                        self.lemma_view_at(m);
                        if q != k {
                            assert(m < n);
                            lemma_entries_map_at(old_entries, m);
                        }
                    }
                    assert(self@ =~= before.insert(k, value));
                }
            },
        }
    }

    /// Removes `name` and its value.
    pub fn remove(&mut self, name: &str)
        requires
            old(self).wf(),
        ensures
            final(self).wf(),
            final(self)@ == old(self)@.remove(name@),
    {
        let ghost before = self@;
        let ghost old_entries = self.entries@;
        match self.position(name) {
            Some(i) => {
                self.entries.remove(i);
                proof {
                    assert forall|a: int, b: int|
                        0 <= a < b < self.entries@.len() implies (#[trigger] self.entries@[a]).0@
                        != (#[trigger] self.entries@[b]).0@ by {
                        let oa = if a < i { a } else { a + 1 };
                        let ob = if b < i { b } else { b + 1 };
                        assert(self.entries@[a] == old_entries[oa]);
                        assert(self.entries@[b] == old_entries[ob]);
                        assert(old_entries[oa].0@ != old_entries[ob].0@);
                    }
                    assert forall|q: Seq<char>| #[trigger] self@.contains_key(q) <==> before.remove(name@).contains_key(q) by {
                        if self@.contains_key(q) {
                            let m = choose|m: int| 0 <= m < self.entries@.len() && (#[trigger] self.entries@[m]).0@ == q;
                            let om = if m < i { m } else { m + 1 };
                            assert(self.entries@[m] == old_entries[om]);
                            assert(old_entries[om].0@ == q);
                            assert(om != i);
                            assert(old_entries[om].0@ != old_entries[i as int].0@);
                        }
                        if before.remove(name@).contains_key(q) {
                            let m = choose|m: int| 0 <= m < old_entries.len() && (#[trigger] old_entries[m]).0@ == q;
                            assert(m != i);
                            let nm = if m < i { m } else { m - 1 };
                            assert(self.entries@[nm] == old_entries[m]);
                        }
                    }
                    assert forall|q: Seq<char>| #[trigger] self@.contains_key(q) implies self@[q] == before.remove(name@)[q] by {
                        let m = choose|m: int| 0 <= m < self.entries@.len() && (#[trigger] self.entries@[m]).0@ == q;
                        self.lemma_view_at(m);
                        let om = if m < i { m } else { m + 1 };
                        assert(self.entries@[m] == old_entries[om]);
                        lemma_entries_map_at(old_entries, om);
                    }
                    assert(self@ =~= before.remove(name@));
                }
            },
            None => {
                assert(self@ =~= before.remove(name@));
            },
        }
    }

    /// Removes every entry.
    pub fn clear(&mut self)
        ensures
            final(self).wf(),
            final(self)@ == Map::<Seq<char>, V>::empty(),
    {
        self.entries = Vec::new();
        assert(self@ =~= Map::<Seq<char>, V>::empty());
    }

    /// The entries, in insertion order.
    pub fn entries(&self) -> (r: &Vec<(String, V)>)
        requires
            self.wf(),
        ensures
            forall|i: int| 0 <= i < r@.len() ==> self@.contains_key((#[trigger] r@[i]).0@) && self@[r@[i].0@] == r@[i].1,
            forall|k: Seq<char>| self@.contains_key(k) ==> exists|i: int| 0 <= i < r@.len() && (#[trigger] r@[i]).0@ == k,
    {
        proof {
            assert forall|i: int| 0 <= i < self.entries@.len() implies self@.contains_key(
                (#[trigger] self.entries@[i]).0@,
            ) && self@[self.entries@[i].0@] == self.entries@[i].1 by {
                self.lemma_view_at(i);
            }
        }
        &self.entries
    }
}

} // verus!
