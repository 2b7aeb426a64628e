//! The process registry: the one owner of the mapping from names to running
//! processes.

use crate::pid::{Pid, PidView};
use crate::text::str_eq;
use vstd::prelude::*;

verus! {

/// The names of the entries, in order.
pub open spec fn entry_names<H>(entries: Seq<(String, H)>) -> Seq<Seq<char>> {
    entries.map_values(|e: (String, H)| e.0@)
}

/// The mapping that a list of entries with distinct names stands for.
pub open spec fn entries_map<H>(entries: Seq<(String, H)>) -> Map<Seq<char>, H> {
    Map::new(
        |k: Seq<char>| entry_names(entries).contains(k),
        |k: Seq<char>| entries[entry_names(entries).index_of(k)].1,
    )
}

proof fn lookup<H>(entries: Seq<(String, H)>, i: int)
    requires
        entry_names(entries).no_duplicates(),
        0 <= i < entries.len(),
    ensures
        entries_map(entries).contains_key(entries[i].0@),
        entries_map(entries)[entries[i].0@] == entries[i].1,
        entry_names(entries).index_of(entries[i].0@) == i,
{
    let names = entry_names(entries);
    assert(names[i] == entries[i].0@);
    assert(names.contains(entries[i].0@));
    let j = names.index_of(entries[i].0@);
    assert(0 <= j < names.len() && names[j] == entries[i].0@);
}

proof fn absent<H>(entries: Seq<(String, H)>, name: Seq<char>)
    requires
        forall|k: int| 0 <= k < entries.len() ==> (#[trigger] entries[k]).0@ != name,
    ensures
        !entries_map(entries).contains_key(name),
{
    let names = entry_names(entries);
    if names.contains(name) {
        let j = choose|j: int| 0 <= j < names.len() && names[j] == name;
        assert(entries[j].0@ == name);
    }
}

proof fn map_after_push<H>(before: Seq<(String, H)>, entry: (String, H))
    requires
        entry_names(before).no_duplicates(),
        !entries_map(before).contains_key(entry.0@),
    ensures
        entry_names(before.push(entry)).no_duplicates(),
        entries_map(before.push(entry)) == entries_map(before).insert(entry.0@, entry.1),
{
    let after = before.push(entry);
    let k = entry.0@;
    assert(entry_names(after) =~= entry_names(before).push(k));
    assert(!entry_names(before).contains(k));
    assert forall|a: int, b: int|
        0 <= a < entry_names(after).len() && 0 <= b < entry_names(after).len() && a != b implies entry_names(
        after,
    )[a] != entry_names(after)[b] by {
        if a < before.len() && b < before.len() {
            assert(entry_names(before)[a] != entry_names(before)[b]);
        } else if a < before.len() {
            assert(entry_names(before).contains(entry_names(before)[a]));
        } else {
            assert(entry_names(before).contains(entry_names(before)[b]));
        }
    }
    assert forall|q: Seq<char>| #[trigger]
        entries_map(after).contains_key(q) == entries_map(before).insert(k, entry.1).contains_key(q) by {
        if q == k {
            assert(entry_names(after)[before.len() as int] == k);
        } else if entry_names(before).contains(q) {
            let j = entry_names(before).index_of(q);
            assert(entry_names(after)[j] == q);
        } else if entry_names(after).contains(q) {
            let j = entry_names(after).index_of(q);
            assert(j < before.len());
            assert(entry_names(before)[j] == q);
        }
    }
    assert forall|q: Seq<char>| entries_map(after).contains_key(q) implies #[trigger] entries_map(after)[q]
        == entries_map(before).insert(k, entry.1)[q] by {
        let j = entry_names(after).index_of(q);
        lookup(after, j);
        if q != k {
            assert(j < before.len());
            assert(entry_names(before)[j] == q);
            lookup(before, j);
        } else {
            lookup(after, before.len() as int);
        }
    }
    assert(entries_map(after) =~= entries_map(before).insert(k, entry.1));
}

proof fn map_after_remove<H>(before: Seq<(String, H)>, i: int)
    requires
        entry_names(before).no_duplicates(),
        0 <= i < before.len(),
    ensures
        entry_names(before.remove(i)).no_duplicates(),
        entries_map(before.remove(i)) == entries_map(before).remove(before[i].0@),
{
    let after = before.remove(i);
    let k = before[i].0@;
    assert(entry_names(after) =~= entry_names(before).remove(i));
    assert forall|a: int, b: int|
        0 <= a < entry_names(after).len() && 0 <= b < entry_names(after).len() && a != b implies entry_names(
        after,
    )[a] != entry_names(after)[b] by {
        let a0 = if a < i { a } else { a + 1 };
        let b0 = if b < i { b } else { b + 1 };
        assert(entry_names(before)[a0] != entry_names(before)[b0]);
    }
    assert forall|q: Seq<char>| #[trigger]
        entries_map(after).contains_key(q) == entries_map(before).remove(k).contains_key(q) by {
        if entry_names(after).contains(q) {
            let j = entry_names(after).index_of(q);
            let j0 = if j < i { j } else { j + 1 };
            assert(entry_names(before)[j0] == q);
            assert(entry_names(before)[i] == k);
            assert(q != k);
        } else if q != k && entry_names(before).contains(q) {
            let j0 = entry_names(before).index_of(q);
            assert(entry_names(before)[i] == k);
            assert(j0 != i);
            let j = if j0 < i { j0 } else { j0 - 1 };
            assert(entry_names(after)[j] == q);
        }
    }
    assert forall|q: Seq<char>| entries_map(after).contains_key(q) implies #[trigger] entries_map(after)[q]
        == entries_map(before).remove(k)[q] by {
        let j = entry_names(after).index_of(q);
        lookup(after, j);
        let j0 = if j < i { j } else { j + 1 };
        assert(entry_names(before)[j0] == q);
        lookup(before, j0);
    }
    assert(entries_map(after) =~= entries_map(before).remove(k));
}

/// Maps the name of each running process to its handle. A name is held by at
/// most one process at a time.
pub struct ProcessRegistry<H> {
    address: String,
    entries: Vec<(String, H)>,
}

impl<H> View for ProcessRegistry<H> {
    type V = Map<Seq<char>, H>;

    closed spec fn view(&self) -> Map<Seq<char>, H> {
        entries_map(self.entries@)
    }
}

impl<H> ProcessRegistry<H> {
    #[verifier::type_invariant]
    closed spec fn wf(&self) -> bool {
        entry_names(self.entries@).no_duplicates()
    }

    /// The address that the identifiers of this registry carry.
    pub closed spec fn address(&self) -> Seq<char> {
        self.address@
    }

    /// The identifier that this registry gives to the name `name`.
    pub open spec fn pid_of(&self, name: Seq<char>) -> PidView {
        PidView { address: self.address(), id: name, request_id: 0 }
    }

    /// Whether `pid` names a process of this registry.
    pub open spec fn resolves(&self, pid: PidView) -> bool {
        pid.address == self.address() && self@.contains_key(pid.id)
    }

    /// An empty registry for the given address.
    pub fn new(address: String) -> (r: Self)
        ensures
            r@ == Map::<Seq<char>, H>::empty(),
            r.address() == address@,
    {
        let entries: Vec<(String, H)> = Vec::new();
        assert(entries_map(entries@) =~= Map::<Seq<char>, H>::empty());
        ProcessRegistry { address, entries }
    }

    pub fn get_address(&self) -> (a: String)
        ensures
            a@ == self.address(),
    {
        self.address.clone()
    }

    /// The number of registered processes.
    pub fn len(&self) -> (n: usize)
        ensures
            n == self@.dom().len(),
            self@.dom().finite(),
    {
        proof {
            use_type_invariant(self);
            domain_size(self.entries@);
        }
        self.entries.len()
    }

    fn position(&self, name: &str) -> (r: Option<usize>)
        ensures
            match r {
                Some(i) => i < self.entries@.len() && self.entries@[i as int].0@ == name@
                    && self@.contains_key(name@) && self@[name@] == self.entries@[i as int].1,
                None => !self@.contains_key(name@),
            },
    {
        proof {
            use_type_invariant(self);
        }
        let mut i: usize = 0;
        while i < self.entries.len()
            invariant
                i <= self.entries.len(),
                forall|k: int| 0 <= k < i ==> (#[trigger] self.entries@[k]).0@ != name@,
                entry_names(self.entries@).no_duplicates(),
            decreases self.entries.len() - i,
        {
            if str_eq(self.entries[i].0.as_str(), name) {
                proof {
                    lookup(self.entries@, i as int);
                }
                return Some(i);
            }
            i = i + 1;
        }
        proof {
            absent(self.entries@, name@);
        }
        None
    }

    /// Registers `handle` under `name`, unless a process holds that name
    /// already. Returns the identifier that belongs to the name and whether
    /// the handle was registered; if it was not, the registry is unchanged
    /// and the handle is dropped.
    pub fn add_process(&mut self, handle: H, name: &str) -> (r: (Pid, bool))
        ensures
            r.0@ == old(self).pid_of(name@),
            r.1 == !old(self)@.contains_key(name@),
            r.1 ==> final(self)@ == old(self)@.insert(name@, handle),
            !r.1 ==> *final(self) == *old(self),
            final(self).address() == old(self).address(),
    {
        let pid = Pid::new(self.address.as_str(), name);
        if self.position(name).is_some() {
            return (pid, false);
        }
        proof {
            use_type_invariant(&*self);
        }
        let ghost before = self.entries@;
        let mut entries: Vec<(String, H)> = Vec::new();
        assert(entry_names(entries@) =~= Seq::<Seq<char>>::empty());
        std::mem::swap(&mut self.entries, &mut entries);
        let entry = (name.to_owned(), handle);
        proof {
            map_after_push(before, entry);
        }
        entries.push(entry);
        self.entries = entries;
        (pid, true)
    }

    /// The handle of the process that `pid` names, if there is one.
    pub fn get(&self, pid: &Pid) -> (r: Option<&H>)
        ensures
            match r {
                Some(h) => self.resolves(pid@) && *h == self@[pid@.id],
                None => !self.resolves(pid@),
            },
    {
        if !(pid.address == self.address) {
            return None;
        }
        match self.position(pid.id.as_str()) {
            Some(i) => {
                proof {
                    use_type_invariant(self);
                    lookup(self.entries@, i as int);
                }
                Some(&self.entries[i].1)
            },
            None => None,
        }
    }

    /// Whether `pid` names a registered process.
    pub fn contains(&self, pid: &Pid) -> (r: bool)
        ensures
            r == self.resolves(pid@),
    {
        self.get(pid).is_some()
    }

    /// Takes the process that `pid` names out of the registry and returns
    /// its handle. From then on the identifier names nothing.
    pub fn remove(&mut self, pid: &Pid) -> (r: Option<H>)
        ensures
            final(self).address() == old(self).address(),
            match r {
                Some(h) => old(self).resolves(pid@) && h == old(self)@[pid@.id] && final(self)@ == old(
                    self,
                )@.remove(pid@.id),
                None => !old(self).resolves(pid@) && *final(self) == *old(self),
            },
    {
        if !(pid.address == self.address) {
            return None;
        }
        match self.position(pid.id.as_str()) {
            Some(i) => {
                proof {
                    use_type_invariant(&*self);
                    lookup(self.entries@, i as int);
                    map_after_remove(self.entries@, i as int);
                }
                let mut entries: Vec<(String, H)> = Vec::new();
                assert(entry_names(entries@) =~= Seq::<Seq<char>>::empty());
                std::mem::swap(&mut self.entries, &mut entries);
                let entry = entries.remove(i);
                self.entries = entries;
                Some(entry.1)
            },
            None => None,
        }
    }
}

proof fn domain_size<H>(entries: Seq<(String, H)>)
    requires
        entry_names(entries).no_duplicates(),
    ensures
        entries_map(entries).dom().finite(),
        entries_map(entries).dom().len() == entries.len(),
    decreases entries.len(),
{
    if entries.len() == 0 {
        assert(entries_map(entries).dom() =~= Set::<Seq<char>>::empty());
    } else {
        let i = entries.len() - 1;
        map_after_remove(entries, i);
        let rest = entries.remove(i);
        assert(rest =~= entries.drop_last());
        domain_size(rest);
        lookup(entries, i);
        assert(entries_map(entries).dom() =~= entries_map(rest).dom().insert(entries[i].0@));
        assert(!entries_map(rest).dom().contains(entries[i].0@));
    }
}

} // verus!
