//! Message headers: a mapping from text to text.

use vstd::prelude::*;

verus! {

/// Headers of a message envelope. Each key occurs once.
#[derive(Debug)]
pub struct MessageHeaders {
    entries: Vec<(String, String)>,
}

/// The keys of the entries, in order.
pub open spec fn entry_keys(entries: Seq<(String, String)>) -> Seq<Seq<char>> {
    entries.map_values(|e: (String, String)| e.0@)
}

/// The mapping that a list of entries with distinct keys stands for.
pub open spec fn entries_map(entries: Seq<(String, String)>) -> Map<Seq<char>, Seq<char>> {
    Map::new(
        |k: Seq<char>| entry_keys(entries).contains(k),
        |k: Seq<char>| entries[entry_keys(entries).index_of(k)].1@,
    )
}

impl View for MessageHeaders {
    type V = Map<Seq<char>, Seq<char>>;

    closed spec fn view(&self) -> Map<Seq<char>, Seq<char>> {
        entries_map(self.entries@)
    }
}

proof fn lookup(entries: Seq<(String, String)>, i: int)
    requires
        entry_keys(entries).no_duplicates(),
        0 <= i < entries.len(),
    ensures
        entries_map(entries).contains_key(entries[i].0@),
        entries_map(entries)[entries[i].0@] == entries[i].1@,
        entry_keys(entries).index_of(entries[i].0@) == i,
{
    let keys = entry_keys(entries);
    assert(keys[i] == entries[i].0@);
    assert(keys.contains(entries[i].0@));
    let j = keys.index_of(entries[i].0@);
    assert(0 <= j < keys.len() && keys[j] == entries[i].0@);
}

proof fn domain_size(entries: Seq<(String, String)>)
    requires
        entry_keys(entries).no_duplicates(),
    ensures
        entries_map(entries).dom().finite(),
        entries_map(entries).dom().len() == entries.len(),
    decreases entries.len(),
{
    if entries.len() == 0 {
        assert(entries_map(entries).dom() =~= Set::<Seq<char>>::empty());
    } else {
        let rest = entries.drop_last();
        let last = entries.last();
        assert(entry_keys(rest) =~= entry_keys(entries).drop_last());
        assert forall|a: int, b: int|
            0 <= a < entry_keys(rest).len() && 0 <= b < entry_keys(rest).len() && a != b implies entry_keys(
            rest,
        )[a] != entry_keys(rest)[b] by {
            assert(entry_keys(entries)[a] != entry_keys(entries)[b]);
        }
        domain_size(rest);
        lookup(entries, entries.len() - 1);
        assert(!entries_map(rest).dom().contains(last.0@)) by {
            if entry_keys(rest).contains(last.0@) {
                let j = entry_keys(rest).index_of(last.0@);
                assert(entry_keys(entries)[j] == entry_keys(entries)[entries.len() - 1]);
            }
        }
        assert(entries_map(entries).dom() =~= entries_map(rest).dom().insert(last.0@)) by {
            assert forall|k: Seq<char>| entries_map(entries).dom().contains(k) == entries_map(
                rest,
            ).dom().insert(last.0@).contains(k) by {
                if entry_keys(entries).contains(k) {
                    let j = entry_keys(entries).index_of(k);
                    if j < rest.len() {
                        assert(entry_keys(rest)[j] == k);
                    }
                } else if entry_keys(rest).contains(k) {
                    let j = entry_keys(rest).index_of(k);
                    assert(entry_keys(entries)[j] == k);
                }
            }
        }
    }
}

impl MessageHeaders {
    /// The invariant of the headers: no key occurs twice.
    #[verifier::type_invariant]
    closed spec fn wf(&self) -> bool {
        entry_keys(self.entries@).no_duplicates()
    }

    /// How many keys the headers map.
    pub open spec fn entry_count(&self) -> nat {
        self@.dom().len()
    }

    /// Headers without entries.
    pub fn new() -> (h: Self)
        ensures
            h@ == Map::<Seq<char>, Seq<char>>::empty(),
    {
        let entries: Vec<(String, String)> = Vec::new();
        assert(entries_map(entries@) =~= Map::<Seq<char>, Seq<char>>::empty());
        MessageHeaders { entries }
    }

    fn position(&self, key: &str) -> (r: Option<usize>)
        ensures
            match r {
                Some(i) => i < self.entries@.len() && self.entries@[i as int].0@ == key@,
                None => !self@.contains_key(key@),
            },
    {
        let mut i: usize = 0;
        while i < self.entries.len()
            invariant
                i <= self.entries.len(),
                forall|k: int| 0 <= k < i ==> (#[trigger] self.entries@[k]).0@ != key@,
            decreases self.entries.len() - i,
        {
            if crate::text::str_eq(self.entries[i].0.as_str(), key) {
                return Some(i);
            }
            i = i + 1;
        }
        proof {
            let keys = entry_keys(self.entries@);
            if keys.contains(key@) {
                let j = choose|j: int| 0 <= j < keys.len() && keys[j] == key@;
                assert(self.entries@[j].0@ == key@);
            }
        }
        None
    }

    /// The value stored under `key`, if there is one.
    pub fn get(&self, key: &str) -> (r: Option<&String>)
        ensures
            match r {
                Some(v) => self@.contains_key(key@) && v@ == self@[key@],
                None => !self@.contains_key(key@),
            },
    {
        match self.position(key) {
            Some(i) => {
                proof {
                    use_type_invariant(self);
                    lookup(self.entries@, i as int);
                }
                Some(&self.entries[i].1)
            },
            None => None,
        }
    }

    /// Stores `value` under `key`, in place of what was stored there.
    pub fn set(&mut self, key: String, value: String)
        ensures
            final(self)@ == old(self)@.insert(key@, value@),
    {
        proof {
            use_type_invariant(&*self);
        }
        let ghost before = self.entries@;
        let ghost k = key@;
        let ghost v = value@;
        let found = self.position(key.as_str());
        let mut entries: Vec<(String, String)> = Vec::new();
        assert(entry_keys(entries@) =~= Seq::<Seq<char>>::empty());
        std::mem::swap(&mut self.entries, &mut entries);
        match found {
            Some(i) => {
                entries.set(i, (key, value));
                proof {
                    let after = entries@;
                    assert(entry_keys(after) =~= entry_keys(before));
                    assert forall|q: Seq<char>| #[trigger]
                        entries_map(after).contains_key(q) == entries_map(before).insert(k, v).contains_key(
                            q,
                        ) by {
                        lookup(before, i as int);
                    }
                    assert forall|q: Seq<char>| entries_map(after).contains_key(q) implies #[trigger]
                        entries_map(after)[q] == entries_map(before).insert(k, v)[q] by {
                        let j = entry_keys(after).index_of(q);
                        lookup(after, i as int);
                        if q != k {
                            assert(j != i);
                            assert(after[j] == before[j]);
                        }
                    }
                    assert(entries_map(after) =~= entries_map(before).insert(k, v));
                }
            },
            None => {
                entries.push((key, value));
                proof {
                    let after = entries@;
                    assert(entry_keys(after) =~= entry_keys(before).push(k));
                    assert(!entry_keys(before).contains(k));
                    assert forall|a: int, b: int|
                        0 <= a < entry_keys(after).len() && 0 <= b < entry_keys(after).len() && a
                            != b implies entry_keys(after)[a] != entry_keys(after)[b] by {
                        if a < before.len() && b < before.len() {
                            assert(entry_keys(before)[a] != entry_keys(before)[b]);
                        } else if a < before.len() {
                            assert(entry_keys(before).contains(entry_keys(before)[a]));
                        } else {
                            assert(entry_keys(before).contains(entry_keys(before)[b]));
                        }
                    }
                    assert forall|q: Seq<char>| #[trigger]
                        entries_map(after).contains_key(q) == entries_map(before).insert(k, v).contains_key(
                            q,
                        ) by {
                        if q == k {
                            assert(entry_keys(after)[before.len() as int] == k);
                        } else if entry_keys(before).contains(q) {
                            let j = entry_keys(before).index_of(q);
                            assert(entry_keys(after)[j] == q);
                        } else if entry_keys(after).contains(q) {
                            let j = entry_keys(after).index_of(q);
                            assert(j < before.len());
                            assert(entry_keys(before)[j] == q);
                        }
                    }
                    assert forall|q: Seq<char>| entries_map(after).contains_key(q) implies #[trigger]
                        entries_map(after)[q] == entries_map(before).insert(k, v)[q] by {
                        let j = entry_keys(after).index_of(q);
                        lookup(after, j);
                        if q != k {
                            assert(j < before.len());
                            assert(entry_keys(before)[j] == q);
                            lookup(before, j);
                        } else {
                            lookup(after, before.len() as int);
                        }
                    }
                    assert(entries_map(after) =~= entries_map(before).insert(k, v));
                }
            },
        }
        self.entries = entries;
    }

    /// The number of entries.
    pub fn len(&self) -> (n: usize)
        ensures
            n == self.entry_count(),
            self@.dom().finite(),
    {
        proof {
            use_type_invariant(self);
            domain_size(self.entries@);
        }
        self.entries.len()
    }

    /// Whether both headers map the same keys to the same values.
    pub fn same_as(&self, other: &MessageHeaders) -> (r: bool)
        ensures
            r == (self@ == other@),
    {
        proof {
            use_type_invariant(self);
            use_type_invariant(other);
            domain_size(self.entries@);
            domain_size(other.entries@);
        }
        if self.entries.len() != other.entries.len() {
            return false;
        }
        let mut i: usize = 0;
        while i < self.entries.len()
            invariant
                i <= self.entries.len(),
                entry_keys(self.entries@).no_duplicates(),
                forall|k: int|
                    0 <= k < i ==> other@.contains_key((#[trigger] self.entries@[k]).0@) && other@[self.entries@[k].0@]
                        == self.entries@[k].1@,
            decreases self.entries.len() - i,
        {
            proof {
                lookup(self.entries@, i as int);
            }
            let found = other.get(self.entries[i].0.as_str());
            match found {
                Some(v) => {
                    if !(*v == self.entries[i].1) {
                        return false;
                    }
                },
                None => {
                    return false;
                },
            }
            i = i + 1;
        }
        proof {
            assert forall|k: Seq<char>| self@.contains_key(k) implies other@.contains_key(k) && other@[k]
                == self@[k] by {
                let j = entry_keys(self.entries@).index_of(k);
                assert(entry_keys(self.entries@)[j] == k);
                lookup(self.entries@, j);
            }
            assert(self@.dom().subset_of(other@.dom()));
            vstd::set_lib::lemma_subset_equality(self@.dom(), other@.dom());
            assert(self@ =~= other@);
        }
        true
    }

    /// A copy of the headers.
    pub fn duplicate(&self) -> (h: Self)
        ensures
            h@ == self@,
    {
        proof {
            use_type_invariant(self);
        }
        let mut entries: Vec<(String, String)> = Vec::new();
        let mut i: usize = 0;
        while i < self.entries.len()
            invariant
                i <= self.entries.len(),
                entries@ == self.entries@.subrange(0, i as int),
            decreases self.entries.len() - i,
        {
            let k = self.entries[i].0.clone();
            let v = self.entries[i].1.clone();
            entries.push((k, v));
            assert(self.entries@.subrange(0, i as int).push(self.entries@[i as int])
                =~= self.entries@.subrange(0, i + 1));
            i = i + 1;
        }
        assert(self.entries@.subrange(0, self.entries@.len() as int) =~= self.entries@);
        MessageHeaders { entries }
    }
}

impl Clone for MessageHeaders {
    /// A copy that maps the same keys to the same values.
    fn clone(&self) -> (h: Self)
        ensures
            h@ == self@,
    {
        self.duplicate()
    }
}

} // verus!
