//! A set of process identifiers, kept in the order in which they were added.

use crate::pid::{pid_views, Pid, PidView};
use vstd::prelude::*;

verus! {

/// Identifiers without repetition.
#[derive(Debug)]
pub struct PidSet {
    pids: Vec<Pid>,
}

impl View for PidSet {
    type V = Seq<PidView>;

    closed spec fn view(&self) -> Seq<PidView> {
        pid_views(self.pids@)
    }
}

impl PidSet {
    #[verifier::type_invariant]
    closed spec fn wf(&self) -> bool {
        pid_views(self.pids@).no_duplicates()
    }

    /// The empty set.
    pub fn new() -> (s: Self)
        ensures
            s@ == Seq::<PidView>::empty(),
    {
        let pids: Vec<Pid> = Vec::new();
        assert(pid_views(pids@) =~= Seq::<PidView>::empty());
        PidSet { pids }
    }

    pub fn len(&self) -> (n: usize)
        ensures
            n == self@.len(),
    {
        self.pids.len()
    }

    pub fn is_empty(&self) -> (r: bool)
        ensures
            r == (self@.len() == 0),
    {
        self.pids.len() == 0
    }

    fn position(&self, pid: &Pid) -> (r: Option<usize>)
        ensures
            self@.no_duplicates(),
            match r {
                Some(i) => i < self@.len() && self@[i as int] == pid@ && self@.index_of(pid@) == i,
                None => !self@.contains(pid@),
            },
    {
        proof {
            use_type_invariant(self);
        }
        let mut i: usize = 0;
        while i < self.pids.len()
            invariant
                i <= self.pids.len(),
                self@.no_duplicates(),
                forall|k: int| 0 <= k < i ==> #[trigger] self@[k] != pid@,
            decreases self.pids.len() - i,
        {
            if self.pids[i].same_as(pid) {
                assert(self@[i as int] == pid@);
                assert(self@.contains(pid@));
                let ghost j = self@.index_of(pid@);
                assert(self@[j] == self@[i as int]);
                return Some(i);
            }
            i = i + 1;
        }
        None
    }

    /// Whether `pid` is in the set.
    pub fn contains(&self, pid: &Pid) -> (r: bool)
        ensures
            r == self@.contains(pid@),
    {
        self.position(pid).is_some()
    }

    /// Adds `pid` unless it is in the set already. Returns whether it was
    /// added.
    pub fn add(&mut self, pid: Pid) -> (added: bool)
        ensures
            added == !old(self)@.contains(pid@),
            added ==> final(self)@ == old(self)@.push(pid@),
            !added ==> final(self)@ == old(self)@,
            final(self)@.no_duplicates(),
    {
        if self.position(&pid).is_some() {
            return false;
        }
        let ghost before = self@;
        let mut pids: Vec<Pid> = Vec::new();
        assert(pid_views(pids@) =~= Seq::<PidView>::empty());
        std::mem::swap(&mut self.pids, &mut pids);
        pids.push(pid);
        proof {
            let after = pid_views(pids@);
            assert(after =~= before.push(pid@));
            assert forall|a: int, b: int| 0 <= a < after.len() && 0 <= b < after.len() && a != b implies after[a]
                != after[b] by {
                if a < before.len() && b < before.len() {
                    assert(before[a] != before[b]);
                } else if a < before.len() {
                    assert(before.contains(before[a]));
                } else {
                    assert(before.contains(before[b]));
                }
            }
        }
        self.pids = pids;
        true
    }

    /// Takes `pid` out of the set. Returns whether it was in it.
    pub fn remove(&mut self, pid: &Pid) -> (removed: bool)
        ensures
            removed == old(self)@.contains(pid@),
            removed ==> final(self)@ == old(self)@.remove(old(self)@.index_of(pid@)),
            !removed ==> final(self)@ == old(self)@,
            final(self)@.no_duplicates(),
            !final(self)@.contains(pid@),
    {
        match self.position(pid) {
            Some(i) => {
                let ghost before = self@;
                let mut pids: Vec<Pid> = Vec::new();
                assert(pid_views(pids@) =~= Seq::<PidView>::empty());
                std::mem::swap(&mut self.pids, &mut pids);
                pids.remove(i);
                proof {
                    let after = pid_views(pids@);
                    assert(after =~= before.remove(i as int));
                    assert forall|a: int, b: int|
                        0 <= a < after.len() && 0 <= b < after.len() && a != b implies after[a] != after[b] by {
                        let a0 = if a < i { a } else { a + 1 };
                        let b0 = if b < i { b } else { b + 1 };
                        assert(before[a0] != before[b0]);
                    }
                    if after.contains(pid@) {
                        let j = choose|j: int| 0 <= j < after.len() && after[j] == pid@;
                        let j0 = if j < i { j } else { j + 1 };
                        assert(before[j0] == before[i as int]);
                    }
                }
                self.pids = pids;
                true
            },
            None => false,
        }
    }

    /// The identifiers of the set, in the order in which they were added.
    pub fn to_vec(&self) -> (r: Vec<Pid>)
        ensures
            pid_views(r@) == self@,
    {
        let mut out: Vec<Pid> = Vec::new();
        let mut i: usize = 0;
        while i < self.pids.len()
            invariant
                i <= self.pids.len(),
                out@ == self.pids@.subrange(0, i as int),
            decreases self.pids.len() - i,
        {
            out.push(self.pids[i].clone());
            assert(self.pids@.subrange(0, i as int).push(self.pids@[i as int]) =~= self.pids@.subrange(
                0,
                i + 1,
            ));
            i = i + 1;
        }
        assert(self.pids@.subrange(0, self.pids@.len() as int) =~= self.pids@);
        out
    }
}

} // verus!
