//! Process identifiers.

use vstd::prelude::*;
use vstd::std_specs::cmp::PartialEqSpecImpl;

verus! {

/// Identifies at most one live process of a registry at a time. A value type:
/// copied freely, never mutated, compared field by field.
#[derive(Debug)]
pub struct Pid {
    pub address: String,
    pub id: String,
    pub request_id: u32,
}

/// A `Pid` with text as sequences of characters.
pub struct PidView {
    pub address: Seq<char>,
    pub id: Seq<char>,
    pub request_id: u32,
}

impl View for Pid {
    type V = PidView;

    open spec fn view(&self) -> PidView {
        PidView { address: self.address@, id: self.id@, request_id: self.request_id }
    }
}

impl Clone for Pid {
    fn clone(&self) -> (r: Self)
        ensures
            r == *self,
    {
        Pid { address: self.address.clone(), id: self.id.clone(), request_id: self.request_id }
    }
}

impl PartialEq for Pid {
    fn eq(&self, other: &Self) -> (r: bool) {
        self.address == other.address && self.id == other.id && self.request_id == other.request_id
    }
}

impl Eq for Pid {}

impl PartialEqSpecImpl for Pid {
    open spec fn obeys_eq_spec() -> bool {
        true
    }

    open spec fn eq_spec(&self, other: &Self) -> bool {
        self@ == other@
    }
}

impl Pid {
    /// A local identifier: the given address and id, request counter zero.
    pub fn new(address: &str, id: &str) -> (p: Self)
        ensures
            p@ == (PidView { address: address@, id: id@, request_id: 0 }),
    {
        Pid { address: address.to_owned(), id: id.to_owned(), request_id: 0 }
    }

    /// Comparison by value.
    pub fn same_as(&self, other: &Pid) -> (r: bool)
        ensures
            r == (self@ == other@),
    {
        self.address == other.address && self.id == other.id && self.request_id == other.request_id
    }

    pub fn address(&self) -> (a: &String)
        ensures
            a@ == self@.address,
    {
        &self.address
    }

    pub fn id(&self) -> (i: &String)
        ensures
            i@ == self@.id,
    {
        &self.id
    }
}

/// Whether two optional identifiers are both absent or equal by value.
pub open spec fn same_pid(a: Option<Pid>, b: Option<Pid>) -> bool {
    match (a, b) {
        (Some(p), Some(q)) => p@ == q@,
        (None, None) => true,
        _ => false,
    }
}

/// Compares two optional identifiers by value.
pub fn pids_match(a: &Option<Pid>, b: &Option<Pid>) -> (r: bool)
    ensures
        r == same_pid(*a, *b),
{
    match (a, b) {
        (Some(p), Some(q)) => p.same_as(q),
        (None, None) => true,
        _ => false,
    }
}

/// The views of a sequence of identifiers, in order.
pub open spec fn pid_views(pids: Seq<Pid>) -> Seq<PidView> {
    pids.map_values(|p: Pid| p@)
}

/// A copy of a list of identifiers.
pub fn clone_pids(pids: &Vec<Pid>) -> (r: Vec<Pid>)
    ensures
        r@ == pids@,
{
    let mut out: Vec<Pid> = Vec::new();
    let mut i: usize = 0;
    while i < pids.len()
        invariant
            i <= pids.len(),
            out@ == pids@.subrange(0, i as int),
        decreases pids.len() - i,
    {
        out.push(pids[i].clone());
        assert(pids@.subrange(0, i as int).push(pids@[i as int]) =~= pids@.subrange(0, i + 1));
        i = i + 1;
    }
    assert(pids@.subrange(0, pids@.len() as int) =~= pids@);
    out
}

} // verus!
