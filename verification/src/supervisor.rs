//! The supervision engine: strategies that turn the failure of a child into a
//! directive, and the record that a parent keeps of its children.

use crate::pid::{Pid, PidView};
use crate::restart_statistics::{failures_within, RestartStatistics};
use vstd::prelude::*;

verus! {

/// What a supervisor does about a failed child.
#[derive(Clone, Copy, Debug, PartialEq, Eq, Structural)]
pub enum Directive {
    Resume,
    Restart,
    Stop,
    Escalate,
}

impl Directive {
    pub open spec fn label(self) -> Seq<char> {
        match self {
            Directive::Resume => "ResumeDirective"@,
            Directive::Restart => "RestartDirective"@,
            Directive::Stop => "StopDirective"@,
            Directive::Escalate => "EscalateDirective"@,
        }
    }

    /// The text that the directive is displayed as.
    pub fn as_str(&self) -> (r: &'static str)
        ensures
            r@ == self.label(),
    {
        match self {
            Directive::Resume => "ResumeDirective",
            Directive::Restart => "RestartDirective",
            Directive::Stop => "StopDirective",
            Directive::Escalate => "EscalateDirective",
        }
    }
}

/// A policy that maps the failure of a child, and its restart history, to a
/// directive. Durations are nanoseconds.
#[derive(Clone, Copy, Debug, PartialEq, Eq, Structural)]
pub enum SupervisorStrategy {
    /// Judges the failing child alone and acts on it alone.
    OneForOne { max_retries: u32, within_duration: u64 },
    /// Judges the failing child and acts on every child of the same parent.
    AllForOne { max_retries: u32, within_duration: u64 },
    /// Always restarts, whatever the history.
    Restarting,
    /// Always restarts, after a delay that doubles with each failure.
    ExponentialBackoff { backoff_window: u64, initial_backoff: u64 },
}

/// Retries that the default strategy allows.
pub const DEFAULT_MAX_RETRIES: u32 = 10;

/// Window of the default strategy: ten seconds.
pub const DEFAULT_WITHIN_DURATION: u64 = 10_000_000_000;

/// Two to the power `k`.
pub open spec fn pow2n(k: nat) -> nat
    decreases k,
{
    if k == 0 {
        1
    } else {
        2 * pow2n((k - 1) as nat)
    }
}

/// The delay before the restart that follows the `failures`-th failure in a
/// row: the initial delay, doubled for each failure after the first, and cut
/// off at the largest 64-bit value.
pub open spec fn backoff_delay(initial: u64, failures: nat) -> u64 {
    let doublings: nat = if failures == 0 {
        0
    } else {
        (failures - 1) as nat
    };
    if initial * pow2n(doublings) > u64::MAX {
        u64::MAX
    } else {
        (initial * pow2n(doublings)) as u64
    }
}

proof fn pow2n_positive(k: nat)
    ensures
        pow2n(k) >= 1,
    decreases k,
{
    if k > 0 {
        pow2n_positive((k - 1) as nat);
    }
}

proof fn pow2n_monotonic(j: nat, k: nat)
    requires
        j <= k,
    ensures
        pow2n(j) <= pow2n(k),
    decreases k,
{
    if j < k {
        pow2n_monotonic(j, (k - 1) as nat);
    }
}

/// Each further failure doubles the delay, as long as the doubled delay fits
/// into 64 bits.
pub proof fn backoff_delay_doubles(initial: u64, failures: nat)
    requires
        failures >= 1,
        2 * backoff_delay(initial, failures) <= u64::MAX,
    ensures
        backoff_delay(initial, failures + 1) == 2 * backoff_delay(initial, failures),
        backoff_delay(initial, 1) == initial,
{
    let k = (failures - 1) as nat;
    assert(pow2n(failures) == 2 * pow2n(k));
    assert(initial * pow2n(failures) == 2 * (initial * pow2n(k))) by (nonlinear_arith)
        requires
            pow2n(failures) == 2 * pow2n(k),
    ;
    assert(pow2n(0) == 1);
    assert(initial * pow2n(0) == initial) by (nonlinear_arith)
        requires
            pow2n(0) == 1,
    ;
}

/// Computes `backoff_delay`.
pub fn compute_backoff_delay(initial: u64, failures: usize) -> (delay: u64)
    ensures
        delay == backoff_delay(initial, failures as nat),
{
    let doublings: usize = if failures == 0 {
        0
    } else {
        failures - 1
    };
    let mut delay: u64 = initial;
    let mut done: usize = 0;
    proof {
        assert(pow2n(0) == 1);
        assert(initial * pow2n(0) == initial) by (nonlinear_arith)
            requires
                pow2n(0) == 1,
        ;
    }
    while done < doublings && delay != 0 && delay != u64::MAX
        invariant
            done <= doublings,
            initial * pow2n(done as nat) <= u64::MAX ==> delay == initial * pow2n(done as nat),
            initial * pow2n(done as nat) > u64::MAX ==> delay == u64::MAX,
        decreases doublings - done,
    {
        proof {
            assert(pow2n((done + 1) as nat) == 2 * pow2n(done as nat));
            assert(initial * pow2n((done + 1) as nat) == 2 * (initial * pow2n(done as nat)))
                by (nonlinear_arith)
                requires
                    pow2n((done + 1) as nat) == 2 * pow2n(done as nat),
            ;
        }
        if delay > u64::MAX / 2 {
            delay = u64::MAX;
        } else {
            delay = delay * 2;
        }
        done = done + 1;
    }
    proof {
        let reached = pow2n(done as nat);
        let wanted = pow2n(doublings as nat);
        pow2n_monotonic(done as nat, doublings as nat);
        pow2n_positive(done as nat);
        if done < doublings {
            if delay == 0 {
                assert(initial == 0) by (nonlinear_arith)
                    requires
                        initial * reached == 0,
                        reached >= 1,
                        initial >= 0,
                ;
                assert(initial * wanted == 0) by (nonlinear_arith)
                    requires
                        initial == 0,
                ;
            } else {
                assert(initial * reached >= u64::MAX);
                assert(pow2n((done + 1) as nat) == 2 * reached);
                pow2n_monotonic((done + 1) as nat, doublings as nat);
                assert(initial * wanted >= initial * (2 * reached)) by (nonlinear_arith)
                    requires
                        wanted >= 2 * reached,
                        initial >= 0,
                ;
                assert(initial * (2 * reached) == 2 * (initial * reached)) by (nonlinear_arith);
            }
        }
    }
    delay
}

/// What a parent knows of one child: its identifier and its failure history.
#[derive(Debug)]
pub struct ChildEntry {
    pub pid: Pid,
    pub stats: RestartStatistics,
}

/// A `ChildEntry` as plain values.
pub struct ChildView {
    pub pid: PidView,
    pub failures: Seq<u64>,
}

impl View for ChildEntry {
    type V = ChildView;

    open spec fn view(&self) -> ChildView {
        ChildView { pid: self.pid@, failures: self.stats@ }
    }
}

/// The position of the child `pid` among `children`, if it is one of them.
pub open spec fn child_index(children: Seq<ChildView>, pid: PidView) -> Option<int> {
    if exists|i: int| 0 <= i < children.len() && children[i].pid == pid {
        Some(choose|i: int| 0 <= i < children.len() && children[i].pid == pid)
    } else {
        None
    }
}

/// No identifier occurs twice.
pub open spec fn distinct_children(children: Seq<ChildView>) -> bool {
    forall|i: int, j: int|
        0 <= i < j < children.len() ==> #[trigger] children[i].pid != #[trigger] children[j].pid
}

/// The identifiers of the children, in the order in which they were added.
pub open spec fn child_pids(children: Seq<ChildView>) -> Seq<PidView> {
    children.map_values(|c: ChildView| c.pid)
}

/// The children of one parent, each with its failure history. The parent is
/// the only one that changes a history.
#[derive(Debug)]
pub struct Children {
    entries: Vec<ChildEntry>,
}

impl View for Children {
    type V = Seq<ChildView>;

    closed spec fn view(&self) -> Seq<ChildView> {
        entry_views(self.entries@)
    }
}

/// The entries as plain values.
pub open spec fn entry_views(entries: Seq<ChildEntry>) -> Seq<ChildView> {
    entries.map_values(|e: ChildEntry| e@)
}

impl Children {
    /// The invariant of the record: no child is listed twice.
    #[verifier::type_invariant]
    closed spec fn wf(&self) -> bool {
        distinct_children(entry_views(self.entries@))
    }

    /// A record without children.
    pub fn new() -> (c: Self)
        ensures
            c@ == Seq::<ChildView>::empty(),
    {
        let entries: Vec<ChildEntry> = Vec::new();
        assert(entry_views(entries@) =~= Seq::<ChildView>::empty());
        Children { entries }
    }


    pub fn len(&self) -> (n: usize)
        ensures
            n == self@.len(),
    {
        self.entries.len()
    }

    /// The position of `pid` in the record.
    pub fn position(&self, pid: &Pid) -> (r: Option<usize>)
        ensures
            distinct_children(self@),
            match r {
                Some(i) => i < self@.len() && self@[i as int].pid == pid@ && child_index(self@, pid@)
                    == Some(i as int),
                None => child_index(self@, pid@) is None,
            },
    {
        proof {
            use_type_invariant(self);
        }
        let mut i: usize = 0;
        while i < self.entries.len()
            invariant
                i <= self.entries.len(),
                distinct_children(self@),
                forall|k: int| 0 <= k < i ==> (#[trigger] self@[k]).pid != pid@,
            decreases self.entries.len() - i,
        {
            if self.entries[i].pid.same_as(pid) {
                proof {
                    assert(self@[i as int].pid == pid@);
                    let c = choose|c: int| 0 <= c < self@.len() && self@[c].pid == pid@;
                    if c < i {
                        assert(self@[c].pid != self@[i as int].pid);
                    } else if c > i {
                        assert(self@[i as int].pid != self@[c].pid);
                    }
                }
                return Some(i);
            }
            i = i + 1;
        }
        None
    }

    pub fn contains(&self, pid: &Pid) -> (r: bool)
        ensures
            r == child_index(self@, pid@).is_some(),
    {
        self.position(pid).is_some()
    }

    /// Lists `pid` as a child with an empty history, unless it is listed
    /// already. Returns whether it was added.
    pub fn add(&mut self, pid: Pid) -> (added: bool)
        ensures
            added == child_index(old(self)@, pid@).is_none(),
            added ==> final(self)@ == old(self)@.push(
                ChildView { pid: pid@, failures: Seq::<u64>::empty() },
            ),
            !added ==> final(self)@ == old(self)@,
    {
        if self.position(&pid).is_some() {
            return false;
        }
        proof {
            use_type_invariant(&*self);
        }
        let ghost before = self@;
        let entry = ChildEntry { pid, stats: RestartStatistics::new() };
        let mut entries: Vec<ChildEntry> = Vec::new();
        assert(entry_views(entries@) =~= Seq::<ChildView>::empty());
        std::mem::swap(&mut self.entries, &mut entries);
        entries.push(entry);
        proof {
            let after = entry_views(entries@);
            assert(after =~= before.push(ChildView { pid: pid@, failures: Seq::<u64>::empty() }));
            assert forall|i: int, j: int| 0 <= i < j < after.len() implies #[trigger] after[i].pid
                != #[trigger] after[j].pid by {
                if j == before.len() {
                    assert(before[i].pid != pid@);
                } else {
                    assert(before[i].pid != before[j].pid);
                }
            }
        }
        self.entries = entries;
        true
    }

    /// Takes `pid` off the record. Returns whether it was listed.
    pub fn remove(&mut self, pid: &Pid) -> (removed: bool)
        ensures
            removed == child_index(old(self)@, pid@).is_some(),
            match child_index(old(self)@, pid@) {
                Some(i) => final(self)@ == old(self)@.remove(i),
                None => final(self)@ == old(self)@,
            },
    {
        match self.position(pid) {
            Some(i) => {
                proof {
                    use_type_invariant(&*self);
                }
                let ghost before = self@;
                let mut entries: Vec<ChildEntry> = Vec::new();
                assert(entry_views(entries@) =~= Seq::<ChildView>::empty());
                std::mem::swap(&mut self.entries, &mut entries);
                entries.remove(i);
                proof {
                    let after = entry_views(entries@);
                    assert(after =~= before.remove(i as int));
                    assert forall|a: int, b: int| 0 <= a < b < after.len() implies #[trigger] after[a].pid
                        != #[trigger] after[b].pid by {
                        let a0 = if a < i { a } else { a + 1 };
                        let b0 = if b < i { b } else { b + 1 };
                        assert(before[a0].pid != before[b0].pid);
                    }
                }
                self.entries = entries;
                true
            },
            None => false,
        }
    }

    /// The identifiers of all children, in the order in which they were added.
    pub fn pids(&self) -> (r: Vec<Pid>)
        ensures
            crate::pid::pid_views(r@) == child_pids(self@),
    {
        let mut out: Vec<Pid> = Vec::new();
        let mut i: usize = 0;
        while i < self.entries.len()
            invariant
                i <= self.entries.len(),
                out@.len() == i,
                forall|k: int| 0 <= k < i ==> (#[trigger] out@[k])@ == self@[k].pid,
            decreases self.entries.len() - i,
        {
            out.push(self.entries[i].pid.clone());
            i = i + 1;
        }
        assert(crate::pid::pid_views(out@) =~= child_pids(self@));
        out
    }

    /// The failure history of the child at position `i`.
    pub fn stats_at(&self, i: usize) -> (s: &RestartStatistics)
        requires
            i < self@.len(),
        ensures
            s@ == self@[i as int].failures,
    {
        &self.entries[i].stats
    }
}

/// The outcome of a strategy for one failure.
#[derive(Debug)]
pub struct Decision {
    /// What is done.
    pub directive: Directive,
    /// The children it is done to.
    pub targets: Vec<Pid>,
    /// How long to wait before doing it, in nanoseconds.
    pub delay: u64,
}

impl Children {
    /// Handles the failure of `child` at the time `now` under `strategy`: the
    /// failure is accounted for in the history of that child alone, and the
    /// directive comes back with the children it applies to. A failure of a
    /// process that is not a child changes nothing and gives `None`.
    pub fn handle_child_failure(&mut self, strategy: &SupervisorStrategy, child: &Pid, now: u64) -> (r:
        Option<Decision>)
        ensures
            distinct_children(old(self)@),
            final(self)@.len() == old(self)@.len(),
            match child_index(old(self)@, child@) {
                None => r is None && final(self)@ == old(self)@,
                Some(i) => {
                    &&& r is Some
                    &&& final(self)@ == old(self)@.update(
                        i,
                        ChildView {
                            pid: child@,
                            failures: strategy.history_after(old(self)@[i].failures, now),
                        },
                    )
                    &&& r.unwrap().directive == strategy.directive_for(final(self)@[i].failures, now)
                    &&& r.unwrap().delay == strategy.delay_for(final(self)@[i].failures)
                    &&& crate::pid::pid_views(r.unwrap().targets@) == strategy.targets_for(old(self)@, child@)
                },
            },
            forall|j: int|
                0 <= j < old(self)@.len() && old(self)@[j].pid != child@ ==> #[trigger] final(self)@[j]
                    == old(self)@[j],
    {
        let found = self.position(child);
        match found {
            None => None,
            Some(i) => {
                let ghost before = self@;
                let targets = match strategy {
                    SupervisorStrategy::AllForOne { .. } => self.pids(),
                    _ => {
                        let mut one: Vec<Pid> = Vec::new();
                        one.push(child.clone());
                        assert(crate::pid::pid_views(one@) =~= Seq::<PidView>::empty().push(child@));
                        one
                    },
                };
                proof {
                    use_type_invariant(&*self);
                }
                let mut entries: Vec<ChildEntry> = Vec::new();
                assert(entry_views(entries@) =~= Seq::<ChildView>::empty());
                std::mem::swap(&mut self.entries, &mut entries);
                let mut entry = entries.remove(i);
                let (directive, delay) = strategy.judge(&mut entry.stats, now);
                entries.insert(i, entry);
                proof {
                    let after = entry_views(entries@);
                    assert(after =~= before.update(
                        i as int,
                        ChildView {
                            pid: child@,
                            failures: strategy.history_after(before[i as int].failures, now),
                        },
                    ));
                    assert forall|a: int, b: int| 0 <= a < b < after.len() implies #[trigger] after[a].pid
                        != #[trigger] after[b].pid by {
                        assert(before[a].pid != before[b].pid);
                    }
                }
                self.entries = entries;
                Some(Decision { directive, targets, delay })
            },
        }
    }
}

/// A failure handled under a strategy that acts on one child leaves the
/// history of every sibling as it was, whatever the directive.
pub proof fn siblings_untouched(
    strategy: SupervisorStrategy,
    before: Seq<ChildView>,
    child: PidView,
    now: u64,
    sibling: int,
)
    requires
        distinct_children(before),
        child_index(before, child) is Some,
        0 <= sibling < before.len(),
        before[sibling].pid != child,
    ensures
        ({
            let i = child_index(before, child).unwrap();
            let after = before.update(
                i,
                ChildView { pid: child, failures: strategy.history_after(before[i].failures, now) },
            );
            after[sibling] == before[sibling]
        }),
{
}

/// A strategy that acts on all children names each child of the parent as a
/// target, the failing one included, in the order in which they were added;
/// any other strategy names the failing child alone.
pub proof fn targets_cover(strategy: SupervisorStrategy, children: Seq<ChildView>, child: PidView)
    ensures
        strategy is AllForOne ==> strategy.targets_for(children, child).len() == children.len()
            && forall|k: int|
            0 <= k < children.len() ==> #[trigger] strategy.targets_for(children, child)[k]
                == children[k].pid,
        !(strategy is AllForOne) ==> strategy.targets_for(children, child) =~= seq![child],
{
}

impl SupervisorStrategy {
    pub fn one_for_one(max_retries: u32, within_duration: u64) -> (s: Self)
        ensures
            s == (SupervisorStrategy::OneForOne { max_retries, within_duration }),
    {
        SupervisorStrategy::OneForOne { max_retries, within_duration }
    }

    pub fn all_for_one(max_retries: u32, within_duration: u64) -> (s: Self)
        ensures
            s == (SupervisorStrategy::AllForOne { max_retries, within_duration }),
    {
        SupervisorStrategy::AllForOne { max_retries, within_duration }
    }

    pub fn restarting() -> (s: Self)
        ensures
            s == SupervisorStrategy::Restarting,
    {
        SupervisorStrategy::Restarting
    }

    pub fn exponential_backoff(backoff_window: u64, initial_backoff: u64) -> (s: Self)
        ensures
            s == (SupervisorStrategy::ExponentialBackoff { backoff_window, initial_backoff }),
    {
        SupervisorStrategy::ExponentialBackoff { backoff_window, initial_backoff }
    }

    /// The strategy of a parent that names none, and of the guardian of
    /// top-level actors.
    pub open spec fn default_strategy() -> SupervisorStrategy {
        SupervisorStrategy::OneForOne {
            max_retries: DEFAULT_MAX_RETRIES,
            within_duration: DEFAULT_WITHIN_DURATION,
        }
    }

    /// The history of the failing child after its failure at `now` is
    /// accounted for.
    pub open spec fn history_after(self, history: Seq<u64>, now: u64) -> Seq<u64> {
        match self {
            SupervisorStrategy::OneForOne { .. } => history.push(now),
            SupervisorStrategy::AllForOne { .. } => history.push(now),
            SupervisorStrategy::Restarting => history,
            SupervisorStrategy::ExponentialBackoff { backoff_window, .. } => {
                if failures_within(history, now, backoff_window) as u32 == 0 {
                    Seq::<u64>::empty().push(now)
                } else {
                    history.push(now)
                }
            },
        }
    }

    /// The directive for a child whose history, the current failure included,
    /// is `history`.
    pub open spec fn directive_for(self, history: Seq<u64>, now: u64) -> Directive {
        match self {
            SupervisorStrategy::OneForOne { max_retries, within_duration } => {
                if failures_within(history, now, within_duration) as u32 > max_retries {
                    Directive::Stop
                } else {
                    Directive::Restart
                }
            },
            SupervisorStrategy::AllForOne { max_retries, within_duration } => {
                if failures_within(history, now, within_duration) as u32 > max_retries {
                    Directive::Stop
                } else {
                    Directive::Restart
                }
            },
            SupervisorStrategy::Restarting => Directive::Restart,
            SupervisorStrategy::ExponentialBackoff { .. } => Directive::Restart,
        }
    }

    /// The delay before the directive is carried out.
    pub open spec fn delay_for(self, history: Seq<u64>) -> u64 {
        match self {
            SupervisorStrategy::ExponentialBackoff { initial_backoff, .. } => backoff_delay(
                initial_backoff,
                history.len(),
            ),
            _ => 0,
        }
    }

    /// The children that the directive is carried out on.
    pub open spec fn targets_for(self, children: Seq<ChildView>, child: PidView) -> Seq<PidView> {
        match self {
            SupervisorStrategy::AllForOne { .. } => child_pids(children),
            _ => Seq::<PidView>::empty().push(child),
        }
    }

    /// Accounts for a failure of one child at the time `now` in its history
    /// and returns the directive and the delay. No other history is read or
    /// changed.
    pub fn judge(&self, stats: &mut RestartStatistics, now: u64) -> (r: (Directive, u64))
        ensures
            final(stats)@ == self.history_after(old(stats)@, now),
            r.0 == self.directive_for(final(stats)@, now),
            r.1 == self.delay_for(final(stats)@),
    {
        match self {
            SupervisorStrategy::OneForOne { max_retries, within_duration } => {
                stats.fail_at(now);
                if stats.number_of_failures_at(now, *within_duration) > *max_retries {
                    (Directive::Stop, 0)
                } else {
                    (Directive::Restart, 0)
                }
            },
            SupervisorStrategy::AllForOne { max_retries, within_duration } => {
                stats.fail_at(now);
                if stats.number_of_failures_at(now, *within_duration) > *max_retries {
                    (Directive::Stop, 0)
                } else {
                    (Directive::Restart, 0)
                }
            },
            SupervisorStrategy::Restarting => (Directive::Restart, 0),
            SupervisorStrategy::ExponentialBackoff { backoff_window, initial_backoff } => {
                if stats.number_of_failures_at(now, *backoff_window) == 0 {
                    stats.reset();
                }
                stats.fail_at(now);
                let delay = compute_backoff_delay(*initial_backoff, stats.failure_count());
                (Directive::Restart, delay)
            },
        }
    }
}

} // verus!
