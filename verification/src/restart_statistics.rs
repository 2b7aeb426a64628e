//! Failure history of one supervised child.

use crate::clock::Clock;
use vstd::prelude::*;

verus! {

/// Whether a failure recorded at `t` lies in the window of length `within`
/// that ends at `now`. The window is closed at both ends: a failure exactly
/// `within` old lies in it, and so does one at `now` itself.
pub open spec fn in_window(t: u64, now: u64, within: u64) -> bool {
    t <= now && now - t <= within
}

/// How many of the recorded times lie in the window of length `within` that
/// ends at `now`.
pub open spec fn count_in_window(times: Seq<u64>, now: u64, within: u64) -> nat {
    times.filter(|t: u64| in_window(t, now, within)).len()
}

/// The failure count for a window: with a window of length zero every failure
/// ever recorded counts, else the failures inside the window.
pub open spec fn failures_within(times: Seq<u64>, now: u64, within: u64) -> nat {
    if within == 0 {
        times.len()
    } else {
        count_in_window(times, now, within)
    }
}

/// One more recorded time raises the count by one if it lies in the window,
/// and not at all if it does not.
pub proof fn count_in_window_step(times: Seq<u64>, t: u64, now: u64, within: u64)
    ensures
        count_in_window(Seq::<u64>::empty(), now, within) == 0,
        count_in_window(times.push(t), now, within) == count_in_window(times, now, within) + if in_window(
            t,
            now,
            within,
        ) {
            1nat
        } else {
            0nat
        },
{
    reveal(Seq::filter);
    assert(times.push(t).drop_last() =~= times);
    assert(times.push(t).last() == t);
}

/// Whether the time `t` lies in the closed interval from `now - within` to
/// `now`.
pub open spec fn in_closed_interval(t: u64, now: u64, within: u64) -> bool {
    now - within <= t <= now
}

/// A window counts the failures whose time lies between `now - within` and
/// `now`, both ends included, and no others: the count is the number of
/// recorded times in that closed interval.
pub proof fn window_counts_the_closed_interval(times: Seq<u64>, now: u64, within: u64)
    ensures
        forall|t: u64| in_window(t, now, within) <==> in_closed_interval(t, now, within),
        count_in_window(times, now, within) == times.filter(
            |t: u64| in_closed_interval(t, now, within),
        ).len(),
    decreases times.len(),
{
    reveal(Seq::filter);
    if times.len() > 0 {
        window_counts_the_closed_interval(times.drop_last(), now, within);
    }
}

/// An append-only, clearable record of the times at which a child failed, in
/// nanoseconds on the clock of this record.
#[derive(Debug)]
pub struct RestartStatistics {
    clock: Clock,
    failure_times: Vec<u64>,
}

impl Clone for RestartStatistics {
    /// A copy of the record as it is now, on the same clock.
    fn clone(&self) -> (s: Self)
        ensures
            s@ == self@,
            s.clock() == self.clock(),
    {
        let failure_times = self.failure_times.clone();
        assert(failure_times@ =~= self.failure_times@);
        RestartStatistics { clock: self.clock, failure_times }
    }
}

impl View for RestartStatistics {
    type V = Seq<u64>;

    closed spec fn view(&self) -> Seq<u64> {
        self.failure_times@
    }
}

impl RestartStatistics {
    /// The clock on which the record reads the time of a failure.
    pub closed spec fn clock(&self) -> Clock {
        self.clock
    }

    /// An empty record with a clock of its own.
    pub fn new() -> (s: Self)
        ensures
            s@ == Seq::<u64>::empty(),
    {
        RestartStatistics { clock: Clock::start(), failure_times: Vec::new() }
    }

    /// An empty record on the given clock: `fail`, `now` and
    /// `number_of_failures` read the time from it.
    pub fn with_clock(clock: Clock) -> (s: Self)
        ensures
            s@ == Seq::<u64>::empty(),
            s.clock() == clock,
    {
        RestartStatistics { clock, failure_times: Vec::new() }
    }

    /// The current reading of this record's clock.
    pub fn now(&self) -> (now: u64) {
        self.clock.now()
    }

    /// How many failures were recorded since the last reset.
    pub fn failure_count(&self) -> (n: usize)
        ensures
            n == self@.len(),
    {
        self.failure_times.len()
    }

    /// The recorded times, oldest first.
    pub fn failure_times(&self) -> (times: &Vec<u64>)
        ensures
            times@ == self@,
    {
        &self.failure_times
    }

    /// Records a failure at the time `now`.
    pub fn fail_at(&mut self, now: u64)
        ensures
            final(self)@ == old(self)@.push(now),
            final(self).clock() == old(self).clock(),
    {
        self.failure_times.push(now);
    }

    /// Records a failure at the current reading of the clock, and returns that
    /// reading.
    pub fn fail(&mut self) -> (now: u64)
        ensures
            final(self)@ == old(self)@.push(now),
            final(self).clock() == old(self).clock(),
    {
        let now = self.clock.now();
        self.fail_at(now);
        now
    }

    /// Forgets every recorded failure.
    pub fn reset(&mut self)
        ensures
            final(self)@ == Seq::<u64>::empty(),
            final(self).clock() == old(self).clock(),
    {
        self.failure_times.clear();
    }

    /// The failure count for the window of length `within_duration` that ends
    /// at `now`, narrowed to 32 bits. A window of length zero counts every
    /// failure ever recorded.
    pub fn number_of_failures_at(&self, now: u64, within_duration: u64) -> (n: u32)
        ensures
            n == failures_within(self@, now, within_duration) as u32,
            failures_within(self@, now, within_duration) <= u32::MAX ==> n == failures_within(
                self@,
                now,
                within_duration,
            ),
    {
        if within_duration == 0 {
            return self.failure_times.len() as u32;
        }
        let mut count: usize = 0;
        let mut i: usize = 0;
        proof {
            count_in_window_step(self.failure_times@, 0, now, within_duration);
            assert(self.failure_times@.subrange(0, 0) =~= Seq::<u64>::empty());
        }
        while i < self.failure_times.len()
            invariant
                i <= self.failure_times.len(),
                count <= i,
                count == count_in_window(self.failure_times@.subrange(0, i as int), now, within_duration),
            decreases self.failure_times.len() - i,
        {
            let t = self.failure_times[i];
            proof {
                let seen = self.failure_times@.subrange(0, i as int);
                assert(seen.push(t) =~= self.failure_times@.subrange(0, i + 1));
                count_in_window_step(seen, t, now, within_duration);
            }
            if t <= now && now - t <= within_duration {
                count = count + 1;
            }
            i = i + 1;
        }
        assert(self.failure_times@.subrange(0, i as int) =~= self.failure_times@);
        count as u32
    }

    /// The failure count for the window of length `within_duration` that ends
    /// now, on this record's clock.
    pub fn number_of_failures(&self, within_duration: u64) -> (n: u32)
        ensures
            within_duration == 0 ==> n == self@.len() as u32,
            exists|now: u64| n == failures_within(self@, now, within_duration) as u32,
    {
        let now = self.clock.now();
        self.number_of_failures_at(now, within_duration)
    }
}

impl Default for RestartStatistics {
    fn default() -> (s: Self)
        ensures
            s@ == Seq::<u64>::empty(),
    {
        RestartStatistics::new()
    }
}

} // verus!
