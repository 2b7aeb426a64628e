//! The mailbox of one actor: a system lane and a user lane, and the state
//! that lets at most one run drain them at a time.

use std::collections::VecDeque;
use vstd::prelude::*;

verus! {

/// Where a mailbox stands with respect to its run loop.
#[derive(Clone, Copy, Debug, PartialEq, Eq, Structural)]
pub enum RunState {
    /// Eligible, nothing to do.
    Idle,
    /// Handed to the dispatcher, run not begun yet.
    Scheduled,
    /// A run is draining the lanes.
    Running,
    /// Not eligible: not started yet, or stopped.
    Stopped,
}

/// A message that a run takes out of a mailbox, with the lane it came from.
#[derive(Debug)]
pub enum Delivery<T> {
    System(T),
    User(T),
}

/// A mailbox as plain values. The front of a lane is index 0.
pub struct MailboxView<T> {
    pub system: Seq<T>,
    pub user: Seq<T>,
    pub state: RunState,
    pub suspended: bool,
    pub stop_requested: bool,
    pub budget: usize,
}

/// What can happen to a mailbox.
pub enum MailboxEvent<T> {
    PostSystem(T),
    PostUser(T),
    Start,
    Stop,
    Suspend,
    Resume,
    BeginRun(usize),
    Next,
    EndRun,
}

impl<T> MailboxView<T> {
    /// A mailbox that was just made: empty lanes, not started.
    pub open spec fn fresh() -> Self {
        MailboxView {
            system: Seq::empty(),
            user: Seq::empty(),
            state: RunState::Stopped,
            suspended: false,
            stop_requested: false,
            budget: 0,
        }
    }

    /// Whether a run would find something to take: a system message, or a
    /// user message while the mailbox is not suspended.
    pub open spec fn has_work(self) -> bool {
        self.system.len() > 0 || (!self.suspended && self.user.len() > 0)
    }

    /// The state that an eligible mailbox rests in outside a run.
    pub open spec fn resting_state(self) -> RunState {
        if self.has_work() {
            RunState::Scheduled
        } else {
            RunState::Idle
        }
    }

    /// The lane that the next message of the current run comes from: the
    /// system lane as long as it holds anything, then the user lane while
    /// the mailbox is not suspended and the budget of the run lasts. No lane
    /// outside a run, or once a stop was requested.
    pub open spec fn next_lane(self) -> Option<bool> {
        if self.state != RunState::Running || self.stop_requested {
            None
        } else if self.system.len() > 0 {
            Some(true)
        } else if !self.suspended && self.budget > 0 && self.user.len() > 0 {
            Some(false)
        } else {
            None
        }
    }

    /// What the event hands out: `Next` the message at the front of the lane
    /// whose turn it is, any other event nothing.
    pub open spec fn output(self, event: MailboxEvent<T>) -> Option<Delivery<T>> {
        match event {
            MailboxEvent::Next => match self.next_lane() {
                Some(true) => Some(Delivery::System(self.system[0])),
                Some(false) => Some(Delivery::User(self.user[0])),
                None => None,
            },
            _ => None,
        }
    }

    /// Whether the event makes the mailbox due for the dispatcher: it was
    /// not scheduled or running before, and is scheduled after.
    pub open spec fn schedules(self, event: MailboxEvent<T>) -> bool {
        self.state != RunState::Scheduled && self.step(event).state == RunState::Scheduled
    }

    /// The mailbox after the event.
    pub open spec fn step(self, event: MailboxEvent<T>) -> Self {
        match event {
            MailboxEvent::PostSystem(m) => MailboxView {
                system: self.system.push(m),
                state: if self.state == RunState::Idle {
                    RunState::Scheduled
                } else {
                    self.state
                },
                ..self
            },
            MailboxEvent::PostUser(m) => MailboxView {
                user: self.user.push(m),
                state: if self.state == RunState::Idle {
                    RunState::Scheduled
                } else {
                    self.state
                },
                ..self
            },
            MailboxEvent::Start => if self.state == RunState::Stopped {
                MailboxView { state: self.resting_state(), ..self }
            } else {
                self
            },
            MailboxEvent::Stop => if self.state == RunState::Running {
                MailboxView { stop_requested: true, ..self }
            } else {
                MailboxView { state: RunState::Stopped, ..self }
            },
            MailboxEvent::Suspend => MailboxView { suspended: true, ..self },
            MailboxEvent::Resume => MailboxView {
                suspended: false,
                state: if self.state == RunState::Idle && self.user.len() > 0 {
                    RunState::Scheduled
                } else {
                    self.state
                },
                ..self
            },
            MailboxEvent::BeginRun(throughput) => if self.state == RunState::Scheduled {
                MailboxView { state: RunState::Running, budget: throughput, ..self }
            } else {
                self
            },
            MailboxEvent::Next => match self.next_lane() {
                Some(true) => MailboxView {
                    system: self.system.drop_first(),
                    budget: if self.budget > 0 {
                        (self.budget - 1) as usize
                    } else {
                        0
                    },
                    ..self
                },
                Some(false) => MailboxView {
                    user: self.user.drop_first(),
                    budget: (self.budget - 1) as usize,
                    ..self
                },
                None => self,
            },
            MailboxEvent::EndRun => if self.state == RunState::Running {
                if self.stop_requested {
                    MailboxView { state: RunState::Stopped, stop_requested: false, ..self }
                } else {
                    MailboxView { state: self.resting_state(), ..self }
                }
            } else {
                self
            },
        }
    }

    /// The mailbox after the first `n` events of a trace.
    pub open spec fn run(self, trace: Seq<MailboxEvent<T>>, n: int) -> Self
        decreases n,
    {
        if n <= 0 {
            self
        } else {
            self.run(trace, n - 1).step(trace[n - 1])
        }
    }

    /// The messages posted to a lane by the first `n` events, in order.
    pub open spec fn posted(trace: Seq<MailboxEvent<T>>, n: int, system_lane: bool) -> Seq<T>
        decreases n,
    {
        if n <= 0 {
            Seq::empty()
        } else {
            let before = Self::posted(trace, n - 1, system_lane);
            match trace[n - 1] {
                MailboxEvent::PostSystem(m) => if system_lane {
                    before.push(m)
                } else {
                    before
                },
                MailboxEvent::PostUser(m) => if system_lane {
                    before
                } else {
                    before.push(m)
                },
                _ => before,
            }
        }
    }

    /// The messages of a lane that the first `n` events hand out, in order.
    pub open spec fn delivered(self, trace: Seq<MailboxEvent<T>>, n: int, system_lane: bool) -> Seq<T>
        decreases n,
    {
        if n <= 0 {
            Seq::empty()
        } else {
            let before = self.delivered(trace, n - 1, system_lane);
            match self.run(trace, n - 1).output(trace[n - 1]) {
                Some(Delivery::System(m)) => if system_lane {
                    before.push(m)
                } else {
                    before
                },
                Some(Delivery::User(m)) => if system_lane {
                    before
                } else {
                    before.push(m)
                },
                None => before,
            }
        }
    }

    /// The number of runs that the first `n` events leave in progress: each
    /// run that begins counts one, each that ends takes one away.
    pub open spec fn runs_in_progress(self, trace: Seq<MailboxEvent<T>>, n: int) -> int
        decreases n,
    {
        if n <= 0 {
            if self.state == RunState::Running {
                1
            } else {
                0
            }
        } else {
            let at = self.run(trace, n - 1);
            let before = self.runs_in_progress(trace, n - 1);
            match trace[n - 1] {
                MailboxEvent::BeginRun(_) => if at.state == RunState::Scheduled {
                    before + 1
                } else {
                    before
                },
                MailboxEvent::EndRun => if at.state == RunState::Running {
                    before - 1
                } else {
                    before
                },
                _ => before,
            }
        }
    }

    pub open spec fn lane(self, system_lane: bool) -> Seq<T> {
        if system_lane {
            self.system
        } else {
            self.user
        }
    }
}

/// Delivery order equals enqueue order: whatever else happens to a mailbox,
/// the messages that a lane has handed out, followed by those still waiting
/// in it, are the messages that waited at the start followed by those posted
/// to it, in the order in which they were posted.
pub proof fn delivery_follows_enqueue_order<T>(
    start: MailboxView<T>,
    trace: Seq<MailboxEvent<T>>,
    n: int,
    system_lane: bool,
)
    requires
        0 <= n <= trace.len(),
    ensures
        start.delivered(trace, n, system_lane) + start.run(trace, n).lane(system_lane) == start.lane(
            system_lane,
        ) + MailboxView::<T>::posted(trace, n, system_lane),
    decreases n,
{
    if n > 0 {
        delivery_follows_enqueue_order(start, trace, n - 1, system_lane);
        let at = start.run(trace, n - 1);
        let d = start.delivered(trace, n - 1, system_lane);
        let p = MailboxView::<T>::posted(trace, n - 1, system_lane);
        let l = at.lane(system_lane);
        assert(d + l == start.lane(system_lane) + p);
        let after = at.step(trace[n - 1]);
        match trace[n - 1] {
            MailboxEvent::PostSystem(m) => {
                if system_lane {
                    assert(d + l.push(m) =~= (d + l).push(m));
                    assert((start.lane(system_lane) + p).push(m) =~= start.lane(system_lane) + p.push(m));
                }
            },
            MailboxEvent::PostUser(m) => {
                if !system_lane {
                    assert(d + l.push(m) =~= (d + l).push(m));
                    assert((start.lane(system_lane) + p).push(m) =~= start.lane(system_lane) + p.push(m));
                }
            },
            MailboxEvent::Next => {
                match at.next_lane() {
                    Some(true) => {
                        if system_lane {
                            assert(d.push(l[0]) + l.drop_first() =~= d + l);
                        }
                    },
                    Some(false) => {
                        if !system_lane {
                            assert(d.push(l[0]) + l.drop_first() =~= d + l);
                        }
                    },
                    None => {},
                }
            },
            _ => {},
        }
    }
}

/// At most one run at a time: whatever happens to a mailbox, the number of
/// runs in progress is one while its state is `Running` and zero otherwise,
/// so a run can begin only after the one before it has ended.
pub proof fn at_most_one_run<T>(start: MailboxView<T>, trace: Seq<MailboxEvent<T>>, n: int)
    requires
        0 <= n <= trace.len(),
    ensures
        start.runs_in_progress(trace, n) == if start.run(trace, n).state == RunState::Running {
            1int
        } else {
            0int
        },
        0 <= start.runs_in_progress(trace, n) <= 1,
    decreases n,
{
    if n > 0 {
        at_most_one_run(start, trace, n - 1);
    }
}

/// A run never takes more user messages than its budget: each one taken
/// lowers the budget by one, and none is taken at budget zero.
pub proof fn user_lane_bounded_by_budget<T>(at: MailboxView<T>)
    ensures
        at.output(MailboxEvent::Next) matches Some(Delivery::User(_)) ==> at.budget > 0 && at.step(
            MailboxEvent::Next,
        ).budget == at.budget - 1 && at.system.len() == 0 && !at.suspended,
        at.system.len() > 0 && at.state == RunState::Running && !at.stop_requested ==> at.output(
            MailboxEvent::Next,
        ) == Some(Delivery::System(at.system[0])),
{
}

/// The mailbox of one actor.
#[derive(Debug)]
pub struct Mailbox<T> {
    system: VecDeque<T>,
    user: VecDeque<T>,
    state: RunState,
    suspended: bool,
    stop_requested: bool,
    budget: usize,
}

impl<T> View for Mailbox<T> {
    type V = MailboxView<T>;

    closed spec fn view(&self) -> MailboxView<T> {
        MailboxView {
            system: self.system@,
            user: self.user@,
            state: self.state,
            suspended: self.suspended,
            stop_requested: self.stop_requested,
            budget: self.budget,
        }
    }
}

impl<T> Mailbox<T> {
    /// A mailbox with empty lanes that is not started yet.
    pub fn new() -> (m: Self)
        ensures
            m@ == MailboxView::<T>::fresh(),
    {
        Mailbox {
            system: VecDeque::new(),
            user: VecDeque::new(),
            state: RunState::Stopped,
            suspended: false,
            stop_requested: false,
            budget: 0,
        }
    }

    pub fn state(&self) -> (s: RunState)
        ensures
            s == self@.state,
    {
        self.state
    }

    pub fn is_suspended(&self) -> (s: bool)
        ensures
            s == self@.suspended,
    {
        self.suspended
    }

    pub fn system_len(&self) -> (n: usize)
        ensures
            n == self@.system.len(),
    {
        self.system.len()
    }

    pub fn user_len(&self) -> (n: usize)
        ensures
            n == self@.user.len(),
    {
        self.user.len()
    }

    fn has_work(&self) -> (r: bool)
        ensures
            r == self@.has_work(),
    {
        self.system.len() > 0 || (!self.suspended && self.user.len() > 0)
    }

    /// Enqueues a message at the back of the system lane. Returns whether
    /// the mailbox has to be handed to the dispatcher: it does when it was
    /// idle.
    pub fn post_system(&mut self, message: T) -> (schedule: bool)
        ensures
            final(self)@ == old(self)@.step(MailboxEvent::PostSystem(message)),
            schedule == old(self)@.schedules(MailboxEvent::PostSystem(message)),
            schedule == (old(self)@.state == RunState::Idle),
    {
        self.system.push_back(message);
        if self.state == RunState::Idle {
            self.state = RunState::Scheduled;
            true
        } else {
            false
        }
    }

    /// Enqueues a message at the back of the user lane. Returns whether the
    /// mailbox has to be handed to the dispatcher: it does when it was idle.
    pub fn post_user(&mut self, message: T) -> (schedule: bool)
        ensures
            final(self)@ == old(self)@.step(MailboxEvent::PostUser(message)),
            schedule == old(self)@.schedules(MailboxEvent::PostUser(message)),
            schedule == (old(self)@.state == RunState::Idle),
    {
        self.user.push_back(message);
        if self.state == RunState::Idle {
            self.state = RunState::Scheduled;
            true
        } else {
            false
        }
    }

    /// Makes a mailbox that is not eligible eligible. Returns whether it has
    /// to be handed to the dispatcher: it does when messages are waiting.
    pub fn start(&mut self) -> (schedule: bool)
        ensures
            final(self)@ == old(self)@.step(MailboxEvent::Start),
            schedule == old(self)@.schedules(MailboxEvent::Start),
    {
        if self.state == RunState::Stopped {
            if self.has_work() {
                self.state = RunState::Scheduled;
                true
            } else {
                self.state = RunState::Idle;
                false
            }
        } else {
            false
        }
    }

    /// Takes the mailbox out of scheduling. A run in progress is not
    /// interrupted: it takes no further message and the mailbox is stopped
    /// when the run ends.
    pub fn stop(&mut self)
        ensures
            final(self)@ == old(self)@.step(MailboxEvent::Stop),
    {
        if self.state == RunState::Running {
            self.stop_requested = true;
        } else {
            self.state = RunState::Stopped;
        }
    }

    /// Withholds the user lane from runs until `resume`.
    pub fn suspend(&mut self)
        ensures
            final(self)@ == old(self)@.step(MailboxEvent::Suspend),
    {
        self.suspended = true;
    }

    /// Releases the user lane. Returns whether the mailbox has to be handed
    /// to the dispatcher: it does when it was idle with user messages waiting.
    pub fn resume(&mut self) -> (schedule: bool)
        ensures
            final(self)@ == old(self)@.step(MailboxEvent::Resume),
            schedule == old(self)@.schedules(MailboxEvent::Resume),
    {
        self.suspended = false;
        if self.state == RunState::Idle && self.user.len() > 0 {
            self.state = RunState::Scheduled;
            true
        } else {
            false
        }
    }

    /// Begins a run that may take up to `throughput` messages. Succeeds only
    /// for a scheduled mailbox, so no second run begins while one is in
    /// progress.
    pub fn begin_run(&mut self, throughput: usize) -> (begun: bool)
        ensures
            final(self)@ == old(self)@.step(MailboxEvent::BeginRun(throughput)),
            begun == (old(self)@.state == RunState::Scheduled),
            begun ==> final(self)@.state == RunState::Running,
    {
        if self.state == RunState::Scheduled {
            self.state = RunState::Running;
            self.budget = throughput;
            true
        } else {
            false
        }
    }

    /// Takes the next message of the run in progress, or `None` when the run
    /// has nothing more to take.
    pub fn next(&mut self) -> (delivery: Option<Delivery<T>>)
        ensures
            final(self)@ == old(self)@.step(MailboxEvent::Next),
            delivery == old(self)@.output(MailboxEvent::Next),
    {
        if self.state != RunState::Running || self.stop_requested {
            return None;
        }
        if self.system.len() > 0 {
            let m = self.system.pop_front();
            if self.budget > 0 {
                self.budget = self.budget - 1;
            }
            assert(self.system@ =~= old(self).system@.drop_first());
            match m {
                Some(m) => Some(Delivery::System(m)),
                None => None,
            }
        } else if !self.suspended && self.budget > 0 && self.user.len() > 0 {
            let m = self.user.pop_front();
            self.budget = self.budget - 1;
            assert(self.user@ =~= old(self).user@.drop_first());
            match m {
                Some(m) => Some(Delivery::User(m)),
                None => None,
            }
        } else {
            None
        }
    }

    /// Ends the run in progress. Returns whether the mailbox has to be
    /// handed to the dispatcher again: it does when work is left and no stop
    /// was requested.
    pub fn end_run(&mut self) -> (reschedule: bool)
        ensures
            final(self)@ == old(self)@.step(MailboxEvent::EndRun),
            reschedule == old(self)@.schedules(MailboxEvent::EndRun),
    {
        if self.state == RunState::Running {
            if self.stop_requested {
                self.state = RunState::Stopped;
                self.stop_requested = false;
                false
            } else if self.has_work() {
                self.state = RunState::Scheduled;
                true
            } else {
                self.state = RunState::Idle;
                false
            }
        } else {
            false
        }
    }
}

} // verus!
