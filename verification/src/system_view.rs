//! The actor system as plain values, and what each of its operations makes of
//! it. The operations themselves are in `actor_system`.

use crate::actor_inner_error::ActorInnerError;
use crate::config::ConfigView;
use crate::event_stream::EventStreamView;
use crate::mailbox::{Delivery, MailboxEvent, MailboxView};
use crate::message::{Failure, MessageHandle, SystemMessage};
use crate::messages::{Terminated, TerminatedReason, Touched};
use crate::pid::{Pid, PidView};
use crate::process::{ContextView, HandleView, ProcessHandle, ProcessView};
use crate::props::{Callables, PropsView};
use crate::supervision_event::SupervisorEvent;
use crate::supervisor::{child_index, child_pids, ChildView, Directive, SupervisorStrategy};
use vstd::prelude::*;

verus! {

/// An envelope that could not be delivered: the process it was addressed to
/// is not registered.
pub struct DeadLetterEvent<M> {
    pub pid: Pid,
    pub message: MessageHandle<M>,
    pub sender: Option<Pid>,
}

/// A `DeadLetterEvent` as plain values.
pub struct DeadLetterView<M> {
    pub pid: PidView,
    pub message: MessageHandle<M>,
    pub sender: Option<PidView>,
}

impl<M> View for DeadLetterEvent<M> {
    type V = DeadLetterView<M>;

    open spec fn view(&self) -> DeadLetterView<M> {
        DeadLetterView {
            pid: self.pid@,
            message: self.message,
            sender: match self.sender {
                Some(p) => Some(p@),
                None => None,
            },
        }
    }
}

/// Why an actor could not be spawned.
#[derive(Debug)]
pub enum SpawnError {
    /// A live process holds the name; this is its identifier.
    NameAlreadyExists(Pid),
}

/// The address of a system that is not reachable from other hosts.
pub open spec fn local_address() -> Seq<char> {
    "nonhost"@
}

/// The name under which the event-stream process is registered.
pub open spec fn event_stream_name() -> Seq<char> {
    "eventstream"@
}

/// The sender that an envelope names, if the message is an envelope with a
/// sender.
pub open spec fn sender_of<M>(message: MessageHandle<M>) -> Option<PidView> {
    match message {
        MessageHandle::Envelope(e) => match e@.sender {
            Some(p) => Some(p@),
            None => None,
        },
        _ => None,
    }
}

/// Reads a message as a liveness probe: `None` for any other message, else
/// the sender that waits for the answer, if the probe names one.
pub open spec fn probe_sender<M>(message: MessageHandle<M>) -> Option<Option<Pid>> {
    match message {
        MessageHandle::Touch(_) => Some(None),
        MessageHandle::Envelope(e) => match e@.message {
            MessageHandle::Touch(_) => Some(e@.sender),
            _ => None,
        },
        _ => None,
    }
}

/// The answer of the process `who` to a liveness probe.
pub open spec fn touched_message<M>(who: Pid) -> MessageHandle<M> {
    MessageHandle::Touched(Touched { who: Some(who) })
}

/// The message that tells a new actor that it has started.
pub open spec fn started_message<M>() -> MessageHandle<M> {
    MessageHandle::System(Box::new(SystemMessage::Started))
}

/// The registered processes as plain values.
pub open spec fn process_views<M, C: Callables>(registry: Map<Seq<char>, ProcessHandle<M, C>>) -> Map<
    Seq<char>,
    HandleView<M, C>,
> {
    Map::new(|name: Seq<char>| registry.contains_key(name), |name: Seq<char>| registry[name]@)
}

/// Registering a process registers its view.
pub proof fn views_after_insert<M, C: Callables>(
    registry: Map<Seq<char>, ProcessHandle<M, C>>,
    name: Seq<char>,
    handle: ProcessHandle<M, C>,
)
    ensures
        process_views(registry.insert(name, handle)) == process_views(registry).insert(name, handle@),
{
    let after = process_views(registry.insert(name, handle));
    let goal = process_views(registry).insert(name, handle@);
    assert forall|k: Seq<char>| after.contains_key(k) == goal.contains_key(k) by {}
    assert forall|k: Seq<char>| after.contains_key(k) implies after[k] == goal[k] by {}
    assert(after =~= goal);
}

/// Taking a process out of the registry takes its view out.
pub proof fn views_after_remove<M, C: Callables>(registry: Map<Seq<char>, ProcessHandle<M, C>>, name: Seq<char>)
    ensures
        process_views(registry.remove(name)) == process_views(registry).remove(name),
{
    let after = process_views(registry.remove(name));
    let goal = process_views(registry).remove(name);
    assert forall|k: Seq<char>| after.contains_key(k) == goal.contains_key(k) by {}
    assert forall|k: Seq<char>| after.contains_key(k) implies after[k] == goal[k] by {}
    assert(after =~= goal);
}

/// The dead letters as plain values.
pub open spec fn dead_letter_views<M>(letters: Seq<DeadLetterEvent<M>>) -> Seq<DeadLetterView<M>> {
    letters.map_values(|d: DeadLetterEvent<M>| d@)
}

/// An actor system as plain values.
pub struct SystemView<M, C: Callables> {
    pub id: Seq<char>,
    pub config: ConfigView,
    pub address: Seq<char>,
    /// The registered processes by name.
    pub processes: Map<Seq<char>, HandleView<M, C>>,
    /// The top-level actors, which the guardian supervises.
    pub guardians: Seq<ChildView>,
    pub event_stream: EventStreamView,
    /// The supervisor events that wait to be handed to the subscribers.
    pub events: Seq<SupervisorEvent>,
    /// The messages that were sent to the event-stream process.
    pub published: Seq<MessageHandle<M>>,
    pub dead_letters: Seq<DeadLetterView<M>>,
    /// The mailboxes that are due for a run, first come first.
    pub ready: Seq<PidView>,
}

impl<M, C: Callables> SystemView<M, C> {
    /// The identifier that belongs to a name.
    pub open spec fn pid_of(self, name: Seq<char>) -> PidView {
        PidView { address: self.address, id: name, request_id: 0 }
    }

    /// Whether `pid` names a registered process.
    pub open spec fn resolves(self, pid: PidView) -> bool {
        pid.address == self.address && self.processes.contains_key(pid.id)
    }

    /// The actor that `pid` names, if it names one.
    pub open spec fn actor(self, pid: PidView) -> Option<ProcessView<M, C>> {
        if self.resolves(pid) {
            match self.processes[pid.id] {
                HandleView::Actor(p) => Some(p),
                HandleView::EventStream => None,
            }
        } else {
            None
        }
    }

    /// The system after `message` was sent to `target` on one lane. An actor
    /// gets it at the back of that lane, and its mailbox joins the queue of
    /// the dispatcher if that makes it due. The event-stream process
    /// publishes it. A message to a name that is not registered becomes a
    /// dead letter.
    pub open spec fn post(self, target: PidView, message: MessageHandle<M>, system_lane: bool) -> Self {
        if self.resolves(target) {
            match self.processes[target.id] {
                HandleView::Actor(p) => {
                    let event = if system_lane {
                        MailboxEvent::PostSystem(message)
                    } else {
                        MailboxEvent::PostUser(message)
                    };
                    SystemView {
                        processes: self.processes.insert(
                            target.id,
                            HandleView::Actor(ProcessView { mailbox: p.mailbox.step(event), ..p }),
                        ),
                        ready: if p.mailbox.schedules(event) {
                            self.ready.push(target)
                        } else {
                            self.ready
                        },
                        ..self
                    }
                },
                HandleView::EventStream => SystemView { published: self.published.push(message), ..self },
            }
        } else {
            SystemView {
                dead_letters: self.dead_letters.push(
                    DeadLetterView { pid: target, message, sender: sender_of(message) },
                ),
                ..self
            }
        }
    }

    /// The system after the top-level actor or child `child` was put under
    /// its supervisor: under `parent` if that names an actor, else under the
    /// guardian.
    pub open spec fn adopt(self, parent: Option<PidView>, child: PidView) -> Self {
        let entry = ChildView { pid: child, failures: Seq::empty() };
        match parent {
            Some(pp) if self.actor(pp) is Some => {
                let p = self.actor(pp).unwrap();
                if child_index(p.context.children, child) is Some {
                    self
                } else {
                    SystemView {
                        processes: self.processes.insert(
                            pp.id,
                            HandleView::Actor(
                                ProcessView {
                                    context: ContextView {
                                        children: p.context.children.push(entry),
                                        ..p.context
                                    },
                                    ..p
                                },
                            ),
                        ),
                        ..self
                    }
                }
            },
            _ => {
                if child_index(self.guardians, child) is Some {
                    self
                } else {
                    SystemView { guardians: self.guardians.push(entry), ..self }
                }
            },
        }
    }

    /// The system after the same message of the runtime was sent to the
    /// first `n` of the targets, one after the other.
    pub open spec fn broadcast(self, targets: Seq<PidView>, n: int, message: MessageHandle<M>) -> Self
        decreases n,
    {
        if n <= 0 {
            self
        } else {
            self.broadcast(targets, n - 1, message).post(targets[n - 1], message, true)
        }
    }

    /// The system after the user lane of the actor `target` was released:
    /// its mailbox joins the queue of the dispatcher if that makes it due.
    /// A name that stands for no actor changes nothing.
    pub open spec fn resumed(self, target: PidView) -> Self {
        match self.actor(target) {
            Some(p) => SystemView {
                processes: self.processes.insert(
                    target.id,
                    HandleView::Actor(ProcessView { mailbox: p.mailbox.step(MailboxEvent::Resume), ..p }),
                ),
                ready: if p.mailbox.schedules(MailboxEvent::Resume) {
                    self.ready.push(target)
                } else {
                    self.ready
                },
                ..self
            },
            None => self,
        }
    }

    /// The system after the first `n` of the targets were resumed.
    pub open spec fn resumed_all(self, targets: Seq<PidView>, n: int) -> Self
        decreases n,
    {
        if n <= 0 {
            self
        } else {
            self.resumed_all(targets, n - 1).resumed(targets[n - 1])
        }
    }

    /// The number of envelopes that one run of the actor `p` may drain: the
    /// throughput of the dispatcher of its recipe, else that of the
    /// dispatcher of the system.
    pub open spec fn throughput_of(self, p: ProcessView<M, C>) -> usize {
        match p.context.props.dispatcher {
            Some(d) => d.throughput,
            None => self.config.dispatcher().throughput,
        }
    }

    /// The system after a run was begun for the actor `pid`, with the
    /// throughput of its dispatcher as the budget of the run.
    pub open spec fn run_begun(self, pid: PidView) -> Self {
        match self.actor(pid) {
            Some(p) => self.with_actor(
                pid,
                ProcessView { mailbox: p.mailbox.step(MailboxEvent::BeginRun(self.throughput_of(p))), ..p },
            ),
            None => self,
        }
    }

    /// The system after the run of the actor `pid` was ended: its mailbox
    /// joins the queue of the dispatcher again if work is left.
    pub open spec fn run_ended(self, pid: PidView) -> Self {
        match self.actor(pid) {
            Some(p) => SystemView {
                processes: self.processes.insert(
                    pid.id,
                    HandleView::Actor(ProcessView { mailbox: p.mailbox.step(MailboxEvent::EndRun), ..p }),
                ),
                ready: if p.mailbox.schedules(MailboxEvent::EndRun) {
                    self.ready.push(pid)
                } else {
                    self.ready
                },
                ..self
            },
            None => self,
        }
    }

    /// The system with the actor `pid` replaced by `process`.
    pub open spec fn with_actor(self, pid: PidView, process: ProcessView<M, C>) -> Self {
        SystemView { processes: self.processes.insert(pid.id, HandleView::Actor(process)), ..self }
    }

    /// The system after a directive was carried out on the targets. Resume
    /// releases the user lane of each; Restart and Stop send that message to
    /// the system lane of each; an escalation is forwarded by
    /// `escalate_failure` and changes nothing here.
    pub open spec fn carried_out(self, directive: Directive, targets: Seq<PidView>) -> Self {
        match directive {
            Directive::Resume => self.resumed_all(targets, targets.len() as int),
            Directive::Restart => self.broadcast(
                targets,
                targets.len() as int,
                Broadcast::Restart.message::<M>(),
            ),
            Directive::Stop => self.broadcast(targets, targets.len() as int, Broadcast::Stop.message::<M>()),
            Directive::Escalate => self,
        }
    }

    /// The system after a directive was resolved for the failed `child`: a
    /// supervisor event is published, and the directive is carried out at
    /// once, or handed out to be carried out after the delay.
    pub open spec fn resolved(
        self,
        child: Pid,
        reason: ActorInnerError,
        directive: Directive,
        targets: Seq<PidView>,
        delay: u64,
    ) -> (Self, StepView) {
        let published = SystemView {
            events: self.events.push(SupervisorEvent { child, reason, directive }),
            ..self
        };
        if delay > 0 {
            (published, StepView::Backoff { targets, delay })
        } else {
            (published.carried_out(directive, targets), StepView::Handled)
        }
    }

    /// The system after the actor `supervisor` handled the failure report
    /// of one of its children at the time `now`, under the strategy of its
    /// recipe. The report of a process that is not its child is dropped.
    pub open spec fn supervised(self, supervisor: PidView, failure: Failure<M>, now: u64) -> (Self, StepView) {
        match self.actor(supervisor) {
            Some(p) => {
                let strategy = p.context.props.strategy();
                match child_index(p.context.children, failure.who@) {
                    Some(i) => {
                        let history = strategy.history_after(p.context.children[i].failures, now);
                        let children = p.context.children.update(
                            i,
                            ChildView { pid: failure.who@, failures: history },
                        );
                        self.with_actor(
                            supervisor,
                            ProcessView { context: ContextView { children, ..p.context }, ..p },
                        ).resolved(
                            failure.who,
                            failure.reason,
                            strategy.directive_for(history, now),
                            strategy.targets_for(p.context.children, failure.who@),
                            strategy.delay_for(history),
                        )
                    },
                    None => (self, StepView::Handled),
                }
            },
            None => (self, StepView::Handled),
        }
    }

    /// The strategy of the guardian for the top-level actor `child`: the
    /// guardian strategy of its recipe, else the default one.
    pub open spec fn guardian_strategy(self, child: PidView) -> SupervisorStrategy {
        match self.actor(child) {
            Some(p) => match p.context.props.guardian_strategy {
                Some(s) => s,
                None => SupervisorStrategy::default_strategy(),
            },
            None => SupervisorStrategy::default_strategy(),
        }
    }

    /// The system after the guardian handled the failure report of a
    /// top-level actor at the time `now`.
    pub open spec fn root_supervised(self, failure: Failure<M>, now: u64) -> (Self, StepView) {
        let strategy = self.guardian_strategy(failure.who@);
        match child_index(self.guardians, failure.who@) {
            Some(i) => {
                let history = strategy.history_after(self.guardians[i].failures, now);
                let guardians = self.guardians.update(i, ChildView { pid: failure.who@, failures: history });
                (SystemView { guardians, ..self }).resolved(
                    failure.who,
                    failure.reason,
                    strategy.directive_for(history, now),
                    strategy.targets_for(self.guardians, failure.who@),
                    strategy.delay_for(history),
                )
            },
            None => (self, StepView::Handled),
        }
    }

    /// The system after the actor `pid` reported `failure` of itself at the
    /// time `now`: its user lane is withheld, the failure is in its own
    /// history, and the report is in the system lane of its parent. The
    /// failure of a top-level actor goes to the guardian, which decides by
    /// its strategy; an escalation that reaches the guardian ends in Stop.
    pub open spec fn failed(self, pid: PidView, failure: Failure<M>, now: u64, escalation: bool) -> (
        Self,
        StepView,
    ) {
        match self.actor(pid) {
            Some(p) => {
                let suspended = self.with_actor(
                    pid,
                    ProcessView {
                        mailbox: p.mailbox.step(MailboxEvent::Suspend),
                        context: ContextView {
                            message: None,
                            failures: p.context.failures.push(now),
                            ..p.context
                        },
                    },
                );
                match p.context.parent {
                    Some(pp) => (
                        suspended.post(
                            pp@,
                            MessageHandle::System(Box::new(SystemMessage::Failure(failure))),
                            true,
                        ),
                        StepView::Handled,
                    ),
                    None => if escalation {
                        suspended.resolved(
                            failure.who,
                            failure.reason,
                            Directive::Stop,
                            Seq::<PidView>::empty().push(failure.who@),
                            0,
                        )
                    } else {
                        suspended.root_supervised(failure, now)
                    },
                }
            },
            None => (self, StepView::Handled),
        }
    }

    /// The system after the actor `process`, which was taken off the
    /// registry, has stopped: its parent and its watchers are told that it
    /// terminated, the guardian forgets a top-level actor, and its children
    /// are told to stop.
    pub open spec fn stopped(self, process: ProcessView<M, C>) -> Self {
        let me = process.context.self_pid;
        let told = Broadcast::Terminated(me).message::<M>();
        let parent_told = match process.context.parent {
            Some(pp) => self.post(pp@, told, true),
            None => match child_index(self.guardians, me@) {
                Some(i) => SystemView { guardians: self.guardians.remove(i), ..self },
                None => self,
            },
        };
        let watchers = process.context.watchers;
        let children = child_pids(process.context.children);
        parent_told.broadcast(watchers, watchers.len() as int, told).broadcast(
            children,
            children.len() as int,
            Broadcast::Stop.message::<M>(),
        )
    }

    /// The system after the actor `pid` took the next message of its run,
    /// and what the host has to do next. A message of the application
    /// becomes the current message of the context; a liveness probe among
    /// them is answered to its sender at once. A message of the runtime is
    /// handled by the context at once.
    pub open spec fn polled(self, pid: PidView, now: u64) -> (Self, StepView) {
        match self.actor(pid) {
            Some(p) => {
                let mailbox = p.mailbox.step(MailboxEvent::Next);
                let taken = ProcessView { mailbox, ..p };
                match p.mailbox.output(MailboxEvent::Next) {
                    Some(Delivery::User(m)) => match probe_sender(m) {
                        Some(Some(sender)) => (
                            self.with_actor(pid, taken).post(
                                sender@,
                                touched_message(p.context.self_pid),
                                false,
                            ),
                            StepView::Handled,
                        ),
                        Some(None) => (self.with_actor(pid, taken), StepView::Handled),
                        None => (
                            self.with_actor(
                                pid,
                                ProcessView { context: ContextView { message: Some(m), ..p.context }, ..taken },
                            ),
                            StepView::Receive,
                        ),
                    },
                    Some(Delivery::System(MessageHandle::System(boxed))) => match *boxed {
                        SystemMessage::Started => (self.with_actor(pid, taken), StepView::Started),
                        SystemMessage::Restart => (
                            self.with_actor(
                                pid,
                                ProcessView {
                                    mailbox: mailbox.step(MailboxEvent::PostSystem(started_message())).step(
                                        MailboxEvent::Resume,
                                    ),
                                    context: ContextView { message: None, ..p.context },
                                },
                            ),
                            StepView::Restarting,
                        ),
                        SystemMessage::Stop => (
                            (SystemView { processes: self.processes.remove(pid.id), ..self }).stopped(taken),
                            StepView::Stopped,
                        ),
                        SystemMessage::Watch(w) => (
                            self.with_actor(
                                pid,
                                ProcessView {
                                    context: ContextView {
                                        watchers: if p.context.watchers.contains(w@) {
                                            p.context.watchers
                                        } else {
                                            p.context.watchers.push(w@)
                                        },
                                        ..p.context
                                    },
                                    ..taken
                                },
                            ),
                            StepView::Handled,
                        ),
                        SystemMessage::Unwatch(w) => (
                            self.with_actor(
                                pid,
                                ProcessView {
                                    context: ContextView {
                                        watchers: if p.context.watchers.contains(w@) {
                                            p.context.watchers.remove(p.context.watchers.index_of(w@))
                                        } else {
                                            p.context.watchers
                                        },
                                        ..p.context
                                    },
                                    ..taken
                                },
                            ),
                            StepView::Handled,
                        ),
                        SystemMessage::Terminated(t) => (
                            self.with_actor(
                                pid,
                                ProcessView {
                                    context: ContextView {
                                        children: match t.who {
                                            Some(who) => match child_index(p.context.children, who@) {
                                                Some(i) => p.context.children.remove(i),
                                                None => p.context.children,
                                            },
                                            None => p.context.children,
                                        },
                                        ..p.context
                                    },
                                    ..taken
                                },
                            ),
                            StepView::Terminated(t),
                        ),
                        SystemMessage::Failure(f) => self.with_actor(pid, taken).supervised(pid, f, now),
                    },
                    Some(Delivery::System(_)) => (self.with_actor(pid, taken), StepView::Handled),
                    None => (self, StepView::Done),
                }
            },
            None => (self, StepView::Done),
        }
    }

    /// The system after the actor `pid` finished its current message
    /// without error.
    pub open spec fn completed(self, pid: PidView) -> Self {
        match self.actor(pid) {
            Some(p) => self.with_actor(pid, ProcessView { context: ContextView { message: None, ..p.context }, ..p }),
            None => self,
        }
    }

    /// The parent that a new actor records: the one named at the spawn if it
    /// is a registered actor, else none.
    pub open spec fn effective_parent(self, parent: Option<Pid>) -> Option<Pid> {
        match parent {
            Some(pp) if self.actor(pp@) is Some => parent,
            _ => None,
        }
    }

    /// The system after an actor was spawned under a free name: the actor is
    /// registered with `Started` as the last message of its system lane and
    /// its mailbox started, and it is a child of its supervisor.
    pub open spec fn spawned(
        self,
        pid: Pid,
        props: PropsView<C>,
        parent: Option<Pid>,
        mailbox: MailboxView<MessageHandle<M>>,
    ) -> Self {
        let posted = mailbox.step(MailboxEvent::PostSystem(started_message()));
        let process = ProcessView {
            mailbox: posted.step(MailboxEvent::Start),
            context: ContextView::fresh(pid, self.effective_parent(parent), props),
        };
        let registered = SystemView {
            processes: self.processes.insert(pid@.id, HandleView::Actor(process)),
            ready: if posted.schedules(MailboxEvent::Start) {
                self.ready.push(pid@)
            } else {
                self.ready
            },
            ..self
        };
        registered.adopt(
            match self.effective_parent(parent) {
                Some(pp) => Some(pp@),
                None => None,
            },
            pid@,
        )
    }
}

/// What the host has to do after a step of the run loop.
pub enum Step {
    /// The run has nothing more to take: end it.
    Done,
    /// A message of the application is current: hand it to the receive
    /// logic and report the result.
    Receive,
    /// Tell the actor instance that it has started.
    Started,
    /// Run the pre-restart hook, discard the actor instance and make a new
    /// one with the producer of the recipe.
    Restarting,
    /// The actor has stopped and is unregistered: discard its instance.
    Stopped,
    /// Tell the actor instance that a process it knew has terminated.
    Terminated(Terminated),
    /// The context handled the message itself.
    Handled,
    /// Restart the targets once the delay, in nanoseconds, has gone by.
    Backoff { targets: Vec<Pid>, delay: u64 },
}

/// A `Step` as plain values.
pub enum StepView {
    Done,
    Receive,
    Started,
    Restarting,
    Stopped,
    Terminated(Terminated),
    Handled,
    Backoff { targets: Seq<PidView>, delay: u64 },
}

impl View for Step {
    type V = StepView;

    open spec fn view(&self) -> StepView {
        match self {
            Step::Done => StepView::Done,
            Step::Receive => StepView::Receive,
            Step::Started => StepView::Started,
            Step::Restarting => StepView::Restarting,
            Step::Stopped => StepView::Stopped,
            Step::Terminated(t) => StepView::Terminated(*t),
            Step::Handled => StepView::Handled,
            Step::Backoff { targets, delay } => StepView::Backoff {
                targets: crate::pid::pid_views(targets@),
                delay: *delay,
            },
        }
    }
}

/// A message sent to one process leaves every process under another name
/// as it was.
pub proof fn post_leaves_others<M, C: Callables>(
    system: SystemView<M, C>,
    target: PidView,
    message: MessageHandle<M>,
    system_lane: bool,
    other: PidView,
)
    requires
        other.id != target.id,
    ensures
        system.post(target, message, system_lane).actor(other) == system.actor(other),
{
}

/// A message that is sent to several processes reaches each of them: where
/// the targets have names of their own, each target that is an actor has the
/// message as the last of its system lane afterwards, and is otherwise as it
/// was. So a Stop or Restart that a strategy resolves for all children of a
/// parent leaves none of them out.
pub proof fn broadcast_reaches_every_target<M, C: Callables>(
    system: SystemView<M, C>,
    targets: Seq<PidView>,
    n: int,
    message: MessageHandle<M>,
    k: int,
)
    requires
        0 <= n <= targets.len(),
        0 <= k < targets.len(),
        forall|i: int, j: int| 0 <= i < j < targets.len() ==> targets[i].id != targets[j].id,
        system.actor(targets[k]) is Some,
    ensures
        ({
            let before = system.actor(targets[k]).unwrap();
            let after = system.broadcast(targets, n, message).actor(targets[k]);
            &&& after is Some
            &&& after.unwrap().context == before.context
            &&& after.unwrap().mailbox.user == before.mailbox.user
            &&& after.unwrap().mailbox.system == if k < n {
                before.mailbox.system.push(message)
            } else {
                before.mailbox.system
            }
        }),
    decreases n,
{
    if n > 0 {
        broadcast_reaches_every_target(system, targets, n - 1, message, k);
        let middle = system.broadcast(targets, n - 1, message);
        if n - 1 != k {
            if n - 1 < k {
                assert(targets[n - 1].id != targets[k].id);
            } else {
                assert(targets[k].id != targets[n - 1].id);
            }
            post_leaves_others(middle, targets[n - 1], message, true, targets[k]);
        }
    }
}

/// A message registers no name and frees none: after it was sent, the same
/// names are registered under the same address.
pub proof fn post_keeps_names<M, C: Callables>(
    system: SystemView<M, C>,
    target: PidView,
    message: MessageHandle<M>,
    system_lane: bool,
)
    ensures
        system.post(target, message, system_lane).processes.dom() == system.processes.dom(),
        system.post(target, message, system_lane).address == system.address,
{
    assert(system.post(target, message, system_lane).processes.dom() =~= system.processes.dom());
}

/// A message that is sent to several processes registers no name and frees
/// none.
pub proof fn broadcast_keeps_names<M, C: Callables>(
    system: SystemView<M, C>,
    targets: Seq<PidView>,
    n: int,
    message: MessageHandle<M>,
)
    requires
        0 <= n <= targets.len(),
    ensures
        system.broadcast(targets, n, message).processes.dom() == system.processes.dom(),
        system.broadcast(targets, n, message).address == system.address,
    decreases n,
{
    if n > 0 {
        broadcast_keeps_names(system, targets, n - 1, message);
        post_keeps_names(system.broadcast(targets, n - 1, message), targets[n - 1], message, true);
    }
}

/// An actor that takes `Stop` off its mailbox is unregistered by that step:
/// the host is told that it stopped, its name stands for no process any
/// more while every other name stands for a process as before, and a message
/// sent to its identifier from then on becomes a dead letter. The name is
/// free for a new spawn.
pub proof fn stopped_actor_is_unregistered<M, C: Callables>(
    system: SystemView<M, C>,
    pid: PidView,
    now: u64,
    late: MessageHandle<M>,
    system_lane: bool,
)
    requires
        system.actor(pid) is Some,
        system.actor(pid).unwrap().mailbox.output(MailboxEvent::Next) == Some(
            Delivery::System(Broadcast::Stop.message::<M>()),
        ),
    ensures
        ({
            let (after, step) = system.polled(pid, now);
            &&& step == StepView::Stopped
            &&& after.address == system.address
            &&& after.processes.dom() == system.processes.dom().remove(pid.id)
            &&& !after.resolves(pid)
            &&& after.actor(pid) is None
            &&& after.post(pid, late, system_lane) == (SystemView {
                dead_letters: after.dead_letters.push(
                    DeadLetterView { pid, message: late, sender: sender_of(late) },
                ),
                ..after
            })
        }),
{
    let p = system.actor(pid).unwrap();
    let taken = ProcessView { mailbox: p.mailbox.step(MailboxEvent::Next), ..p };
    let removed = SystemView { processes: system.processes.remove(pid.id), ..system };
    let me = taken.context.self_pid;
    let told = Broadcast::Terminated(me).message::<M>();
    let parent_told = match taken.context.parent {
        Some(pp) => removed.post(pp@, told, true),
        None => match child_index(removed.guardians, me@) {
            Some(i) => SystemView { guardians: removed.guardians.remove(i), ..removed },
            None => removed,
        },
    };
    match taken.context.parent {
        Some(pp) => {
            post_keeps_names(removed, pp@, told, true);
        },
        None => {},
    }
    let watchers = taken.context.watchers;
    let children = child_pids(taken.context.children);
    broadcast_keeps_names(parent_told, watchers, watchers.len() as int, told);
    let watchers_told = parent_told.broadcast(watchers, watchers.len() as int, told);
    broadcast_keeps_names(watchers_told, children, children.len() as int, Broadcast::Stop.message::<M>());
    assert(removed.stopped(taken) == watchers_told.broadcast(
        children,
        children.len() as int,
        Broadcast::Stop.message::<M>(),
    ));
    assert(system.polled(pid, now).0 == removed.stopped(taken));
}

/// The messages that the runtime sends to several processes at once.
pub enum Broadcast {
    Restart,
    Stop,
    /// The process with this identifier has stopped.
    Terminated(Pid),
}

impl Broadcast {
    /// The message as it is put into a mailbox.
    pub open spec fn message<M>(self) -> MessageHandle<M> {
        MessageHandle::System(
            Box::new(
                match self {
                    Broadcast::Restart => SystemMessage::Restart,
                    Broadcast::Stop => SystemMessage::Stop,
                    Broadcast::Terminated(who) => SystemMessage::Terminated(
                        Terminated { who: Some(who), why: TerminatedReason::Stopped },
                    ),
                },
            ),
        )
    }

    /// Builds the message.
    pub fn to_message<M>(&self) -> (m: MessageHandle<M>)
        ensures
            m == self.message::<M>(),
    {
        MessageHandle::System(
            Box::new(
                match self {
                    Broadcast::Restart => SystemMessage::Restart,
                    Broadcast::Stop => SystemMessage::Stop,
                    Broadcast::Terminated(who) => SystemMessage::Terminated(
                        Terminated { who: Some(who.clone()), why: TerminatedReason::Stopped },
                    ),
                },
            ),
        )
    }
}

} // verus!
