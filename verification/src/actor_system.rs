//! The actor system: registry, guardian, event bus, dead letters and the
//! queue of mailboxes that are due for a run. Every operation is one
//! deterministic step; waiting, sleeping and the actors' own code happen
//! outside, between the steps.

use crate::actor_inner_error::ActorInnerError;
use crate::config::{configure, Config, ConfigOption, ConfigView};
use crate::event_stream::{EventStream, EventStreamView, Subscription};
use crate::mailbox::{Delivery, Mailbox, MailboxEvent, MailboxView, RunState};
use crate::message::{Failure, MessageHandle, SystemMessage};
use crate::messages::Touched;
use crate::pid::{Pid, PidView};
use crate::process::{ActorContext, ActorProcess, HandleView, ProcessHandle, ProcessView};
use crate::props::{hooks_ran, initialize, Callables, Props};
use crate::registry::ProcessRegistry;
use crate::supervision_event::SupervisorEvent;
use crate::supervisor::{Children, Decision, Directive, SupervisorStrategy};
use crate::system_view::{
    dead_letter_views, event_stream_name, local_address, probe_sender, process_views, sender_of,
    views_after_insert, views_after_remove, Broadcast, DeadLetterEvent, DeadLetterView, SpawnError, Step,
    StepView, SystemView,
};
use std::collections::VecDeque;
use uuid::Uuid;
use vstd::prelude::*;

verus! {

/// `Uuid::new_v4` of the uuid crate, in its hyphenated text form: a random
/// identifier. Nothing is claimed of the text. The call panics where the
/// operating system can give no random bytes.
#[verifier::external_body]
fn random_id() -> (id: String) {
    Uuid::new_v4().to_string()
}

/// The actor system.
pub struct ActorSystem<M, C: Callables> {
    id: String,
    config: Config,
    process_registry: ProcessRegistry<ProcessHandle<M, C>>,
    guardians: Children,
    event_stream: EventStream,
    events: Vec<SupervisorEvent>,
    published: Vec<MessageHandle<M>>,
    dead_letters: Vec<DeadLetterEvent<M>>,
    ready: VecDeque<Pid>,
}

impl<M, C: Callables> View for ActorSystem<M, C> {
    type V = SystemView<M, C>;

    closed spec fn view(&self) -> SystemView<M, C> {
        SystemView {
            id: self.id@,
            config: self.config@,
            address: self.process_registry.address(),
            processes: process_views(self.process_registry@),
            guardians: self.guardians@,
            event_stream: self.event_stream@,
            events: self.events@,
            published: self.published@,
            dead_letters: dead_letter_views(self.dead_letters@),
            ready: crate::pid::pid_views(self.ready@),
        }
    }
}

impl<M, C: Callables> ActorSystem<M, C> {
    /// A system with the default configuration and a random identifier.
    pub fn new() -> (system: Self)
        ensures
            system@ == Self::initial(system@.id, crate::config::default_config()),
    {
        Self::new_with_config(Config::default())
    }

    /// A system configured by the options, applied left to right to the
    /// defaults, with a random identifier.
    pub fn new_config_options(options: Vec<ConfigOption>) -> (system: Self)
        ensures
            system@ == Self::initial(
                system@.id,
                crate::config::apply_options(
                    crate::config::default_config(),
                    options@,
                    options@.len() as int,
                ),
            ),
    {
        let config = configure(&options);
        Self::new_with_config(config)
    }

    /// A system with the given configuration and a random identifier.
    pub fn new_with_config(config: Config) -> (system: Self)
        ensures
            system@ == Self::initial(system@.id, config@),
    {
        Self::with_id(random_id(), config)
    }

    /// What every new system looks like: the event-stream process is the one
    /// registered process, the supervision log is the one subscription, and
    /// nothing else has happened.
    pub open spec fn initial(id: Seq<char>, config: ConfigView) -> SystemView<M, C> {
        SystemView {
            id,
            config,
            address: local_address(),
            processes: Map::<Seq<char>, HandleView<M, C>>::empty().insert(
                event_stream_name(),
                HandleView::EventStream,
            ),
            guardians: Seq::empty(),
            event_stream: (EventStreamView { next_id: 0, subscribers: Seq::empty() }).subscribed(),
            events: Seq::empty(),
            published: Seq::empty(),
            dead_letters: Seq::empty(),
            ready: Seq::empty(),
        }
    }

    /// A system with the given identifier and configuration.
    pub fn with_id(id: String, config: Config) -> (system: Self)
        ensures
            system@ == Self::initial(id@, config@),
    {
        let mut process_registry: ProcessRegistry<ProcessHandle<M, C>> = ProcessRegistry::new(
            "nonhost".to_owned(),
        );
        process_registry.add_process(ProcessHandle::EventStream, "eventstream");
        let mut system = ActorSystem {
            id,
            config,
            process_registry,
            guardians: Children::new(),
            event_stream: EventStream::new(),
            events: Vec::new(),
            published: Vec::new(),
            dead_letters: Vec::new(),
            ready: VecDeque::new(),
        };
        let ghost registry = system.process_registry@;
        subscribe_supervision(&mut system);
        proof {
            assert(registry =~= Map::<Seq<char>, ProcessHandle<M, C>>::empty().insert(
                event_stream_name(),
                ProcessHandle::EventStream,
            ));
            assert(system@.processes =~= Self::initial(id@, config@).processes);
            assert(system@.dead_letters =~= Seq::empty());
            assert(system@.ready =~= Seq::empty());
        }
        system
    }

    /// The identifier of the system.
    pub fn get_id(&self) -> (id: &String)
        ensures
            id@ == self@.id,
    {
        &self.id
    }

    /// The identifier that stands for the name `id` in this system.
    pub fn new_local_pid(&self, id: &str) -> (pid: Pid)
        ensures
            pid@ == self@.pid_of(id@),
    {
        let address = self.process_registry.get_address();
        Pid::new(address.as_str(), id)
    }

    pub fn get_address(&self) -> (a: String)
        ensures
            a@ == self@.address,
    {
        self.process_registry.get_address()
    }

    pub fn get_config(&self) -> (c: Config)
        ensures
            c@ == self@.config,
    {
        self.config.clone()
    }

    /// The registry of this system.
    pub fn get_process_registry(&self) -> (r: &ProcessRegistry<ProcessHandle<M, C>>)
        ensures
            process_views(r@) == self@.processes,
            r.address() == self@.address,
    {
        &self.process_registry
    }

    /// The subscriptions of the event bus.
    pub fn get_event_stream(&self) -> (e: &EventStream)
        ensures
            e@ == self@.event_stream,
    {
        &self.event_stream
    }

    /// The top-level actors with their failure histories.
    pub fn get_guardians(&self) -> (g: &Children)
        ensures
            g@ == self@.guardians,
    {
        &self.guardians
    }

    /// The envelopes that could not be delivered, oldest first.
    pub fn get_dead_letter(&self) -> (d: &Vec<DeadLetterEvent<M>>)
        ensures
            dead_letter_views(d@) == self@.dead_letters,
    {
        &self.dead_letters
    }

    /// The supervisor events that wait to be handed to the subscribers.
    pub fn get_events(&self) -> (e: &Vec<SupervisorEvent>)
        ensures
            e@ == self@.events,
    {
        &self.events
    }

    fn probe(message: &MessageHandle<M>) -> (r: Option<Option<Pid>>)
        ensures
            r == probe_sender(*message),
    {
        match message {
            MessageHandle::Touch(_) => Some(None),
            MessageHandle::Envelope(e) => match e.get_message_handle() {
                MessageHandle::Touch(_) => match e.get_sender() {
                    Some(s) => Some(Some(s.clone())),
                    None => Some(None),
                },
                _ => None,
            },
            _ => None,
        }
    }

    /// The sender that an envelope names.
    fn sender_from(message: &MessageHandle<M>) -> (r: Option<Pid>)
        ensures
            match r {
                Some(p) => sender_of(*message) == Some(p@),
                None => sender_of(*message) is None,
            },
    {
        match message {
            MessageHandle::Envelope(e) => match e.get_sender() {
                Some(p) => Some(p.clone()),
                None => None,
            },
            _ => None,
        }
    }

    /// Puts a process back under the name that it was taken from.
    fn put_back(&mut self, target: &Pid, handle: ProcessHandle<M, C>, Ghost(before): Ghost<SystemView<M, C>>)
        requires
            target@.address == before.address,
            before.processes.contains_key(target@.id),
            old(self)@ == (SystemView { processes: before.processes.remove(target@.id), ..before }),
        ensures
            final(self)@ == (SystemView { processes: before.processes.insert(target@.id, handle@), ..before }),
    {
        let ghost registry = self.process_registry@;
        self.process_registry.add_process(handle, target.id.as_str());
        proof {
            assert(!process_views(registry).contains_key(target@.id));
            assert(!registry.contains_key(target@.id));
            views_after_insert(registry, target@.id, handle);
            assert(before.processes.remove(target@.id).insert(target@.id, handle@) =~= before.processes.insert(
                target@.id,
                handle@,
            ));
        }
    }

    /// Takes a registered process out of the registry for a change.
    fn take_out(&mut self, target: &Pid) -> (r: Option<ProcessHandle<M, C>>)
        ensures
            match r {
                Some(h) => old(self)@.resolves(target@) && h@ == old(self)@.processes[target@.id]
                    && final(self)@ == (SystemView {
                    processes: old(self)@.processes.remove(target@.id),
                    ..old(self)@
                }),
                None => !old(self)@.resolves(target@) && *final(self) == *old(self),
            },
    {
        let ghost registry = self.process_registry@;
        let r = self.process_registry.remove(target);
        proof {
            if r is Some {
                views_after_remove(registry, target@.id);
            }
        }
        r
    }

    fn post(&mut self, target: &Pid, message: MessageHandle<M>, system_lane: bool)
        ensures
            final(self)@ == old(self)@.post(target@, message, system_lane),
    {
        let ghost before = self@;
        match self.take_out(target) {
            Some(ProcessHandle::Actor(mut p)) => {
                let schedule = if system_lane {
                    p.mailbox.post_system(message)
                } else {
                    p.mailbox.post_user(message)
                };
                self.put_back(target, ProcessHandle::Actor(p), Ghost(before));
                if schedule {
                    self.ready.push_back(target.clone());
                    proof {
                        assert(self@.ready =~= before.ready.push(target@));
                    }
                }
            },
            Some(ProcessHandle::EventStream) => {
                self.put_back(target, ProcessHandle::EventStream, Ghost(before));
                self.published.push(message);
                proof {
                    assert(before.processes.insert(target@.id, HandleView::EventStream) =~= before.processes);
                }
            },
            None => {
                let sender = Self::sender_from(&message);
                self.dead_letters.push(DeadLetterEvent { pid: target.clone(), message, sender });
                proof {
                    assert(self@.dead_letters =~= before.dead_letters.push(
                        DeadLetterView { pid: target@, message, sender: sender_of(message) },
                    ));
                }
            },
        }
    }

    /// Sends a message of the application to `target`: to the back of the
    /// user lane of its mailbox, or to the dead letters if `target` names no
    /// registered process.
    pub fn send_user_message(&mut self, target: &Pid, message: MessageHandle<M>)
        ensures
            final(self)@ == old(self)@.post(target@, message, false),
    {
        self.post(target, message, false)
    }

    /// Sends a message of the runtime to `target`: to the back of the system
    /// lane of its mailbox, or to the dead letters if `target` names no
    /// registered process.
    pub fn send_system_message(&mut self, target: &Pid, message: SystemMessage<M>)
        ensures
            final(self)@ == old(self)@.post(target@, MessageHandle::System(Box::new(message)), true),
    {
        self.post(target, MessageHandle::System(Box::new(message)), true)
    }

    fn adopt(&mut self, parent: Option<&Pid>, child: Pid)
        ensures
            final(self)@ == old(self)@.adopt(
                match parent {
                    Some(pp) => Some(pp@),
                    None => None,
                },
                child@,
            ),
    {
        let ghost before = self@;
        match parent {
            Some(pp) => {
                match self.take_out(pp) {
                    Some(ProcessHandle::Actor(mut p)) => {
                        let ghost view = p@;
                        let added = p.context.children.add(child);
                        self.put_back(pp, ProcessHandle::Actor(p), Ghost(before));
                        proof {
                            if !added {
                                assert(before.processes.insert(pp@.id, HandleView::Actor(view))
                                    =~= before.processes);
                            }
                        }
                    },
                    Some(ProcessHandle::EventStream) => {
                        self.put_back(pp, ProcessHandle::EventStream, Ghost(before));
                        proof {
                            assert(before.processes.insert(pp@.id, HandleView::EventStream)
                                =~= before.processes);
                        }
                        self.guardians.add(child);
                    },
                    None => {
                        self.guardians.add(child);
                    },
                }
            },
            None => {
                self.guardians.add(child);
            },
        }
    }

    /// The default spawner, with the mailbox that the factory of the recipe
    /// produced: registers a new actor under `name` as a child of `parent`,
    /// or of the guardian, runs the hooks of the recipe, enqueues `Started`
    /// and starts the mailbox. Where a process holds the name already,
    /// nothing happens at all, and no hook runs.
    pub fn spawn_with_mailbox(
        &mut self,
        props: Props<C>,
        name: &str,
        parent: Option<&Pid>,
        mailbox: Mailbox<MessageHandle<M>>,
    ) -> (r: Result<Pid, SpawnError>)
        ensures
            match r {
                Err(SpawnError::NameAlreadyExists(existing)) => {
                    &&& old(self)@.processes.contains_key(name@)
                    &&& existing@ == old(self)@.pid_of(name@)
                    &&& *final(self) == *old(self)
                },
                Ok(pid) => {
                    &&& !old(self)@.processes.contains_key(name@)
                    &&& pid@ == old(self)@.pid_of(name@)
                    &&& hooks_ran(props@.on_init, pid)
                    &&& final(self)@ == old(self)@.spawned(
                        pid,
                        props@,
                        match parent {
                            Some(pp) => Some(*pp),
                            None => None,
                        },
                        mailbox@,
                    )
                },
            },
    {
        let ghost before = self@;
        let pid = self.new_local_pid(name);
        if self.process_registry.contains(&pid) {
            return Err(SpawnError::NameAlreadyExists(pid));
        }
        let supervisor: Option<Pid> = match parent {
            Some(pp) => if self.get_actor(pp).is_some() {
                Some(pp.clone())
            } else {
                None
            },
            None => None,
        };
        let recorded: Option<Pid> = match &supervisor {
            Some(pp) => Some(pp.clone()),
            None => None,
        };
        initialize(&props, &pid);
        let mut mailbox = mailbox;
        mailbox.post_system(MessageHandle::System(Box::new(SystemMessage::Started)));
        let schedule = mailbox.start();
        let context = ActorContext::new(pid.clone(), recorded, props);
        let process = ActorProcess { mailbox, context };
        let ghost registry = self.process_registry@;
        let ghost handle = ProcessHandle::Actor(process);
        self.process_registry.add_process(ProcessHandle::Actor(process), name);
        proof {
            views_after_insert(registry, name@, handle);
        }
        if schedule {
            self.ready.push_back(pid.clone());
            proof {
                assert(self@.ready =~= before.ready.push(pid@));
            }
        }
        self.adopt(supervisor.as_ref(), pid.clone());
        Ok(pid)
    }

    /// The default spawner with the default mailbox: see
    /// `spawn_with_mailbox`.
    pub fn spawn_named(&mut self, props: Props<C>, name: &str, parent: Option<&Pid>) -> (r: Result<
        Pid,
        SpawnError,
    >)
        ensures
            match r {
                Err(SpawnError::NameAlreadyExists(existing)) => {
                    &&& old(self)@.processes.contains_key(name@)
                    &&& existing@ == old(self)@.pid_of(name@)
                    &&& *final(self) == *old(self)
                },
                Ok(pid) => {
                    &&& !old(self)@.processes.contains_key(name@)
                    &&& pid@ == old(self)@.pid_of(name@)
                    &&& hooks_ran(props@.on_init, pid)
                    &&& final(self)@ == old(self)@.spawned(
                        pid,
                        props@,
                        match parent {
                            Some(pp) => Some(*pp),
                            None => None,
                        },
                        MailboxView::fresh(),
                    )
                },
            },
    {
        self.spawn_with_mailbox(props, name, parent, Mailbox::new())
    }

    /// Sends the same message of the runtime to each target, in order.
    pub fn broadcast(&mut self, targets: &Vec<Pid>, message: &Broadcast)
        ensures
            final(self)@ == old(self)@.broadcast(
                crate::pid::pid_views(targets@),
                targets@.len() as int,
                message.message::<M>(),
            ),
    {
        let mut i: usize = 0;
        while i < targets.len()
            invariant
                i <= targets.len(),
                self@ == old(self)@.broadcast(
                    crate::pid::pid_views(targets@),
                    i as int,
                    message.message::<M>(),
                ),
            decreases targets.len() - i,
        {
            self.post(&targets[i], message.to_message(), true);
            i = i + 1;
        }
    }

    /// Tells each of the children to restart: `Restart` goes to the system
    /// lane of each.
    pub fn restart_children(&mut self, targets: &Vec<Pid>)
        ensures
            final(self)@ == old(self)@.broadcast(
                crate::pid::pid_views(targets@),
                targets@.len() as int,
                Broadcast::Restart.message::<M>(),
            ),
    {
        self.broadcast(targets, &Broadcast::Restart)
    }

    /// Tells each of the children to stop: `Stop` goes to the system lane of
    /// each.
    pub fn stop_children(&mut self, targets: &Vec<Pid>)
        ensures
            final(self)@ == old(self)@.broadcast(
                crate::pid::pid_views(targets@),
                targets@.len() as int,
                Broadcast::Stop.message::<M>(),
            ),
    {
        self.broadcast(targets, &Broadcast::Stop)
    }

    fn resume(&mut self, target: &Pid)
        ensures
            final(self)@ == old(self)@.resumed(target@),
    {
        let ghost before = self@;
        match self.take_out(target) {
            Some(ProcessHandle::Actor(mut p)) => {
                let schedule = p.mailbox.resume();
                self.put_back(target, ProcessHandle::Actor(p), Ghost(before));
                if schedule {
                    self.ready.push_back(target.clone());
                    proof {
                        assert(self@.ready =~= before.ready.push(target@));
                    }
                }
            },
            Some(ProcessHandle::EventStream) => {
                self.put_back(target, ProcessHandle::EventStream, Ghost(before));
                proof {
                    assert(before.processes.insert(target@.id, HandleView::EventStream) =~= before.processes);
                }
            },
            None => {},
        }
    }

    /// Lets each of the children go on as it is: the user lane of each is
    /// released, and nothing else about the child changes.
    pub fn resume_children(&mut self, targets: &Vec<Pid>)
        ensures
            final(self)@ == old(self)@.resumed_all(
                crate::pid::pid_views(targets@),
                targets@.len() as int,
            ),
    {
        let mut i: usize = 0;
        while i < targets.len()
            invariant
                i <= targets.len(),
                self@ == old(self)@.resumed_all(crate::pid::pid_views(targets@), i as int),
            decreases targets.len() - i,
        {
            self.resume(&targets[i]);
            i = i + 1;
        }
    }

    /// The mailbox that is due next, taken off the queue of the dispatcher.
    pub fn next_scheduled(&mut self) -> (r: Option<Pid>)
        ensures
            match r {
                Some(pid) => old(self)@.ready.len() > 0 && pid@ == old(self)@.ready[0] && final(self)@ == (
                SystemView { ready: old(self)@.ready.drop_first(), ..old(self)@ }),
                None => old(self)@.ready.len() == 0 && final(self)@ == old(self)@,
            },
    {
        let ghost before = self@;
        let r = self.ready.pop_front();
        proof {
            if r is Some {
                assert(self@.ready =~= before.ready.drop_first());
            } else {
                assert(self@.ready =~= before.ready);
            }
        }
        r
    }

    /// Begins a run of the mailbox of the actor `pid`. Succeeds only for a
    /// mailbox that is scheduled, so no two runs of one mailbox overlap.
    pub fn begin_run(&mut self, pid: &Pid) -> (begun: bool)
        ensures
            final(self)@ == old(self)@.run_begun(pid@),
            begun == match old(self)@.actor(pid@) {
                Some(p) => p.mailbox.state == RunState::Scheduled,
                None => false,
            },
    {
        let ghost before = self@;
        match self.take_out(pid) {
            Some(ProcessHandle::Actor(mut p)) => {
                let throughput = match p.context.props.get_configured_dispatcher() {
                    Some(d) => d.throughput,
                    None => self.config.dispatcher().throughput,
                };
                let begun = p.mailbox.begin_run(throughput);
                self.put_back(pid, ProcessHandle::Actor(p), Ghost(before));
                begun
            },
            Some(ProcessHandle::EventStream) => {
                self.put_back(pid, ProcessHandle::EventStream, Ghost(before));
                proof {
                    assert(before.processes.insert(pid@.id, HandleView::EventStream) =~= before.processes);
                }
                false
            },
            None => false,
        }
    }

    /// Ends the run of the mailbox of the actor `pid`. Returns whether the
    /// mailbox was put on the queue of the dispatcher again.
    pub fn end_run(&mut self, pid: &Pid) -> (rescheduled: bool)
        ensures
            final(self)@ == old(self)@.run_ended(pid@),
            rescheduled == match old(self)@.actor(pid@) {
                Some(p) => p.mailbox.schedules(MailboxEvent::EndRun),
                None => false,
            },
    {
        let ghost before = self@;
        match self.take_out(pid) {
            Some(ProcessHandle::Actor(mut p)) => {
                let reschedule = p.mailbox.end_run();
                self.put_back(pid, ProcessHandle::Actor(p), Ghost(before));
                if reschedule {
                    self.ready.push_back(pid.clone());
                    proof {
                        assert(self@.ready =~= before.ready.push(pid@));
                    }
                }
                reschedule
            },
            Some(ProcessHandle::EventStream) => {
                self.put_back(pid, ProcessHandle::EventStream, Ghost(before));
                proof {
                    assert(before.processes.insert(pid@.id, HandleView::EventStream) =~= before.processes);
                }
                false
            },
            None => false,
        }
    }

    /// Carries a directive out on the targets.
    pub fn carry_out(&mut self, directive: Directive, targets: &Vec<Pid>)
        ensures
            final(self)@ == old(self)@.carried_out(directive, crate::pid::pid_views(targets@)),
    {
        match directive {
            Directive::Resume => self.resume_children(targets),
            Directive::Restart => self.restart_children(targets),
            Directive::Stop => self.stop_children(targets),
            Directive::Escalate => {},
        }
    }

    /// Resolves a decision for the failed `child`: publishes the supervisor
    /// event and carries the directive out on the targets at once, or hands
    /// it out as a step for the host where the decision names a delay.
    pub fn resolve(&mut self, child: Pid, reason: ActorInnerError, decision: Decision) -> (step: Step)
        ensures
            (final(self)@, step@) == old(self)@.resolved(
                child,
                reason,
                decision.directive,
                crate::pid::pid_views(decision.targets@),
                decision.delay,
            ),
    {
        let Decision { directive, targets, delay } = decision;
        self.events.push(SupervisorEvent { child, reason, directive });
        if delay > 0 {
            Step::Backoff { targets, delay }
        } else {
            self.carry_out(directive, &targets);
            Step::Handled
        }
    }

    fn supervise_root(&mut self, failure: Failure<M>, now: u64) -> (step: Step)
        ensures
            (final(self)@, step@) == old(self)@.root_supervised(failure, now),
    {
        let strategy = match self.get_actor(&failure.who) {
            Some(p) => match p.context.props.get_guardian_strategy() {
                Some(s) => s,
                None => SupervisorStrategy::one_for_one(
                    crate::supervisor::DEFAULT_MAX_RETRIES,
                    crate::supervisor::DEFAULT_WITHIN_DURATION,
                ),
            },
            None => SupervisorStrategy::one_for_one(
                crate::supervisor::DEFAULT_MAX_RETRIES,
                crate::supervisor::DEFAULT_WITHIN_DURATION,
            ),
        };
        let decision = self.guardians.handle_child_failure(&strategy, &failure.who, now);
        match decision {
            Some(d) => {
                let Failure { who, reason, restart_stats: _, message: _ } = failure;
                self.resolve(who, reason, d)
            },
            None => Step::Handled,
        }
    }

    fn stop_actor(&mut self, process: ActorProcess<M, C>)
        ensures
            final(self)@ == old(self)@.stopped(process@),
    {
        let ActorProcess { mailbox: _, context } = process;
        let told = Broadcast::Terminated(context.self_pid.clone());
        match &context.parent {
            Some(pp) => {
                self.post(pp, told.to_message(), true);
            },
            None => {
                self.guardians.remove(&context.self_pid);
            },
        }
        let watchers = context.watchers.to_vec();
        self.broadcast(&watchers, &told);
        let children = context.children.pids();
        self.broadcast(&children, &Broadcast::Stop);
    }

    /// One step of the run of the actor `pid`: takes the next message off
    /// its mailbox and says what the host has to do. System messages are
    /// handled here; `now` is the time at which a failure report that is
    /// among them counts.
    pub fn poll(&mut self, pid: &Pid, now: u64) -> (step: Step)
        ensures
            (final(self)@, step@) == old(self)@.polled(pid@, now),
    {
        let ghost before = self@;
        match self.take_out(pid) {
            Some(ProcessHandle::Actor(mut p)) => {
                let ghost untouched = p@;
                match p.mailbox.next() {
                    Some(Delivery::User(m)) => {
                        match Self::probe(&m) {
                            Some(Some(sender)) => {
                                let answer = MessageHandle::Touched(
                                    Touched { who: Some(p.context.self_pid.clone()) },
                                );
                                self.put_back(pid, ProcessHandle::Actor(p), Ghost(before));
                                self.post(&sender, answer, false);
                                Step::Handled
                            },
                            Some(None) => {
                                self.put_back(pid, ProcessHandle::Actor(p), Ghost(before));
                                Step::Handled
                            },
                            None => {
                                p.context.message = Some(m);
                                self.put_back(pid, ProcessHandle::Actor(p), Ghost(before));
                                Step::Receive
                            },
                        }
                    },
                    Some(Delivery::System(MessageHandle::System(boxed))) => {
                        let system_message: SystemMessage<M> = *boxed;
                        match system_message {
                            SystemMessage::Started => {
                                self.put_back(pid, ProcessHandle::Actor(p), Ghost(before));
                                Step::Started
                            },
                            SystemMessage::Restart => {
                                p.mailbox.post_system(MessageHandle::System(Box::new(SystemMessage::Started)));
                                p.mailbox.resume();
                                p.context.message = None;
                                self.put_back(pid, ProcessHandle::Actor(p), Ghost(before));
                                Step::Restarting
                            },
                            SystemMessage::Stop => {
                                self.stop_actor(p);
                                Step::Stopped
                            },
                            SystemMessage::Watch(w) => {
                                p.context.watchers.add(w);
                                self.put_back(pid, ProcessHandle::Actor(p), Ghost(before));
                                Step::Handled
                            },
                            SystemMessage::Unwatch(w) => {
                                p.context.watchers.remove(&w);
                                self.put_back(pid, ProcessHandle::Actor(p), Ghost(before));
                                Step::Handled
                            },
                            SystemMessage::Terminated(t) => {
                                match &t.who {
                                    Some(who) => {
                                        p.context.children.remove(who);
                                    },
                                    None => {},
                                }
                                self.put_back(pid, ProcessHandle::Actor(p), Ghost(before));
                                Step::Terminated(t)
                            },
                            SystemMessage::Failure(f) => {
                                let ghost taken = p@;
                                let strategy = p.context.props.get_supervisor_strategy();
                                let decision = p.context.children.handle_child_failure(&strategy, &f.who, now);
                                let ghost judged = p@;
                                self.put_back(pid, ProcessHandle::Actor(p), Ghost(before));
                                proof {
                                    assert(before.with_actor(pid@, taken).with_actor(pid@, judged).processes
                                        =~= before.with_actor(pid@, judged).processes);
                                    assert(before.with_actor(pid@, taken).actor(pid@) == Some(taken));
                                    if decision is None {
                                        assert(judged == taken);
                                    }
                                }
                                match decision {
                                    Some(d) => {
                                        let Failure { who, reason, restart_stats: _, message: _ } = f;
                                        self.resolve(who, reason, d)
                                    },
                                    None => Step::Handled,
                                }
                            },
                        }
                    },
                    Some(Delivery::System(_)) => {
                        self.put_back(pid, ProcessHandle::Actor(p), Ghost(before));
                        Step::Handled
                    },
                    None => {
                        self.put_back(pid, ProcessHandle::Actor(p), Ghost(before));
                        proof {
                            assert(before.processes.insert(pid@.id, HandleView::Actor(untouched))
                                =~= before.processes);
                        }
                        Step::Done
                    },
                }
            },
            Some(ProcessHandle::EventStream) => {
                self.put_back(pid, ProcessHandle::EventStream, Ghost(before));
                proof {
                    assert(before.processes.insert(pid@.id, HandleView::EventStream) =~= before.processes);
                }
                Step::Done
            },
            None => Step::Done,
        }
    }

    fn report(&mut self, pid: &Pid, reason: ActorInnerError, now: u64, escalation: bool, carried: Option<
        MessageHandle<M>,
    >) -> (step: Step)
        ensures
            match old(self)@.actor(pid@) {
                Some(p) => match Self::reported_message(p, carried) {
                    Some(m) => exists|failure: Failure<M>|
                        {
                            &&& failure.who == p.context.self_pid
                            &&& failure.reason == reason
                            &&& failure.message == m
                            &&& failure.restart_stats@ == p.context.failures.push(now)
                            &&& #[trigger] old(self)@.failed(pid@, failure, now, escalation) == (
                                final(self)@,
                                step@,
                            )
                        },
                    None => final(self)@ == old(self)@ && step@ == StepView::Handled,
                },
                None => final(self)@ == old(self)@ && step@ == StepView::Handled,
            },
    {
        let ghost before = self@;
        match self.take_out(pid) {
            Some(ProcessHandle::Actor(mut p)) => {
                let ghost untouched = p@;
                let current = match carried {
                    Some(m) => Some(m),
                    None => p.context.message.take(),
                };
                match current {
                    Some(m) => {
                        p.mailbox.suspend();
                        p.context.message = None;
                        p.context.restart_stats.fail_at(now);
                        let failure = Failure {
                            who: p.context.self_pid.clone(),
                            reason,
                            restart_stats: p.context.restart_stats.clone(),
                            message: m,
                        };
                        let parent = match &p.context.parent {
                            Some(pp) => Some(pp.clone()),
                            None => None,
                        };
                        self.put_back(pid, ProcessHandle::Actor(p), Ghost(before));
                        let step = match parent {
                            Some(pp) => {
                                self.post(&pp, MessageHandle::System(Box::new(SystemMessage::Failure(failure))), true);
                                Step::Handled
                            },
                            None => {
                                if escalation {
                                    let Failure { who, reason, restart_stats: _, message: _ } = failure;
                                    let mut targets: Vec<Pid> = Vec::new();
                                    targets.push(who.clone());
                                    proof {
                                        assert(crate::pid::pid_views(targets@) =~= Seq::<PidView>::empty().push(
                                            who@,
                                        ));
                                    }
                                    self.resolve(who, reason, Decision { directive: Directive::Stop, targets, delay: 0 })
                                } else {
                                    self.supervise_root(failure, now)
                                }
                            },
                        };
                        proof {
                            assert(before.failed(pid@, failure, now, escalation) == (self@, step@));
                        }
                        step
                    },
                    None => {
                        self.put_back(pid, ProcessHandle::Actor(p), Ghost(before));
                        proof {
                            assert(before.processes.insert(pid@.id, HandleView::Actor(untouched))
                                =~= before.processes);
                        }
                        Step::Handled
                    },
                }
            },
            Some(ProcessHandle::EventStream) => {
                self.put_back(pid, ProcessHandle::EventStream, Ghost(before));
                proof {
                    assert(before.processes.insert(pid@.id, HandleView::EventStream) =~= before.processes);
                }
                Step::Handled
            },
            None => Step::Handled,
        }
    }

    /// The message that a failure report carries: the one handed in, else
    /// the current message of the context.
    pub open spec fn reported_message(p: ProcessView<M, C>, carried: Option<MessageHandle<M>>) -> Option<
        MessageHandle<M>,
    > {
        match carried {
            Some(m) => Some(m),
            None => p.context.message,
        }
    }

    /// Ends the processing of the current message of the actor `pid`. On
    /// success the context has no current message any more. On an error the
    /// actor reports the failure, with the message it was processing, to its
    /// supervisor, and its user lane is withheld until the supervisor has
    /// decided. An error without a current message, or for a name that
    /// stands for no actor, changes nothing.
    pub fn complete(&mut self, pid: &Pid, outcome: Result<(), ActorInnerError>, now: u64) -> (step: Step)
        ensures
            match outcome {
                Ok(_) => final(self)@ == old(self)@.completed(pid@) && step@ == StepView::Handled,
                Err(reason) => match old(self)@.actor(pid@) {
                    Some(p) => match p.context.message {
                        Some(m) => exists|failure: Failure<M>|
                            {
                                &&& failure.who == p.context.self_pid
                                &&& failure.reason == reason
                                &&& failure.message == m
                                &&& failure.restart_stats@ == p.context.failures.push(now)
                                &&& #[trigger] old(self)@.failed(pid@, failure, now, false) == (
                                    final(self)@,
                                    step@,
                                )
                            },
                        None => final(self)@ == old(self)@ && step@ == StepView::Handled,
                    },
                    None => final(self)@ == old(self)@ && step@ == StepView::Handled,
                },
            },
    {
        match outcome {
            Ok(_) => {
                let ghost before = self@;
                match self.take_out(pid) {
                    Some(ProcessHandle::Actor(mut p)) => {
                        p.context.message = None;
                        self.put_back(pid, ProcessHandle::Actor(p), Ghost(before));
                    },
                    Some(ProcessHandle::EventStream) => {
                        self.put_back(pid, ProcessHandle::EventStream, Ghost(before));
                        proof {
                            assert(before.processes.insert(pid@.id, HandleView::EventStream)
                                =~= before.processes);
                        }
                    },
                    None => {},
                }
                Step::Handled
            },
            Err(reason) => self.report(pid, reason, now, false, None),
        }
    }

    /// Escalates a failure that the actor `supervisor` will not decide
    /// itself: the supervisor reports it as its own failure, with the
    /// reason and the message unchanged, one level up. Where no level is
    /// left the escalation ends in Stop for the supervisor.
    pub fn escalate_failure(&mut self, supervisor: &Pid, failure: Failure<M>, now: u64) -> (step: Step)
        ensures
            match old(self)@.actor(supervisor@) {
                Some(p) => exists|report: Failure<M>|
                    {
                        &&& report.who == p.context.self_pid
                        &&& report.reason == failure.reason
                        &&& report.message == failure.message
                        &&& report.restart_stats@ == p.context.failures.push(now)
                        &&& #[trigger] old(self)@.failed(supervisor@, report, now, true) == (
                            final(self)@,
                            step@,
                        )
                    },
                None => final(self)@ == old(self)@ && step@ == StepView::Handled,
            },
    {
        let Failure { who: _, reason, restart_stats: _, message } = failure;
        self.report(supervisor, reason, now, true, Some(message))
    }

    /// Hands out the supervisor events that were published since the last
    /// call, oldest first, for the host to pass them to the subscribers.
    pub fn take_events(&mut self) -> (events: Vec<SupervisorEvent>)
        ensures
            events@ == old(self)@.events,
            final(self)@ == (SystemView { events: Seq::empty(), ..old(self)@ }),
    {
        let mut events: Vec<SupervisorEvent> = Vec::new();
        std::mem::swap(&mut self.events, &mut events);
        events
    }

    /// Hands out the messages that were sent to the event-stream process
    /// since the last call, oldest first.
    pub fn take_published(&mut self) -> (published: Vec<MessageHandle<M>>)
        ensures
            published@ == old(self)@.published,
            final(self)@ == (SystemView { published: Seq::empty(), ..old(self)@ }),
    {
        let mut published: Vec<MessageHandle<M>> = Vec::new();
        std::mem::swap(&mut self.published, &mut published);
        published
    }

    /// Hands out the dead letters that came in since the last call, oldest
    /// first.
    pub fn take_dead_letters(&mut self) -> (letters: Vec<DeadLetterEvent<M>>)
        ensures
            dead_letter_views(letters@) == old(self)@.dead_letters,
            final(self)@ == (SystemView { dead_letters: Seq::empty(), ..old(self)@ }),
    {
        let mut letters: Vec<DeadLetterEvent<M>> = Vec::new();
        std::mem::swap(&mut self.dead_letters, &mut letters);
        proof {
            assert(self@.dead_letters =~= Seq::empty());
        }
        letters
    }

    /// Adds a subscription to the event bus.
    pub fn subscribe(&mut self) -> (s: Subscription)
        ensures
            s.id == old(self)@.event_stream.next_id,
            final(self)@ == (SystemView { event_stream: old(self)@.event_stream.subscribed(), ..old(self)@ }),
    {
        self.event_stream.subscribe()
    }

    /// Takes a subscription off the event bus. Returns whether it was there.
    pub fn unsubscribe(&mut self, subscription: &Subscription) -> (removed: bool)
        ensures
            removed == old(self)@.event_stream.subscribers.contains(subscription.id),
            final(self)@ == (SystemView {
                event_stream: old(self)@.event_stream.unsubscribed(subscription.id),
                ..old(self)@
            }),
    {
        self.event_stream.unsubscribe(subscription)
    }

    /// The actor that `pid` names, if it names one.
    pub fn get_actor(&self, pid: &Pid) -> (r: Option<&ActorProcess<M, C>>)
        ensures
            match r {
                Some(p) => self@.actor(pid@) == Some(p@),
                None => self@.actor(pid@) is None,
            },
    {
        match self.process_registry.get(pid) {
            Some(ProcessHandle::Actor(p)) => Some(p),
            _ => None,
        }
    }
}

/// Subscribes the supervision log to the event bus of the system: the
/// handler that the host keeps under the returned receipt writes one line for
/// every supervisor event, with the child, the directive and the reason.
pub fn subscribe_supervision<M, C: Callables>(actor_system: &mut ActorSystem<M, C>) -> (s: Subscription)
    ensures
        s.id == old(actor_system)@.event_stream.next_id,
        final(actor_system)@ == (SystemView {
            event_stream: old(actor_system)@.event_stream.subscribed(),
            ..old(actor_system)@
        }),
{
    actor_system.subscribe()
}

impl<C: Callables> Props<C> {
    /// Spawns an actor from this recipe with the default spawner: see
    /// `ActorSystem::spawn_named`.
    pub fn spawn<M>(self, actor_system: &mut ActorSystem<M, C>, name: &str, parent: Option<&Pid>) -> (r: Result<
        Pid,
        SpawnError,
    >)
        ensures
            match r {
                Err(SpawnError::NameAlreadyExists(existing)) => {
                    &&& old(actor_system)@.processes.contains_key(name@)
                    &&& existing@ == old(actor_system)@.pid_of(name@)
                    &&& *final(actor_system) == *old(actor_system)
                },
                Ok(pid) => {
                    &&& !old(actor_system)@.processes.contains_key(name@)
                    &&& pid@ == old(actor_system)@.pid_of(name@)
                    &&& hooks_ran(self@.on_init, pid)
                    &&& final(actor_system)@ == old(actor_system)@.spawned(
                        pid,
                        self@,
                        match parent {
                            Some(pp) => Some(*pp),
                            None => None,
                        },
                        MailboxView::fresh(),
                    )
                },
            },
    {
        actor_system.spawn_named(self, name, parent)
    }
}

} // verus!
