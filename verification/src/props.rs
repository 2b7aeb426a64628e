//! The recipe from which an actor is made: producer, mailbox factory,
//! dispatcher, strategies, middleware and hooks.

use crate::config::{Dispatcher, DEFAULT_DISPATCHER_THROUGHPUT};
use crate::middleware_chain::{accept_all, composes, make_middleware_chain};
use crate::pid::Pid;
use crate::supervisor::SupervisorStrategy;
use crate::supervisor::{DEFAULT_MAX_RETRIES, DEFAULT_WITHIN_DURATION};
use vstd::prelude::*;

verus! {

/// The kinds of callable that a recipe carries. The runtime core stores and
/// composes them; whoever hosts it says what they are and supplies the
/// innermost handler of each chain.
pub trait Callables: Sized {
    /// Creates one actor instance.
    type Producer;

    /// A receive function that stands for a whole actor.
    type Receive;

    /// Creates the mailbox of an actor.
    type MailboxProducer;

    /// Turns a recipe into a running actor.
    type Spawner;

    type SpawnMiddleware: Fn(Self::Spawner) -> Self::Spawner;

    /// Delivers a message to the actor.
    type Receiver;

    type ReceiverMiddleware: Fn(Self::Receiver) -> Self::Receiver;

    /// Sends a message to its target.
    type Sender;

    type SenderMiddleware: Fn(Self::Sender) -> Self::Sender;

    /// Hands a context on to the actor.
    type Decorator;

    type ContextDecorator: Fn(Self::Decorator) -> Self::Decorator;

    /// Runs once for a new actor, before any message is delivered.
    type InitHook: Fn(Pid);

    /// The innermost receiver: delivers to the actor.
    fn receiver_terminal() -> Self::Receiver;

    /// The innermost sender: sends to the target.
    fn sender_terminal() -> Self::Sender;

    /// The innermost spawner: the spawner of the recipe, else the default.
    fn spawner_terminal() -> Self::Spawner;

    /// The innermost decorator: hands the context on as it is.
    fn decorator_terminal() -> Self::Decorator;
}

/// How the actor instance is made.
pub enum ActorProducer<C: Callables> {
    /// By a factory.
    Factory(C::Producer),
    /// From a receive function.
    Receive(C::Receive),
}

/// The recipe. It is configured once, option by option, and not changed
/// after that.
pub struct Props<C: Callables> {
    spawner: Option<C::Spawner>,
    producer: ActorProducer<C>,
    mailbox_producer: Option<C::MailboxProducer>,
    guardian_strategy: Option<SupervisorStrategy>,
    supervisor_strategy: Option<SupervisorStrategy>,
    dispatcher: Option<Dispatcher>,
    receiver_middleware: Vec<C::ReceiverMiddleware>,
    sender_middleware: Vec<C::SenderMiddleware>,
    spawn_middleware: Vec<C::SpawnMiddleware>,
    receiver_middleware_chain: Option<C::Receiver>,
    sender_middleware_chain: Option<C::Sender>,
    spawn_middleware_chain: Option<C::Spawner>,
    context_decorator: Vec<C::ContextDecorator>,
    context_decorator_chain: Option<C::Decorator>,
    on_init: Vec<C::InitHook>,
}

/// A recipe as plain values.
pub struct PropsView<C: Callables> {
    pub spawner: Option<C::Spawner>,
    pub producer: ActorProducer<C>,
    pub mailbox_producer: Option<C::MailboxProducer>,
    pub guardian_strategy: Option<SupervisorStrategy>,
    pub supervisor_strategy: Option<SupervisorStrategy>,
    pub dispatcher: Option<Dispatcher>,
    pub receiver_middleware: Seq<C::ReceiverMiddleware>,
    pub sender_middleware: Seq<C::SenderMiddleware>,
    pub spawn_middleware: Seq<C::SpawnMiddleware>,
    pub receiver_middleware_chain: Option<C::Receiver>,
    pub sender_middleware_chain: Option<C::Sender>,
    pub spawn_middleware_chain: Option<C::Spawner>,
    pub context_decorator: Seq<C::ContextDecorator>,
    pub context_decorator_chain: Option<C::Decorator>,
    pub on_init: Seq<C::InitHook>,
}

/// Whether every hook may be called for any actor.
pub open spec fn hooks_accept_all<I: Fn(Pid)>(hooks: Seq<I>) -> bool {
    forall|i: int, pid: Pid| 0 <= i < hooks.len() ==> #[trigger] call_requires(hooks[i], (pid,))
}

impl<C: Callables> PropsView<C> {
    /// A recipe that holds the producer and nothing else.
    pub open spec fn bare(producer: ActorProducer<C>) -> Self {
        PropsView {
            spawner: None,
            producer,
            mailbox_producer: None,
            guardian_strategy: None,
            supervisor_strategy: None,
            dispatcher: None,
            receiver_middleware: Seq::empty(),
            sender_middleware: Seq::empty(),
            spawn_middleware: Seq::empty(),
            receiver_middleware_chain: None,
            sender_middleware_chain: None,
            spawn_middleware_chain: None,
            context_decorator: Seq::empty(),
            context_decorator_chain: None,
            on_init: Seq::empty(),
        }
    }

    /// Every stored callable may be called with any argument.
    pub open spec fn callable(self) -> bool {
        &&& accept_all(self.receiver_middleware)
        &&& accept_all(self.sender_middleware)
        &&& accept_all(self.spawn_middleware)
        &&& accept_all(self.context_decorator)
        &&& hooks_accept_all(self.on_init)
    }

    /// The strategy under which the actor supervises its children.
    pub open spec fn strategy(self) -> SupervisorStrategy {
        match self.supervisor_strategy {
            Some(s) => s,
            None => SupervisorStrategy::default_strategy(),
        }
    }

    /// The dispatcher that the actor's mailbox runs on.
    pub open spec fn dispatcher_or_default(self) -> Dispatcher {
        match self.dispatcher {
            Some(d) => d,
            None => Dispatcher { throughput: DEFAULT_DISPATCHER_THROUGHPUT },
        }
    }
}

/// Whether a chain is the composition of its middleware list around an
/// innermost handler that `is_terminal` admits: no chain for an empty list.
pub open spec fn chain_of<H, W: Fn(H) -> H>(
    middlewares: Seq<W>,
    chain: Option<H>,
    is_terminal: spec_fn(H) -> bool,
) -> bool {
    if middlewares.len() == 0 {
        chain is None
    } else {
        chain is Some && exists|terminal: H|
            is_terminal(terminal) && #[trigger] composes(middlewares, terminal, chain.unwrap())
    }
}

/// Whether `terminal` is an innermost receiver as the host supplies it.
pub open spec fn is_receiver_terminal<C: Callables>(terminal: C::Receiver) -> bool {
    call_ensures(C::receiver_terminal, (), terminal)
}

/// Whether `terminal` is an innermost sender as the host supplies it.
pub open spec fn is_sender_terminal<C: Callables>(terminal: C::Sender) -> bool {
    call_ensures(C::sender_terminal, (), terminal)
}

/// Whether `terminal` is an innermost spawner as the host supplies it.
pub open spec fn is_spawner_terminal<C: Callables>(terminal: C::Spawner) -> bool {
    call_ensures(C::spawner_terminal, (), terminal)
}

/// Whether `terminal` is an innermost decorator as the host supplies it.
pub open spec fn is_decorator_terminal<C: Callables>(terminal: C::Decorator) -> bool {
    call_ensures(C::decorator_terminal, (), terminal)
}

/// One configuration step of a recipe.
pub enum PropsOptionFunc<C: Callables> {
    OnInit(Vec<C::InitHook>),
    Producer(C::Producer),
    Dispatcher(Dispatcher),
    Mailbox(C::MailboxProducer),
    ContextDecorator(Vec<C::ContextDecorator>),
    Guardian(SupervisorStrategy),
    SupervisorStrategy(SupervisorStrategy),
    ReceiverMiddleware(Vec<C::ReceiverMiddleware>),
    SenderMiddleware(Vec<C::SenderMiddleware>),
    SpawnFunc(C::Spawner),
    ReceiveFunc(C::Receive),
    SpawnMiddleware(Vec<C::SpawnMiddleware>),
}

impl<C: Callables> PropsOptionFunc<C> {
    /// Every callable of the option may be called with any argument.
    pub open spec fn callable(self) -> bool {
        match self {
            PropsOptionFunc::OnInit(hooks) => hooks_accept_all(hooks@),
            PropsOptionFunc::ContextDecorator(ms) => accept_all(ms@),
            PropsOptionFunc::ReceiverMiddleware(ms) => accept_all(ms@),
            PropsOptionFunc::SenderMiddleware(ms) => accept_all(ms@),
            PropsOptionFunc::SpawnMiddleware(ms) => accept_all(ms@),
            _ => true,
        }
    }

    /// What the option changes in a recipe, apart from the chains: it sets
    /// one field, or appends to one list.
    pub open spec fn settings(self, props: PropsView<C>) -> PropsView<C> {
        match self {
            PropsOptionFunc::OnInit(hooks) => PropsView { on_init: props.on_init + hooks@, ..props },
            PropsOptionFunc::Producer(p) => PropsView { producer: ActorProducer::Factory(p), ..props },
            PropsOptionFunc::Dispatcher(d) => PropsView { dispatcher: Some(d), ..props },
            PropsOptionFunc::Mailbox(m) => PropsView { mailbox_producer: Some(m), ..props },
            PropsOptionFunc::ContextDecorator(ms) => PropsView {
                context_decorator: props.context_decorator + ms@,
                ..props
            },
            PropsOptionFunc::Guardian(s) => PropsView { guardian_strategy: Some(s), ..props },
            PropsOptionFunc::SupervisorStrategy(s) => PropsView { supervisor_strategy: Some(s), ..props },
            PropsOptionFunc::ReceiverMiddleware(ms) => PropsView {
                receiver_middleware: props.receiver_middleware + ms@,
                ..props
            },
            PropsOptionFunc::SenderMiddleware(ms) => PropsView {
                sender_middleware: props.sender_middleware + ms@,
                ..props
            },
            PropsOptionFunc::SpawnFunc(s) => PropsView { spawner: Some(s), ..props },
            PropsOptionFunc::ReceiveFunc(r) => PropsView { producer: ActorProducer::Receive(r), ..props },
            PropsOptionFunc::SpawnMiddleware(ms) => PropsView {
                spawn_middleware: props.spawn_middleware + ms@,
                ..props
            },
        }
    }

    /// Whether `after` is `before` with this option applied: the option's
    /// setting is made, and the chain of a middleware list that the option
    /// appended to is composed anew, from the whole list and around the
    /// innermost handler of the host; every other chain is kept.
    pub open spec fn applied(self, before: PropsView<C>, after: PropsView<C>) -> bool {
        let set = self.settings(before);
        match self {
            PropsOptionFunc::ContextDecorator(_) => {
                &&& after == (PropsView { context_decorator_chain: after.context_decorator_chain, ..set })
                &&& chain_of(
                    after.context_decorator,
                    after.context_decorator_chain,
                    |t: C::Decorator| is_decorator_terminal::<C>(t),
                )
            },
            PropsOptionFunc::ReceiverMiddleware(_) => {
                &&& after == (PropsView { receiver_middleware_chain: after.receiver_middleware_chain, ..set })
                &&& chain_of(
                    after.receiver_middleware,
                    after.receiver_middleware_chain,
                    |t: C::Receiver| is_receiver_terminal::<C>(t),
                )
            },
            PropsOptionFunc::SenderMiddleware(_) => {
                &&& after == (PropsView { sender_middleware_chain: after.sender_middleware_chain, ..set })
                &&& chain_of(
                    after.sender_middleware,
                    after.sender_middleware_chain,
                    |t: C::Sender| is_sender_terminal::<C>(t),
                )
            },
            PropsOptionFunc::SpawnMiddleware(_) => {
                &&& after == (PropsView { spawn_middleware_chain: after.spawn_middleware_chain, ..set })
                &&& chain_of(
                    after.spawn_middleware,
                    after.spawn_middleware_chain,
                    |t: C::Spawner| is_spawner_terminal::<C>(t),
                )
            },
            _ => after == set,
        }
    }

    /// Applies the option to the recipe.
    pub fn run(self, props: &mut Props<C>)
        requires
            self.callable(),
        ensures
            self.applied(old(props)@, final(props)@),
    {
        props.apply(self)
    }
}

/// Whether `stages` are the recipes that the options make of `before` one
/// after the other, from left to right.
pub open spec fn staged<C: Callables>(
    before: PropsView<C>,
    options: Seq<PropsOptionFunc<C>>,
    stages: Seq<PropsView<C>>,
) -> bool {
    &&& stages.len() == options.len() + 1
    &&& stages[0] == before
    &&& forall|i: int| 0 <= i < options.len() ==> (#[trigger] options[i]).applied(stages[i], stages[i + 1])
}

/// Whether `after` is `before` with the options applied, from left to right.
pub open spec fn configured<C: Callables>(
    before: PropsView<C>,
    options: Seq<PropsOptionFunc<C>>,
    after: PropsView<C>,
) -> bool {
    exists|stages: Seq<PropsView<C>>| #[trigger]
        staged(before, options, stages) && stages[options.len() as int] == after
}

impl<C: Callables> View for Props<C> {
    type V = PropsView<C>;

    closed spec fn view(&self) -> PropsView<C> {
        PropsView {
            spawner: self.spawner,
            producer: self.producer,
            mailbox_producer: self.mailbox_producer,
            guardian_strategy: self.guardian_strategy,
            supervisor_strategy: self.supervisor_strategy,
            dispatcher: self.dispatcher,
            receiver_middleware: self.receiver_middleware@,
            sender_middleware: self.sender_middleware@,
            spawn_middleware: self.spawn_middleware@,
            receiver_middleware_chain: self.receiver_middleware_chain,
            sender_middleware_chain: self.sender_middleware_chain,
            spawn_middleware_chain: self.spawn_middleware_chain,
            context_decorator: self.context_decorator@,
            context_decorator_chain: self.context_decorator_chain,
            on_init: self.on_init@,
        }
    }
}

impl<C: Callables> Props<C> {
    #[verifier::type_invariant]
    closed spec fn wf(&self) -> bool {
        self@.callable()
    }

    fn bare(producer: ActorProducer<C>) -> (props: Self)
        ensures
            props@ == PropsView::<C>::bare(producer),
    {
        Props {
            on_init: Vec::new(),
            producer,
            dispatcher: None,
            mailbox_producer: None,
            context_decorator: Vec::new(),
            guardian_strategy: None,
            supervisor_strategy: None,
            receiver_middleware: Vec::new(),
            sender_middleware: Vec::new(),
            spawner: None,
            spawn_middleware: Vec::new(),
            receiver_middleware_chain: None,
            sender_middleware_chain: None,
            spawn_middleware_chain: None,
            context_decorator_chain: None,
        }
    }

    fn apply(&mut self, option: PropsOptionFunc<C>)
        requires
            option.callable(),
        ensures
            option.applied(old(self)@, final(self)@),
    {
        proof {
            use_type_invariant(&*self);
        }
        match option {
            PropsOptionFunc::OnInit(mut hooks) => {
                let mut all: Vec<C::InitHook> = Vec::new();
                std::mem::swap(&mut self.on_init, &mut all);
                all.append(&mut hooks);
                self.on_init = all;
            },
            PropsOptionFunc::Producer(p) => {
                self.producer = ActorProducer::Factory(p);
            },
            PropsOptionFunc::Dispatcher(d) => {
                self.dispatcher = Some(d);
            },
            PropsOptionFunc::Mailbox(m) => {
                self.mailbox_producer = Some(m);
            },
            PropsOptionFunc::ContextDecorator(mut ms) => {
                let mut all: Vec<C::ContextDecorator> = Vec::new();
                std::mem::swap(&mut self.context_decorator, &mut all);
                all.append(&mut ms);
                let terminal = C::decorator_terminal();
                let chain = make_middleware_chain(&all, terminal);
                proof {
                    if all@.len() > 0 {
                        assert(is_decorator_terminal::<C>(terminal));
                        assert(composes(all@, terminal, chain.unwrap()));
                    }
                }
                self.context_decorator = all;
                self.context_decorator_chain = chain;
            },
            PropsOptionFunc::Guardian(s) => {
                self.guardian_strategy = Some(s);
            },
            PropsOptionFunc::SupervisorStrategy(s) => {
                self.supervisor_strategy = Some(s);
            },
            PropsOptionFunc::ReceiverMiddleware(mut ms) => {
                let mut all: Vec<C::ReceiverMiddleware> = Vec::new();
                std::mem::swap(&mut self.receiver_middleware, &mut all);
                all.append(&mut ms);
                let terminal = C::receiver_terminal();
                let chain = make_middleware_chain(&all, terminal);
                proof {
                    if all@.len() > 0 {
                        assert(is_receiver_terminal::<C>(terminal));
                        assert(composes(all@, terminal, chain.unwrap()));
                    }
                }
                self.receiver_middleware = all;
                self.receiver_middleware_chain = chain;
            },
            PropsOptionFunc::SenderMiddleware(mut ms) => {
                let mut all: Vec<C::SenderMiddleware> = Vec::new();
                std::mem::swap(&mut self.sender_middleware, &mut all);
                all.append(&mut ms);
                let terminal = C::sender_terminal();
                let chain = make_middleware_chain(&all, terminal);
                proof {
                    if all@.len() > 0 {
                        assert(is_sender_terminal::<C>(terminal));
                        assert(composes(all@, terminal, chain.unwrap()));
                    }
                }
                self.sender_middleware = all;
                self.sender_middleware_chain = chain;
            },
            PropsOptionFunc::SpawnFunc(s) => {
                self.spawner = Some(s);
            },
            PropsOptionFunc::ReceiveFunc(r) => {
                self.producer = ActorProducer::Receive(r);
            },
            PropsOptionFunc::SpawnMiddleware(mut ms) => {
                let mut all: Vec<C::SpawnMiddleware> = Vec::new();
                std::mem::swap(&mut self.spawn_middleware, &mut all);
                all.append(&mut ms);
                let terminal = C::spawner_terminal();
                let chain = make_middleware_chain(&all, terminal);
                proof {
                    if all@.len() > 0 {
                        assert(is_spawner_terminal::<C>(terminal));
                        assert(composes(all@, terminal, chain.unwrap()));
                    }
                }
                self.spawn_middleware = all;
                self.spawn_middleware_chain = chain;
            },
        }
    }

    /// The option that appends hooks which run once for each new actor.
    pub fn with_on_init(init: Vec<C::InitHook>) -> (o: PropsOptionFunc<C>)
        ensures
            o == PropsOptionFunc::<C>::OnInit(init),
    {
        PropsOptionFunc::OnInit(init)
    }

    /// The option that sets the factory of the actor instance.
    pub fn with_producer(producer: C::Producer) -> (o: PropsOptionFunc<C>)
        ensures
            o == PropsOptionFunc::<C>::Producer(producer),
    {
        PropsOptionFunc::Producer(producer)
    }

    /// The option that sets the dispatcher.
    pub fn with_dispatcher(dispatcher: Dispatcher) -> (o: PropsOptionFunc<C>)
        ensures
            o == PropsOptionFunc::<C>::Dispatcher(dispatcher),
    {
        PropsOptionFunc::Dispatcher(dispatcher)
    }

    /// The option that sets the mailbox factory.
    pub fn with_mailbox(mailbox_produce_func: C::MailboxProducer) -> (o: PropsOptionFunc<C>)
        ensures
            o == PropsOptionFunc::<C>::Mailbox(mailbox_produce_func),
    {
        PropsOptionFunc::Mailbox(mailbox_produce_func)
    }

    /// The option that appends context decorators and composes their chain.
    pub fn with_context_decorator(decorators: Vec<C::ContextDecorator>) -> (o: PropsOptionFunc<C>)
        ensures
            o == PropsOptionFunc::<C>::ContextDecorator(decorators),
    {
        PropsOptionFunc::ContextDecorator(decorators)
    }

    /// The option that sets the strategy for the actor as a guardian.
    pub fn with_guardian(guardian: SupervisorStrategy) -> (o: PropsOptionFunc<C>)
        ensures
            o == PropsOptionFunc::<C>::Guardian(guardian),
    {
        PropsOptionFunc::Guardian(guardian)
    }

    /// The option that sets the strategy under which the actor supervises
    /// its children.
    pub fn with_supervisor_strategy(supervisor: SupervisorStrategy) -> (o: PropsOptionFunc<C>)
        ensures
            o == PropsOptionFunc::<C>::SupervisorStrategy(supervisor),
    {
        PropsOptionFunc::SupervisorStrategy(supervisor)
    }

    /// The option that appends receiver middleware and composes their chain.
    pub fn with_receiver_middleware_func(middlewares: Vec<C::ReceiverMiddleware>) -> (o: PropsOptionFunc<C>)
        ensures
            o == PropsOptionFunc::<C>::ReceiverMiddleware(middlewares),
    {
        PropsOptionFunc::ReceiverMiddleware(middlewares)
    }

    /// The option that appends sender middleware and composes their chain.
    pub fn with_sender_middleware_func(middlewares: Vec<C::SenderMiddleware>) -> (o: PropsOptionFunc<C>)
        ensures
            o == PropsOptionFunc::<C>::SenderMiddleware(middlewares),
    {
        PropsOptionFunc::SenderMiddleware(middlewares)
    }

    /// The option that sets a spawner in place of the default one.
    pub fn with_spawn_func(spawn_func: C::Spawner) -> (o: PropsOptionFunc<C>)
        ensures
            o == PropsOptionFunc::<C>::SpawnFunc(spawn_func),
    {
        PropsOptionFunc::SpawnFunc(spawn_func)
    }

    /// The option that makes the actor from a receive function.
    pub fn with_receive_func(receive_func: C::Receive) -> (o: PropsOptionFunc<C>)
        ensures
            o == PropsOptionFunc::<C>::ReceiveFunc(receive_func),
    {
        PropsOptionFunc::ReceiveFunc(receive_func)
    }

    /// The option that appends spawn middleware and composes their chain.
    pub fn with_spawn_middleware_func(spawn_middlewares: Vec<C::SpawnMiddleware>) -> (o: PropsOptionFunc<C>)
        ensures
            o == PropsOptionFunc::<C>::SpawnMiddleware(spawn_middlewares),
    {
        PropsOptionFunc::SpawnMiddleware(spawn_middlewares)
    }

    /// The spawner that was set in place of the default one, if any.
    pub fn get_spawner(&self) -> (s: Option<&C::Spawner>)
        ensures
            match s {
                Some(x) => self@.spawner == Some(*x),
                None => self@.spawner is None,
            },
    {
        match &self.spawner {
            Some(x) => Some(x),
            None => None,
        }
    }

    /// How the actor instance is made.
    pub fn get_producer(&self) -> (p: &ActorProducer<C>)
        ensures
            *p == self@.producer,
    {
        &self.producer
    }

    /// The dispatcher of the recipe, else one with the default throughput.
    pub fn get_dispatcher(&self) -> (d: Dispatcher)
        ensures
            d == self@.dispatcher_or_default(),
    {
        match self.dispatcher {
            Some(d) => d,
            None => Dispatcher { throughput: DEFAULT_DISPATCHER_THROUGHPUT },
        }
    }

    /// The dispatcher of the recipe, if one was set.
    pub fn get_configured_dispatcher(&self) -> (d: Option<Dispatcher>)
        ensures
            d == self@.dispatcher,
    {
        self.dispatcher
    }

    /// The mailbox factory of the recipe, if one was set; else the default
    /// unbounded mailbox is used.
    pub fn get_mailbox_producer(&self) -> (m: Option<&C::MailboxProducer>)
        ensures
            match m {
                Some(x) => self@.mailbox_producer == Some(*x),
                None => self@.mailbox_producer is None,
            },
    {
        match &self.mailbox_producer {
            Some(x) => Some(x),
            None => None,
        }
    }

    /// The strategy of the recipe, else the default one.
    pub fn get_supervisor_strategy(&self) -> (s: SupervisorStrategy)
        ensures
            s == self@.strategy(),
    {
        match self.supervisor_strategy {
            Some(s) => s,
            None => SupervisorStrategy::OneForOne {
                max_retries: DEFAULT_MAX_RETRIES,
                within_duration: DEFAULT_WITHIN_DURATION,
            },
        }
    }

    pub fn get_guardian_strategy(&self) -> (s: Option<SupervisorStrategy>)
        ensures
            s == self@.guardian_strategy,
    {
        self.guardian_strategy
    }

    pub fn get_spawn_middleware_chain(&self) -> (c: Option<&C::Spawner>)
        ensures
            match c {
                Some(x) => self@.spawn_middleware_chain == Some(*x),
                None => self@.spawn_middleware_chain is None,
            },
    {
        match &self.spawn_middleware_chain {
            Some(x) => Some(x),
            None => None,
        }
    }

    pub fn get_sender_middleware_chain(&self) -> (c: Option<&C::Sender>)
        ensures
            match c {
                Some(x) => self@.sender_middleware_chain == Some(*x),
                None => self@.sender_middleware_chain is None,
            },
    {
        match &self.sender_middleware_chain {
            Some(x) => Some(x),
            None => None,
        }
    }

    pub fn get_receiver_middleware_chain(&self) -> (c: Option<&C::Receiver>)
        ensures
            match c {
                Some(x) => self@.receiver_middleware_chain == Some(*x),
                None => self@.receiver_middleware_chain is None,
            },
    {
        match &self.receiver_middleware_chain {
            Some(x) => Some(x),
            None => None,
        }
    }

    pub fn get_context_decorator_chain(&self) -> (c: Option<&C::Decorator>)
        ensures
            match c {
                Some(x) => self@.context_decorator_chain == Some(*x),
                None => self@.context_decorator_chain is None,
            },
    {
        match &self.context_decorator_chain {
            Some(x) => Some(x),
            None => None,
        }
    }

    /// Applies the options from left to right.
    pub fn configure(&mut self, opts: Vec<PropsOptionFunc<C>>)
        requires
            forall|i: int| 0 <= i < opts@.len() ==> (#[trigger] opts@[i]).callable(),
        ensures
            configured(old(self)@, opts@, final(self)@),
    {
        let mut opts = opts;
        let ghost all = opts@;
        let ghost start = self@;
        let ghost mut stages: Seq<PropsView<C>> = Seq::empty().push(start);
        let mut done: usize = 0;
        let total = opts.len();
        while opts.len() > 0
            invariant
                done + opts@.len() == total,
                total == all.len(),
                opts@ == all.subrange(done as int, total as int),
                forall|i: int| 0 <= i < all.len() ==> (#[trigger] all[i]).callable(),
                stages.len() == done + 1,
                stages[0] == start,
                stages[done as int] == self@,
                forall|i: int| 0 <= i < done ==> (#[trigger] all[i]).applied(stages[i], stages[i + 1]),
            decreases opts@.len(),
        {
            let option = opts.remove(0);
            assert(option == all[done as int]);
            self.apply(option);
            proof {
                assert(opts@ =~= all.subrange(done + 1, total as int));
                stages = stages.push(self@);
            }
            done = done + 1;
        }
        proof {
            assert(staged(start, all, stages));
        }
    }

    /// A recipe with the given factory and options.
    pub fn from_producer_func_with_opts(producer: C::Producer, opts: Vec<PropsOptionFunc<C>>) -> (props: Self)
        requires
            forall|i: int| 0 <= i < opts@.len() ==> (#[trigger] opts@[i]).callable(),
        ensures
            configured(PropsView::<C>::bare(ActorProducer::Factory(producer)), opts@, props@),
    {
        let mut props = Props::bare(ActorProducer::Factory(producer));
        props.configure(opts);
        props
    }

    /// A recipe with the given factory.
    pub fn from_producer_func(producer: C::Producer) -> (props: Self)
        ensures
            props@ == PropsView::<C>::bare(ActorProducer::Factory(producer)),
    {
        Props::bare(ActorProducer::Factory(producer))
    }

    /// A recipe for an actor that is the given receive function, with the
    /// given options.
    pub fn from_receive_func_with_opts(f: C::Receive, opts: Vec<PropsOptionFunc<C>>) -> (props: Self)
        requires
            forall|i: int| 0 <= i < opts@.len() ==> (#[trigger] opts@[i]).callable(),
        ensures
            configured(PropsView::<C>::bare(ActorProducer::Receive(f)), opts@, props@),
    {
        let mut props = Props::bare(ActorProducer::Receive(f));
        props.configure(opts);
        props
    }

    /// A recipe for an actor that is the given receive function.
    pub fn from_receive_func(f: C::Receive) -> (props: Self)
        ensures
            props@ == PropsView::<C>::bare(ActorProducer::Receive(f)),
    {
        Props::bare(ActorProducer::Receive(f))
    }
}

/// Whether each of the hooks has run for the actor `pid`.
pub open spec fn hooks_ran<I: Fn(Pid)>(hooks: Seq<I>, pid: Pid) -> bool {
    forall|i: int| 0 <= i < hooks.len() ==> call_ensures(#[trigger] hooks[i], (pid,), ())
}

/// Runs the hooks of the recipe for the new actor `pid`, each of them once,
/// in the order in which they were registered.
pub fn initialize<C: Callables>(props: &Props<C>, pid: &Pid)
    ensures
        hooks_ran(props@.on_init, *pid),
{
    proof {
        use_type_invariant(props);
    }
    let mut i: usize = 0;
    while i < props.on_init.len()
        invariant
            i <= props.on_init.len(),
            hooks_accept_all(props.on_init@),
            forall|k: int| 0 <= k < i ==> call_ensures(#[trigger] props.on_init@[k], (*pid,), ()),
        decreases props.on_init.len() - i,
    {
        let hook = &props.on_init[i];
        hook(pid.clone());
        i = i + 1;
    }
}

} // verus!
