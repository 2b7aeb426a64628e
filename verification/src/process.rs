//! A running actor as the registry holds it: its mailbox and its context.

use crate::mailbox::{Mailbox, MailboxView};
use crate::message::MessageHandle;
use crate::pid::{Pid, PidView};
use crate::pid_set::PidSet;
use crate::props::{Callables, Props, PropsView};
use crate::restart_statistics::RestartStatistics;
use crate::supervisor::{ChildView, Children};
use vstd::prelude::*;

verus! {

/// What an actor knows of itself and of its relatives. Relatives are held by
/// identifier, never by reference.
pub struct ActorContext<M, C: Callables> {
    pub self_pid: Pid,
    /// Absent for a top-level actor, which the guardian supervises.
    pub parent: Option<Pid>,
    pub props: Props<C>,
    pub children: Children,
    pub watchers: PidSet,
    /// The message that is being processed.
    pub message: Option<MessageHandle<M>>,
    /// The failures of this actor itself.
    pub restart_stats: RestartStatistics,
}

/// An `ActorContext` as plain values.
pub struct ContextView<M, C: Callables> {
    pub self_pid: Pid,
    pub parent: Option<Pid>,
    pub props: PropsView<C>,
    pub children: Seq<ChildView>,
    pub watchers: Seq<PidView>,
    pub message: Option<MessageHandle<M>>,
    pub failures: Seq<u64>,
}

impl<M, C: Callables> View for ActorContext<M, C> {
    type V = ContextView<M, C>;

    open spec fn view(&self) -> ContextView<M, C> {
        ContextView {
            self_pid: self.self_pid,
            parent: self.parent,
            props: self.props@,
            children: self.children@,
            watchers: self.watchers@,
            message: self.message,
            failures: self.restart_stats@,
        }
    }
}

impl<M, C: Callables> ContextView<M, C> {
    /// The context of an actor that was just spawned.
    pub open spec fn fresh(self_pid: Pid, parent: Option<Pid>, props: PropsView<C>) -> Self {
        ContextView {
            self_pid,
            parent,
            props,
            children: Seq::empty(),
            watchers: Seq::empty(),
            message: None,
            failures: Seq::empty(),
        }
    }
}

impl<M, C: Callables> ActorContext<M, C> {
    /// The context of a new actor.
    pub fn new(self_pid: Pid, parent: Option<Pid>, props: Props<C>) -> (c: Self)
        ensures
            c@ == ContextView::<M, C>::fresh(self_pid, parent, props@),
    {
        ActorContext {
            self_pid,
            parent,
            props,
            children: Children::new(),
            watchers: PidSet::new(),
            message: None,
            restart_stats: RestartStatistics::new(),
        }
    }

    pub fn get_self(&self) -> (p: &Pid)
        ensures
            *p == self@.self_pid,
    {
        &self.self_pid
    }

    pub fn get_parent(&self) -> (p: Option<&Pid>)
        ensures
            match p {
                Some(x) => self@.parent == Some(*x),
                None => self@.parent is None,
            },
    {
        match &self.parent {
            Some(x) => Some(x),
            None => None,
        }
    }

    /// The identifiers of the children, in the order in which they were
    /// spawned.
    pub fn get_children(&self) -> (c: Vec<Pid>)
        ensures
            crate::pid::pid_views(c@) == crate::supervisor::child_pids(self@.children),
    {
        self.children.pids()
    }

    /// The message that is being processed, if any.
    pub fn get_message_handle(&self) -> (m: Option<&MessageHandle<M>>)
        ensures
            match m {
                Some(x) => self@.message == Some(*x),
                None => self@.message is None,
            },
    {
        match &self.message {
            Some(x) => Some(x),
            None => None,
        }
    }

    pub fn get_props(&self) -> (p: &Props<C>)
        ensures
            p@ == self@.props,
    {
        &self.props
    }
}

/// An actor in the registry: exactly one mailbox, and the context that the
/// mailbox delivers to.
pub struct ActorProcess<M, C: Callables> {
    pub mailbox: Mailbox<MessageHandle<M>>,
    pub context: ActorContext<M, C>,
}

/// An `ActorProcess` as plain values.
pub struct ProcessView<M, C: Callables> {
    pub mailbox: MailboxView<MessageHandle<M>>,
    pub context: ContextView<M, C>,
}

impl<M, C: Callables> View for ActorProcess<M, C> {
    type V = ProcessView<M, C>;

    open spec fn view(&self) -> ProcessView<M, C> {
        ProcessView { mailbox: self.mailbox@, context: self.context@ }
    }
}

/// What a name of the registry stands for.
pub enum ProcessHandle<M, C: Callables> {
    /// An actor.
    Actor(ActorProcess<M, C>),
    /// The process that publishes what it is sent.
    EventStream,
}

/// A `ProcessHandle` as plain values.
pub enum HandleView<M, C: Callables> {
    Actor(ProcessView<M, C>),
    EventStream,
}

impl<M, C: Callables> View for ProcessHandle<M, C> {
    type V = HandleView<M, C>;

    open spec fn view(&self) -> HandleView<M, C> {
        match self {
            ProcessHandle::Actor(p) => HandleView::Actor(p@),
            ProcessHandle::EventStream => HandleView::EventStream,
        }
    }
}

} // verus!
