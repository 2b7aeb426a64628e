//! What travels through a mailbox.

use crate::actor_inner_error::ActorInnerError;
use crate::message_envelope::MessageEnvelope;
use crate::messages::{AutoReceiveMessage, DeadLetterResponse, Terminated, Touch, Touched};
use crate::pid::Pid;
use crate::restart_statistics::RestartStatistics;
use vstd::prelude::*;

verus! {

/// A message of any kind. `M` is the type of the messages that the
/// application defines; the runtime carries them without looking inside.
pub enum MessageHandle<M> {
    /// A message of the application.
    User(M),
    /// A message with headers and sender.
    Envelope(Box<MessageEnvelope<M>>),
    /// A message of the runtime to the actor's context.
    System(Box<SystemMessage<M>>),
    /// A lifecycle notification.
    AutoReceive(AutoReceiveMessage),
    Terminated(Terminated),
    Touch(Touch),
    Touched(Touched),
    DeadLetterResponse(DeadLetterResponse),
}

/// The messages that the runtime itself sends on the system lane.
pub enum SystemMessage<M> {
    Started,
    Stop,
    Restart,
    Watch(Pid),
    Unwatch(Pid),
    Terminated(Terminated),
    Failure(Failure<M>),
}

/// The report of a failed actor to its supervisor.
pub struct Failure<M> {
    /// The actor that failed.
    pub who: Pid,
    /// The captured error.
    pub reason: ActorInnerError,
    /// The failure history that the actor reports of itself.
    pub restart_stats: RestartStatistics,
    /// The message that was being processed.
    pub message: MessageHandle<M>,
}

impl<M> Failure<M> {
    pub fn new(who: Pid, reason: ActorInnerError, restart_stats: RestartStatistics, message: MessageHandle<M>) -> (f:
        Self)
        ensures
            f.who == who,
            f.reason == reason,
            f.restart_stats == restart_stats,
            f.message == message,
    {
        Failure { who, reason, restart_stats, message }
    }
}

impl<M> MessageHandle<M> {
    /// Wraps a message of the application.
    pub fn new(message: M) -> (h: Self)
        ensures
            h == MessageHandle::User(message),
    {
        MessageHandle::User(message)
    }

    /// Wraps a message of the runtime.
    pub fn system(message: SystemMessage<M>) -> (h: Self)
        ensures
            h == MessageHandle::System(Box::new(message)),
    {
        MessageHandle::System(Box::new(message))
    }

    /// Whether this is a message of the runtime to a context.
    pub fn is_system(&self) -> (r: bool)
        ensures
            r == (self is System),
    {
        match self {
            MessageHandle::System(_) => true,
            _ => false,
        }
    }

    /// Whether this is a message with headers and sender.
    pub fn is_envelope(&self) -> (r: bool)
        ensures
            r == (self is Envelope),
    {
        match self {
            MessageHandle::Envelope(_) => true,
            _ => false,
        }
    }

    /// The message of the application inside, if this is one.
    pub fn to_user(&self) -> (r: Option<&M>)
        ensures
            match *self {
                MessageHandle::User(m) => r == Some(&m),
                _ => r is None,
            },
    {
        match self {
            MessageHandle::User(m) => Some(m),
            _ => None,
        }
    }
}

impl AutoReceiveMessage {
    /// Hook that runs when a lifecycle notification reaches a process: it
    /// does nothing.
    pub fn auto_receive_message<M>(&self, _pid: &Pid, _message: MessageHandle<M>) {
    }
}

} // verus!
