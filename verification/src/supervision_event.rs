//! What the supervision engine publishes about each directive it resolves.

use crate::actor_inner_error::ActorInnerError;
use crate::pid::Pid;
use crate::supervisor::Directive;
use vstd::prelude::*;

verus! {

/// Published on the event bus for every resolved directive.
pub struct SupervisorEvent {
    /// The child that failed.
    pub child: Pid,
    /// The captured error.
    pub reason: ActorInnerError,
    /// What the supervisor decided.
    pub directive: Directive,
}

impl SupervisorEvent {
    pub fn new(child: Pid, reason: ActorInnerError, directive: Directive) -> (e: Self)
        ensures
            e.child == child,
            e.reason == reason,
            e.directive == directive,
    {
        SupervisorEvent { child, reason, directive }
    }
}

} // verus!
