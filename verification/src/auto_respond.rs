//! Messages that are answered by the runtime itself, without reaching the
//! actor.

use crate::messages::{Touch, Touched};
use crate::pid::Pid;
use std::sync::Arc;
use vstd::prelude::*;

verus! {

/// A message that carries its own answer.
pub trait AutoRespond {
    /// The kind of answer.
    type Response;

    /// The answer that the process `who` gives to this message.
    fn get_auto_response(&self, who: &Pid) -> (r: Self::Response);
}

impl AutoRespond for Touch {
    type Response = Touched;

    /// A liveness probe is answered with the identifier of the process.
    fn get_auto_response(&self, who: &Pid) -> (r: Touched)
        ensures
            r.who == Some(*who),
    {
        self.respond(who)
    }
}

/// A shared handle to a message that carries its own answer.
pub struct AutoRespondHandle<A>(Arc<A>);

impl<A> AutoRespondHandle<A> {
    /// The message behind the handle.
    pub closed spec fn inner(self) -> A {
        *self.0
    }

    pub fn new(auto_respond: Arc<A>) -> (h: Self)
        ensures
            h.inner() == *auto_respond,
    {
        AutoRespondHandle(auto_respond)
    }
}

impl<A: AutoRespond> AutoRespond for AutoRespondHandle<A> {
    type Response = A::Response;

    /// The answer of the message behind the handle.
    fn get_auto_response(&self, who: &Pid) -> (r: A::Response)
        ensures
            call_ensures(A::get_auto_response, (&self.inner(), who), r),
    {
        self.0.get_auto_response(who)
    }
}

} // verus!
