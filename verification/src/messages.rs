//! The message kinds that the runtime itself produces and consumes.

use crate::pid::{pids_match, same_pid, Pid};
use crate::text::str_eq;
use vstd::prelude::*;

verus! {

/// Why a process terminated.
#[derive(Clone, Copy, Debug, PartialEq, Eq, Structural, Hash, PartialOrd, Ord)]
pub enum TerminatedReason {
    Stopped,
    AddressTerminated,
    NotFound,
}

impl TerminatedReason {
    /// The name of the variant on the wire.
    pub open spec fn name(self) -> Seq<char> {
        match self {
            TerminatedReason::Stopped => "Stopped"@,
            TerminatedReason::AddressTerminated => "AddressTerminated"@,
            TerminatedReason::NotFound => "NotFound"@,
        }
    }

    /// The variant that a wire name stands for, if any.
    pub open spec fn named(value: Seq<char>) -> Option<TerminatedReason> {
        if value == "Stopped"@ {
            Some(TerminatedReason::Stopped)
        } else if value == "AddressTerminated"@ {
            Some(TerminatedReason::AddressTerminated)
        } else if value == "NotFound"@ {
            Some(TerminatedReason::NotFound)
        } else {
            None
        }
    }

    /// The variant's name as a string: stable, and safe for programmatic use.
    pub fn as_str_name(&self) -> (r: &'static str)
        ensures
            r@ == self.name(),
    {
        match self {
            TerminatedReason::Stopped => "Stopped",
            TerminatedReason::AddressTerminated => "AddressTerminated",
            TerminatedReason::NotFound => "NotFound",
        }
    }

    /// The variant with the given name; `None` for any other text.
    pub fn from_str_name(value: &str) -> (r: Option<TerminatedReason>)
        ensures
            r == Self::named(value@),
    {
        if str_eq(value, "Stopped") {
            Some(TerminatedReason::Stopped)
        } else if str_eq(value, "AddressTerminated") {
            Some(TerminatedReason::AddressTerminated)
        } else if str_eq(value, "NotFound") {
            Some(TerminatedReason::NotFound)
        } else {
            None
        }
    }

    /// The three names are distinct, so a name read back gives the variant
    /// it was written from.
    pub proof fn name_round_trip(self)
        ensures
            Self::named(self.name()) == Some(self),
    {
        reveal_strlit("Stopped");
        reveal_strlit("AddressTerminated");
        reveal_strlit("NotFound");
        assert("Stopped"@.len() == 7);
        assert("AddressTerminated"@.len() == 17);
        assert("NotFound"@.len() == 8);
    }
}

/// Reply to a message that was addressed to a process that does not exist.
#[derive(Debug)]
pub struct DeadLetterResponse {
    pub target: Option<Pid>,
}

/// Tells a watcher that a process is gone.
#[derive(Debug)]
pub struct Terminated {
    pub who: Option<Pid>,
    pub why: TerminatedReason,
}

impl Clone for Terminated {
    fn clone(&self) -> (r: Self)
        ensures
            r == *self,
    {
        let who = match &self.who {
            Some(p) => Some(p.clone()),
            None => None,
        };
        Terminated { who, why: self.why }
    }
}

impl Terminated {
    /// Whether both notices name the same process and the same reason.
    pub fn eq_message(&self, other: &Terminated) -> (r: bool)
        ensures
            r == (same_pid(self.who, other.who) && self.why == other.why),
    {
        pids_match(&self.who, &other.who) && self.why == other.why
    }
}

/// A liveness probe.
#[derive(Clone, Copy, Debug, PartialEq, Eq, Structural)]
pub struct Touch {}

/// The answer to a liveness probe.
#[derive(Debug)]
pub struct Touched {
    pub who: Option<Pid>,
}

impl Clone for Touched {
    fn clone(&self) -> (r: Self)
        ensures
            r == *self,
    {
        let who = match &self.who {
            Some(p) => Some(p.clone()),
            None => None,
        };
        Touched { who }
    }
}

impl Clone for DeadLetterResponse {
    fn clone(&self) -> (r: Self)
        ensures
            r == *self,
    {
        let target = match &self.target {
            Some(p) => Some(p.clone()),
            None => None,
        };
        DeadLetterResponse { target }
    }
}

impl Touched {
    /// Whether both answers name the same process.
    pub fn eq_message(&self, other: &Touched) -> (r: bool)
        ensures
            r == same_pid(self.who, other.who),
    {
        pids_match(&self.who, &other.who)
    }
}

impl Touch {
    /// The answer that the process `who` gives to this probe.
    pub fn respond(&self, who: &Pid) -> (r: Touched)
        ensures
            r.who == Some(*who),
    {
        Touched { who: Some(who.clone()) }
    }
}

/// Lifecycle notifications that the runtime hands to an actor.
#[derive(Clone, Copy, Debug, PartialEq, Eq, Structural)]
pub enum AutoReceiveMessage {
    PostStart,
    PreRestart,
    PreStop,
    PostStop,
    PoisonPill,
}

impl AutoReceiveMessage {
    pub open spec fn label(self) -> Seq<char> {
        match self {
            AutoReceiveMessage::PostStart => "PostStart"@,
            AutoReceiveMessage::PreRestart => "PreRestart"@,
            AutoReceiveMessage::PreStop => "PreStop"@,
            AutoReceiveMessage::PostStop => "PostStop"@,
            AutoReceiveMessage::PoisonPill => "PoisonPill"@,
        }
    }

    /// The text that the notification is displayed as.
    pub fn as_str(&self) -> (r: &'static str)
        ensures
            r@ == self.label(),
    {
        match self {
            AutoReceiveMessage::PostStart => "PostStart",
            AutoReceiveMessage::PreRestart => "PreRestart",
            AutoReceiveMessage::PreStop => "PreStop",
            AutoReceiveMessage::PostStop => "PostStop",
            AutoReceiveMessage::PoisonPill => "PoisonPill",
        }
    }

    /// Whether `other` is the same notification.
    pub fn eq_message(&self, other: &AutoReceiveMessage) -> (r: bool)
        ensures
            r == (*self == *other),
    {
        match (self, other) {
            (AutoReceiveMessage::PostStart, AutoReceiveMessage::PostStart) => true,
            (AutoReceiveMessage::PreRestart, AutoReceiveMessage::PreRestart) => true,
            (AutoReceiveMessage::PreStop, AutoReceiveMessage::PreStop) => true,
            (AutoReceiveMessage::PostStop, AutoReceiveMessage::PostStop) => true,
            (AutoReceiveMessage::PoisonPill, AutoReceiveMessage::PoisonPill) => true,
            _ => false,
        }
    }
}

} // verus!
