//! The bookkeeping of the event bus: who has subscribed, in which order.
//! The handlers themselves are kept by whoever hosts the runtime, under the
//! identifier of their subscription.

use vstd::prelude::*;

verus! {

/// The receipt of a subscription.
#[derive(Clone, Copy, Debug, PartialEq, Eq, Structural)]
pub struct Subscription {
    pub id: u64,
}

/// An event stream as plain values.
pub struct EventStreamView {
    /// The identifier that the next subscription gets.
    pub next_id: u64,
    /// The identifiers of the subscriptions, oldest first.
    pub subscribers: Seq<u64>,
}

/// The subscriptions of an event bus.
#[derive(Debug)]
pub struct EventStream {
    next_id: u64,
    subscribers: Vec<u64>,
}

impl View for EventStream {
    type V = EventStreamView;

    closed spec fn view(&self) -> EventStreamView {
        EventStreamView { next_id: self.next_id, subscribers: self.subscribers@ }
    }
}

impl EventStreamView {
    /// The identifier after `id`: counting starts over after the largest.
    pub open spec fn following(id: u64) -> u64 {
        if id == u64::MAX {
            0
        } else {
            (id + 1) as u64
        }
    }

    /// The stream after one more subscription.
    pub open spec fn subscribed(self) -> EventStreamView {
        EventStreamView {
            next_id: Self::following(self.next_id),
            subscribers: self.subscribers.push(self.next_id),
        }
    }

    /// The stream after the oldest subscription with the identifier `id` is
    /// taken out.
    pub open spec fn unsubscribed(self, id: u64) -> EventStreamView {
        match self.subscribers.index_of_first(id) {
            Some(i) => EventStreamView { subscribers: self.subscribers.remove(i), ..self },
            None => self,
        }
    }
}

impl EventStream {
    /// A stream without subscriptions.
    pub fn new() -> (s: Self)
        ensures
            s@ == (EventStreamView { next_id: 0, subscribers: Seq::empty() }),
    {
        EventStream { next_id: 0, subscribers: Vec::new() }
    }

    /// Adds a subscription and returns its receipt.
    pub fn subscribe(&mut self) -> (s: Subscription)
        ensures
            s.id == old(self)@.next_id,
            final(self)@ == old(self)@.subscribed(),
    {
        let id = self.next_id;
        self.subscribers.push(id);
        self.next_id = if id == u64::MAX {
            0
        } else {
            id + 1
        };
        Subscription { id }
    }

    /// Takes a subscription out. Returns whether it was there.
    pub fn unsubscribe(&mut self, subscription: &Subscription) -> (removed: bool)
        ensures
            removed == old(self)@.subscribers.contains(subscription.id),
            final(self)@ == old(self)@.unsubscribed(subscription.id),
    {
        let mut i: usize = 0;
        while i < self.subscribers.len()
            invariant
                i <= self.subscribers.len(),
                *self == *old(self),
                forall|k: int| 0 <= k < i ==> self.subscribers@[k] != subscription.id,
            decreases self.subscribers.len() - i,
        {
            if self.subscribers[i] == subscription.id {
                proof {
                    let s = self.subscribers@;
                    assert(s.contains(subscription.id));
                    s.index_of_first_ensures(subscription.id);
                    let first = s.index_of_first(subscription.id).unwrap();
                    if first < i {
                        assert(s[first] != subscription.id);
                    }
                    if i < first {
                        assert(s[i as int] != subscription.id);
                    }
                }
                self.subscribers.remove(i);
                return true;
            }
            i = i + 1;
        }
        proof {
            self.subscribers@.index_of_first_ensures(subscription.id);
        }
        false
    }

    /// The subscriptions that an event goes to, oldest first.
    pub fn publish(&self) -> (r: Vec<Subscription>)
        ensures
            r@.len() == self@.subscribers.len(),
            forall|i: int| 0 <= i < r@.len() ==> (#[trigger] r@[i]).id == self@.subscribers[i],
    {
        let mut out: Vec<Subscription> = Vec::new();
        let mut i: usize = 0;
        while i < self.subscribers.len()
            invariant
                i <= self.subscribers.len(),
                out@.len() == i,
                forall|k: int| 0 <= k < i ==> (#[trigger] out@[k]).id == self.subscribers@[k],
            decreases self.subscribers.len() - i,
        {
            out.push(Subscription { id: self.subscribers[i] });
            i = i + 1;
        }
        out
    }

    /// The number of subscriptions.
    pub fn len(&self) -> (n: usize)
        ensures
            n == self@.subscribers.len(),
    {
        self.subscribers.len()
    }
}

} // verus!
